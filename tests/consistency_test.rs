use bytes::Bytes;
use mountpoint_pool::buffer_pool::BufferPool;
use mountpoint_pool::cache::{
    CacheConfig, CacheEntry, EntryKind, EntryState, FetchOutcome, LookupCache, RemoteIdentity,
};
use mountpoint_pool::open_file::{FsError, Filesystem, LookupResult};
use std::collections::HashMap;

const OBJECT_SIZE: usize = 512 * 1024;
const FILE: u64 = 2;

/// A stand-in for the remote store: one current generation per inode.
struct Store {
    objects: HashMap<u64, (RemoteIdentity, Vec<u8>)>,
    next_version: u64,
    lookups: usize,
}

impl Store {
    fn new() -> Self {
        Store { objects: HashMap::new(), next_version: 1, lookups: 0 }
    }

    fn put(&mut self, inode: u64, contents: Vec<u8>) {
        let identity = RemoteIdentity {
            version: self.next_version,
            size: contents.len() as u64,
            mtime: 1000 * self.next_version,
        };
        self.next_version += 1;
        self.objects.insert(inode, (identity, contents));
    }

    fn remove(&mut self, inode: u64) {
        self.objects.remove(&inode);
    }

    fn lookup(&mut self, inode: u64) -> LookupResult {
        self.lookups += 1;
        match self.objects.get(&inode) {
            Some((identity, _)) => LookupResult::Found(EntryKind::File, *identity),
            None => LookupResult::NotFound,
        }
    }

    fn fetch(
        &self,
        identity: RemoteIdentity,
        offset: usize,
        len: usize,
        lease: &mut mountpoint_pool::buffer_pool::LeasedBytesMut,
    ) -> FetchOutcome {
        match self.objects.get(&FILE) {
            None => FetchOutcome::RemoteNotFound,
            Some((current, _)) if *current != identity => FetchOutcome::RemoteMismatch,
            Some((_, data)) => {
                lease.extend_from_slice(&data[offset..offset + len]);
                FetchOutcome::Complete
            }
        }
    }
}

fn open(fs: &mut Filesystem, store: &mut Store, inode: u64, now: u64) -> Result<u64, FsError> {
    let identity = match fs.resolve(inode, now) {
        Some(identity) => identity,
        None => {
            let result = store.lookup(inode);
            fs.complete_lookup(inode, result, now)?
        }
    };
    assert!(fs.can_open());
    Ok(fs.open(inode, identity))
}

fn read(
    fs: &mut Filesystem,
    pool: &mut BufferPool,
    store: &Store,
    handle: u64,
    offset: usize,
    len: usize,
) -> Result<Bytes, FsError> {
    let identity = fs.read_target(handle)?;
    let mut lease = pool.get_buffer();
    let outcome = store.fetch(identity, offset, len, &mut lease);
    fs.complete_read(pool, handle, offset as u64, lease, outcome)
}

fn caching(ttl_ms: u64) -> CacheConfig {
    CacheConfig { serve_lookup_from_cache: true, dir_ttl_ms: ttl_ms, file_ttl_ms: ttl_ms }
}

fn no_caching() -> CacheConfig {
    CacheConfig { serve_lookup_from_cache: false, dir_ttl_ms: 1000, file_ttl_ms: 1000 }
}

fn page_cache_sharing_test(config: CacheConfig) {
    let mut fs = Filesystem::new(config);
    let mut pool = BufferPool::new(128);
    let mut store = Store::new();
    let old_contents = vec![0xaau8; OBJECT_SIZE];
    store.put(FILE, old_contents.clone());

    let old_file = open(&mut fs, &mut store, FILE, 0).unwrap();
    let buf = read(&mut fs, &mut pool, &store, old_file, 0, 128).unwrap();
    assert_eq!(&buf[..], &old_contents[..128]);

    let new_contents = vec![0xbbu8; OBJECT_SIZE];
    store.put(FILE, new_contents.clone());

    let mut new_file = open(&mut fs, &mut store, FILE, 1).unwrap();
    let buf = if config.serve_lookup_from_cache {
        // A cached identity may be stale once: that read fails and evicts it.
        match read(&mut fs, &mut pool, &store, new_file, 0, 128) {
            Ok(buf) => buf,
            Err(e) => {
                assert_eq!(e, FsError::ReadFailed);
                new_file = open(&mut fs, &mut store, FILE, 2).unwrap();
                read(&mut fs, &mut pool, &store, new_file, 0, 128).unwrap()
            }
        }
    } else {
        read(&mut fs, &mut pool, &store, new_file, 0, 128).unwrap()
    };
    assert_eq!(&buf[..], &new_contents[..128]);

    match read(&mut fs, &mut pool, &store, old_file, 0, 128) {
        Ok(buf) => assert_eq!(&buf[..], &old_contents[..128]),
        Err(e) => assert_eq!(e, FsError::ReadFailed),
    }

    let offset = OBJECT_SIZE / 2;
    match read(&mut fs, &mut pool, &store, old_file, offset, 128) {
        Ok(buf) => assert_eq!(&buf[..], &old_contents[offset..offset + 128]),
        Err(e) => assert_eq!(e, FsError::ReadFailed),
    }
    let buf = read(&mut fs, &mut pool, &store, new_file, offset, 128).unwrap();
    assert_eq!(&buf[..], &new_contents[offset..offset + 128]);
}

#[test]
fn page_cache_sharing_test_s3() {
    page_cache_sharing_test(no_caching());
}

#[test]
fn page_cache_sharing_test_with_lookup_cache() {
    page_cache_sharing_test(caching(600_000));
}

#[test]
fn avoid_stuck_cached_file_on_change_test_s3() {
    let mut fs = Filesystem::new(caching(600_000));
    let mut pool = BufferPool::new(128);
    let mut store = Store::new();
    let old_contents = vec![0xaau8; OBJECT_SIZE];
    store.put(FILE, old_contents.clone());

    let old_file = open(&mut fs, &mut store, FILE, 0).unwrap();
    let buf = read(&mut fs, &mut pool, &store, old_file, 0, 128).unwrap();
    assert_eq!(&buf[..], &old_contents[..128]);

    let new_contents = vec![0xbbu8; OBJECT_SIZE];
    store.put(FILE, new_contents.clone());

    let new_file = open(&mut fs, &mut store, FILE, 10).unwrap();
    let err = read(&mut fs, &mut pool, &store, new_file, 0, 128)
        .expect_err("should fail as the cached identity is stale");
    assert_eq!(err, FsError::ReadFailed);
    assert_eq!(fs.cache().state(FILE, 10), EntryState::Absent);

    let new_file = open(&mut fs, &mut store, FILE, 20).unwrap();
    let buf = read(&mut fs, &mut pool, &store, new_file, 0, 128)
        .expect("should be OK as open resulted in a fresh lookup");
    assert_eq!(&buf[..], &new_contents[..128]);
    assert_eq!(store.lookups, 2);
}

#[test]
fn avoid_stuck_cached_file_on_delete_test_s3() {
    let mut fs = Filesystem::new(caching(600_000));
    let mut pool = BufferPool::new(128);
    let mut store = Store::new();
    let old_contents = vec![0xaau8; OBJECT_SIZE];
    store.put(FILE, old_contents.clone());

    let old_file = open(&mut fs, &mut store, FILE, 0).unwrap();
    let buf = read(&mut fs, &mut pool, &store, old_file, 0, 128).unwrap();
    assert_eq!(&buf[..], &old_contents[..128]);

    store.remove(FILE);

    let new_file = open(&mut fs, &mut store, FILE, 10).unwrap();
    let err = read(&mut fs, &mut pool, &store, new_file, 0, 128)
        .expect_err("should fail as the object cannot be read");
    assert_eq!(err, FsError::ReadFailed);

    let err = open(&mut fs, &mut store, FILE, 20)
        .and_then(|h| read(&mut fs, &mut pool, &store, h, 0, 128).map(|_| h))
        .expect_err("should fail again as the fresh lookup finds nothing");
    assert_eq!(err, FsError::NotFound);
}

#[test]
fn repeated_lookups_within_ttl_ask_once() {
    let mut fs = Filesystem::new(caching(600_000));
    let mut store = Store::new();
    store.put(FILE, vec![1u8; 16]);
    for i in 0..50u64 {
        let h = open(&mut fs, &mut store, FILE, i * 10_000).unwrap();
        assert!(fs.close(h));
    }
    assert_eq!(store.lookups, 1);
}

#[test]
fn lookups_after_ttl_ask_again() {
    let mut fs = Filesystem::new(caching(600_000));
    let mut store = Store::new();
    store.put(FILE, vec![1u8; 16]);
    open(&mut fs, &mut store, FILE, 1_000).unwrap();
    open(&mut fs, &mut store, FILE, 601_000).unwrap();
    assert_eq!(store.lookups, 1);
    open(&mut fs, &mut store, FILE, 601_001).unwrap();
    assert_eq!(store.lookups, 2);
}

#[test]
fn lookups_without_caching_always_ask() {
    let mut fs = Filesystem::new(no_caching());
    let mut store = Store::new();
    store.put(FILE, vec![1u8; 16]);
    for i in 0..5u64 {
        open(&mut fs, &mut store, FILE, i).unwrap();
    }
    assert_eq!(store.lookups, 5);
    assert_eq!(fs.cache().state(FILE, 0), EntryState::Absent);
}

#[test]
fn entry_states_follow_the_ttl() {
    let mut cache = LookupCache::new(CacheConfig {
        serve_lookup_from_cache: true,
        dir_ttl_ms: 100,
        file_ttl_ms: 50,
    });
    let id = RemoteIdentity { version: 7, size: 10, mtime: 3 };
    assert_eq!(cache.state(5, 0), EntryState::Absent);
    cache.record_lookup(5, EntryKind::File, id, 1000);
    assert_eq!(cache.state(5, 1050), EntryState::CachedValid(id));
    assert_eq!(cache.lookup(5, 1050), Some(id));
    assert_eq!(cache.state(5, 1051), EntryState::CachedExpired(id));
    assert_eq!(cache.lookup(5, 1051), None);
    cache.record_lookup(6, EntryKind::Directory, id, 1000);
    assert_eq!(cache.state(6, 1100), EntryState::CachedValid(id));
    assert_eq!(cache.state(6, 1101), EntryState::CachedExpired(id));
    cache.record_lookup(5, EntryKind::File, id, 2000);
    assert_eq!(cache.lookup(5, 2040), Some(id));
}

#[test]
fn entry_validity_at_the_edge() {
    let entry = CacheEntry {
        identity: RemoteIdentity { version: 1, size: 0, mtime: 0 },
        kind: EntryKind::File,
        cached_at: u64::MAX - 5,
        ttl: 600_000,
    };
    assert!(entry.is_valid_at(u64::MAX));
    assert!(entry.is_valid_at(0));
    let short = CacheEntry { cached_at: 10, ttl: 0, ..entry };
    assert!(short.is_valid_at(10));
    assert!(!short.is_valid_at(11));
    assert_eq!(caching(5).ttl(EntryKind::Directory), 5);
}

#[test]
fn fetch_outcomes_evict_only_on_staleness() {
    let mut cache = LookupCache::new(caching(600_000));
    let id = RemoteIdentity { version: 1, size: 1, mtime: 1 };
    cache.record_lookup(3, EntryKind::File, id, 0);
    assert!(!cache.record_fetch(3, FetchOutcome::Complete));
    assert!(!cache.record_fetch(3, FetchOutcome::RemoteTransportError));
    assert_eq!(cache.lookup(3, 1), Some(id));
    assert!(cache.record_fetch(3, FetchOutcome::RemoteMismatch));
    assert_eq!(cache.state(3, 1), EntryState::Absent);
    cache.record_lookup(3, EntryKind::File, id, 0);
    assert!(cache.record_fetch(3, FetchOutcome::RemoteNotFound));
    assert!(!cache.record_fetch(3, FetchOutcome::RemoteNotFound));
    assert!(!cache.evict(3));
}

#[test]
fn transport_errors_leave_everything_alone() {
    let mut fs = Filesystem::new(caching(600_000));
    let mut pool = BufferPool::new(8);
    let id = RemoteIdentity { version: 1, size: 1, mtime: 1 };
    assert_eq!(fs.complete_lookup(FILE, LookupResult::TransportError, 0), Err(FsError::Transport));
    assert_eq!(fs.complete_lookup(FILE, LookupResult::Found(EntryKind::File, id), 0), Ok(id));
    let h = fs.open(FILE, id);
    let lease = pool.get_buffer();
    let r = fs.complete_read(&mut pool, h, 0, lease, FetchOutcome::RemoteTransportError);
    assert_eq!(r, Err(FsError::Transport));
    assert_eq!(pool.idle_count(), 1);
    assert_eq!(fs.resolve(FILE, 1), Some(id));
}

#[test]
fn handles_keep_their_identity_and_cursor() {
    let mut fs = Filesystem::new(caching(600_000));
    let mut pool = BufferPool::new(8);
    let id = RemoteIdentity { version: 1, size: 1, mtime: 1 };
    let fresh = RemoteIdentity { version: 2, size: 1, mtime: 2 };
    fs.complete_lookup(FILE, LookupResult::Found(EntryKind::File, id), 0).unwrap();
    let h = fs.open(FILE, id);
    assert_eq!(h, 0);
    let mut lease = pool.get_buffer();
    lease.extend_from_slice(&[9, 9, 9]);
    let got = fs.complete_read(&mut pool, h, 40, lease, FetchOutcome::Complete).unwrap();
    assert_eq!(&got[..], &[9, 9, 9]);
    assert_eq!(fs.handle_state(h).unwrap().cursor, 43);
    let lease = pool.get_buffer();
    assert_eq!(
        fs.complete_read(&mut pool, h, 0, lease, FetchOutcome::RemoteMismatch),
        Err(FsError::ReadFailed)
    );
    fs.complete_lookup(FILE, LookupResult::Found(EntryKind::File, fresh), 1).unwrap();
    let state = fs.handle_state(h).unwrap();
    assert_eq!(state.identity, id);
    assert_eq!(state.cursor, 43);
    assert_eq!(fs.read_target(h), Ok(id));
    let h2 = fs.open(FILE, fresh);
    assert_eq!(h2, 1);
    assert_eq!(fs.read_target(h2), Ok(fresh));
    assert!(fs.close(h));
    assert!(!fs.close(h));
    assert_eq!(fs.read_target(h), Err(FsError::UnknownHandle));
    let lease = pool.get_buffer();
    assert_eq!(
        fs.complete_read(&mut pool, h, 0, lease, FetchOutcome::Complete),
        Err(FsError::UnknownHandle)
    );
}

#[test]
fn not_found_lookup_removes_entry() {
    let mut fs = Filesystem::new(caching(600_000));
    let id = RemoteIdentity { version: 1, size: 1, mtime: 1 };
    fs.complete_lookup(FILE, LookupResult::Found(EntryKind::File, id), 0).unwrap();
    assert_eq!(fs.complete_lookup(FILE, LookupResult::NotFound, 5), Err(FsError::NotFound));
    assert_eq!(fs.resolve(FILE, 6), None);
}

#[test]
fn cursor_saturates_at_the_largest_offset() {
    let mut fs = Filesystem::new(no_caching());
    let mut pool = BufferPool::new(8);
    let id = RemoteIdentity { version: 1, size: 1, mtime: 1 };
    let h = fs.open(FILE, id);
    let mut lease = pool.get_buffer();
    lease.extend_from_slice(&[1, 2]);
    fs.complete_read(&mut pool, h, u64::MAX - 1, lease, FetchOutcome::Complete).unwrap();
    assert_eq!(fs.handle_state(h).unwrap().cursor, u64::MAX);
}
