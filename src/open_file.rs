//! Open handles, each bound at open time to the identity it reads.
//!
//! The remote store is not called from here. Opening and reading are split
//! into steps: the library says what to ask the store, the caller asks, and
//! hands the answer back to the next step.
use crate::buffer_pool::{one_less, BufferPool, LeasedBytesMut};
use crate::buffers::{bytes_contents, bytes_mut_cleared};
use crate::cache::{
    hit_in, recorded_in, CacheConfig, CacheEntry, EntryKind, FetchOutcome, LookupCache, RemoteIdentity,
};
use bytes::Bytes;
use std::collections::HashMap;
use vstd::prelude::*;

verus! {

broadcast use vstd::std_specs::hash::group_hash_axioms;

/// What a remote lookup of a path reported.
#[derive(Clone, Copy, Debug, PartialEq, Eq, Structural)]
pub enum LookupResult {
    Found(EntryKind, RemoteIdentity),
    NotFound,
    TransportError,
}

/// Why an open or a read failed.
#[derive(Clone, Copy, Debug, PartialEq, Eq, Structural)]
pub enum FsError {
    /// A fresh lookup confirmed that there is no such entry.
    NotFound,
    /// A read against the handle's identity found the object gone or changed.
    ReadFailed,
    /// The remote store could not be reached.
    Transport,
    /// No open handle has this number.
    UnknownHandle,
}

/// What a handle knows: its number, its inode, the identity bound at open time
/// and where the last read ended.
#[derive(Clone, Copy, Debug, PartialEq, Eq, Structural)]
pub struct OpenFileState {
    pub handle: u64,
    pub inode: u64,
    pub identity: RemoteIdentity,
    pub cursor: u64,
}

/// Where a read of `n` bytes from `offset` ends, held at the largest offset.
pub open spec fn cursor_after(offset: u64, n: nat) -> u64 {
    if offset + n <= u64::MAX {
        (offset + n) as u64
    } else {
        u64::MAX
    }
}

/// The lookup cache together with the open handles.
pub struct Filesystem {
    cache: LookupCache,
    handles: HashMap<u64, OpenFileState>,
    next_handle: u64,
}

impl Filesystem {
    pub closed spec fn spec_cache(&self) -> LookupCache {
        self.cache
    }

    /// The open handles, by number.
    pub closed spec fn spec_handles(&self) -> Map<u64, OpenFileState> {
        self.handles@
    }

    /// The number the next open handle gets.
    pub closed spec fn spec_next_handle(&self) -> u64 {
        self.next_handle
    }

    /// Every handle is filed under its own number, below the next number.
    pub closed spec fn wf(&self) -> bool {
        &&& self.cache.wf()
        &&& forall|h: u64| #[trigger]
            self.handles@.contains_key(h) ==> h < self.next_handle && self.handles@[h].handle
                == h
    }

    /// No handles, and an empty cache.
    pub fn new(config: CacheConfig) -> (r: Self)
        ensures
            r.wf(),
            r.spec_cache().spec_config() == config,
            r.spec_cache()@ == Map::<u64, CacheEntry>::empty(),
            r.spec_handles() == Map::<u64, OpenFileState>::empty(),
            r.spec_next_handle() == 0,
    {
        Filesystem { cache: LookupCache::new(config), handles: HashMap::new(), next_handle: 0 }
    }

    /// The lookup cache.
    pub fn cache(&self) -> (r: &LookupCache)
        ensures
            *r == self.spec_cache(),
    {
        &self.cache
    }

    /// Whether another handle can be numbered.
    pub fn can_open(&self) -> (r: bool)
        ensures
            r == (self.spec_next_handle() < u64::MAX),
    {
        self.next_handle < u64::MAX
    }

    /// The first step of an open: the identity to bind if the cache may serve
    /// it at `now`, or `None` when the remote store must be asked.
    pub fn resolve(&self, inode: u64, now: u64) -> (r: Option<RemoteIdentity>)
        ensures
            r == hit_in(self.spec_cache().spec_config(), self.spec_cache()@, inode, now),
    {
        self.cache.lookup(inode, now)
    }

    /// Takes in the answer of a remote lookup of `inode` made at `now`. A found
    /// object is cached and its identity returned; a confirmed absence removes
    /// any entry and is reported as `NotFound`; a transport failure changes
    /// nothing.
    pub fn complete_lookup(&mut self, inode: u64, result: LookupResult, now: u64) -> (r: Result<
        RemoteIdentity,
        FsError,
    >)
        requires
            old(self).wf(),
        ensures
            final(self).wf(),
            final(self).spec_handles() == old(self).spec_handles(),
            final(self).spec_next_handle() == old(self).spec_next_handle(),
            final(self).spec_cache().spec_config() == old(self).spec_cache().spec_config(),
            match result {
                LookupResult::Found(kind, identity) => r == Ok::<RemoteIdentity, FsError>(
                    identity,
                ) && final(self).spec_cache()@ == recorded_in(
                    old(self).spec_cache().spec_config(),
                    old(self).spec_cache()@,
                    inode,
                    kind,
                    identity,
                    now,
                ),
                LookupResult::NotFound => r == Err::<RemoteIdentity, FsError>(FsError::NotFound)
                    && final(self).spec_cache()@ == old(self).spec_cache()@.remove(inode),
                LookupResult::TransportError => r == Err::<RemoteIdentity, FsError>(
                    FsError::Transport,
                ) && final(self).spec_cache()@ == old(self).spec_cache()@,
            },
    {
        match result {
            LookupResult::Found(kind, identity) => {
                self.cache.record_lookup(inode, kind, identity, now);
                Ok(identity)
            },
            LookupResult::NotFound => {
                self.cache.evict(inode);
                Err(FsError::NotFound)
            },
            LookupResult::TransportError => Err(FsError::Transport),
        }
    }

    /// The last step of an open: a new handle on `inode`, bound to `identity`
    /// for its whole life.
    pub fn open(&mut self, inode: u64, identity: RemoteIdentity) -> (r: u64)
        requires
            old(self).wf(),
            old(self).spec_next_handle() < u64::MAX,
        ensures
            final(self).wf(),
            r == old(self).spec_next_handle(),
            !old(self).spec_handles().contains_key(r),
            final(self).spec_next_handle() == r + 1,
            final(self).spec_cache() == old(self).spec_cache(),
            final(self).spec_handles() == old(self).spec_handles().insert(
                r,
                OpenFileState { handle: r, inode, identity, cursor: 0 },
            ),
    {
        let handle = self.next_handle;
        self.handles.insert(handle, OpenFileState { handle, inode, identity, cursor: 0 });
        self.next_handle = handle + 1;
        assert forall|h: u64| #[trigger] self.handles@.contains_key(h) implies h < self.next_handle
            && self.handles@[h].handle == h by {
            if h != handle {
                assert(old(self).handles@.contains_key(h));
            }
        }
        handle
    }

    /// The state of an open handle.
    pub fn handle_state(&self, handle: u64) -> (r: Option<OpenFileState>)
        ensures
            r == (if self.spec_handles().contains_key(handle) {
                Some(self.spec_handles()[handle])
            } else {
                None
            }),
    {
        match self.handles.get(&handle) {
            Some(state) => Some(*state),
            None => None,
        }
    }

    /// The first step of a read: the identity that the store must be asked
    /// for, which is the one bound when the handle was opened.
    pub fn read_target(&self, handle: u64) -> (r: Result<RemoteIdentity, FsError>)
        ensures
            r == (if self.spec_handles().contains_key(handle) {
                Ok::<RemoteIdentity, FsError>(self.spec_handles()[handle].identity)
            } else {
                Err::<RemoteIdentity, FsError>(FsError::UnknownHandle)
            }),
    {
        match self.handles.get(&handle) {
            Some(state) => Ok(state.identity),
            None => Err(FsError::UnknownHandle),
        }
    }

    /// The last step of a read: takes the lease that the store's answer was read
    /// into, and what the store reported for the handle's identity.
    ///
    /// - Complete: the lease becomes shared bytes, returned as they are, and the
    ///   handle's cursor moves to the end of the read.
    /// - Not found or mismatch: the read fails, and the cache entry of the
    ///   handle's inode is evicted so that the next open looks the object up
    ///   afresh.
    /// - Transport error, or an unknown handle: the read fails, nothing else
    ///   changes.
    ///
    /// The lease goes back to the pool whenever the read fails. No handle's
    /// bound identity ever changes.
    pub fn complete_read(
        &mut self,
        pool: &mut BufferPool,
        handle: u64,
        offset: u64,
        lease: LeasedBytesMut,
        outcome: FetchOutcome,
    ) -> (r: Result<Bytes, FsError>)
        requires
            old(self).wf(),
            old(pool).wf(),
        ensures
            final(self).wf(),
            final(pool).wf(),
            final(self).spec_next_handle() == old(self).spec_next_handle(),
            final(self).spec_cache().spec_config() == old(self).spec_cache().spec_config(),
            !old(self).spec_handles().contains_key(handle) ==> r == Err::<Bytes, FsError>(
                FsError::UnknownHandle,
            ) && final(self).spec_handles() == old(self).spec_handles()
                && final(self).spec_cache()@ == old(self).spec_cache()@,
            old(self).spec_handles().contains_key(handle) ==> {
                let state = old(self).spec_handles()[handle];
                match outcome {
                    FetchOutcome::Complete => {
                        &&& r is Ok
                        &&& bytes_contents(r->Ok_0) == lease@
                        &&& final(self).spec_handles() == old(self).spec_handles().insert(
                            handle,
                            OpenFileState { cursor: cursor_after(offset, lease@.len()), ..state },
                        )
                        &&& final(self).spec_cache()@ == old(self).spec_cache()@
                    },
                    FetchOutcome::RemoteNotFound | FetchOutcome::RemoteMismatch => {
                        &&& r == Err::<Bytes, FsError>(FsError::ReadFailed)
                        &&& final(self).spec_handles() == old(self).spec_handles()
                        &&& final(self).spec_cache()@ == old(self).spec_cache()@.remove(
                            state.inode,
                        )
                    },
                    FetchOutcome::RemoteTransportError => {
                        &&& r == Err::<Bytes, FsError>(FsError::Transport)
                        &&& final(self).spec_handles() == old(self).spec_handles()
                        &&& final(self).spec_cache()@ == old(self).spec_cache()@
                    },
                }
            },
            r is Ok ==> *final(pool) == *old(pool),
            r is Err ==> {
                &&& final(pool).spec_idle_buffers() == old(pool).spec_idle_buffers().push(
                    bytes_mut_cleared(lease.spec_buffer()),
                )
                &&& final(pool).outstanding() == one_less(old(pool).outstanding())
                &&& final(pool).allocations() == old(pool).allocations()
                &&& final(pool).peak_outstanding() == old(pool).peak_outstanding()
            },
    {
        let state = match self.handles.get(&handle) {
            Some(state) => *state,
            None => {
                pool.release(lease);
                return Err(FsError::UnknownHandle);
            },
        };
        match outcome {
            FetchOutcome::Complete => {
                let n = lease.len() as u64;
                let cursor = if offset <= u64::MAX - n {
                    offset + n
                } else {
                    u64::MAX
                };
                self.handles.insert(handle, OpenFileState { cursor, ..state });
                Ok(lease.into_bytes())
            },
            FetchOutcome::RemoteNotFound | FetchOutcome::RemoteMismatch => {
                self.cache.record_fetch(state.inode, outcome);
                pool.release(lease);
                Err(FsError::ReadFailed)
            },
            FetchOutcome::RemoteTransportError => {
                pool.release(lease);
                Err(FsError::Transport)
            },
        }
    }

    /// Closes a handle; returns whether it was open. The cache is untouched.
    pub fn close(&mut self, handle: u64) -> (r: bool)
        requires
            old(self).wf(),
        ensures
            final(self).wf(),
            r == old(self).spec_handles().contains_key(handle),
            final(self).spec_handles() == old(self).spec_handles().remove(handle),
            final(self).spec_cache() == old(self).spec_cache(),
            final(self).spec_next_handle() == old(self).spec_next_handle(),
    {
        self.handles.remove(&handle).is_some()
    }
}

} // verus!
