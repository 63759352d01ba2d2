//! Process-lifetime client state: the driver handle and the kernel info
//! snapshot, both compute-once caches.
//!
//! Discovery itself (scanning the process's open descriptors, asking the
//! host to install the driver) is outside work; this module decides what to
//! do next and absorbs each outcome, so that resolution is idempotent: one
//! discovery at most, and every later query returns the cached value.
use vstd::prelude::*;
use crate::calls::{KsuRequest, get_info_request};
use crate::cmds::GetInfoCmd;

verus! {

/// Resolution state of the process-lifetime driver handle.
#[derive(Clone, Copy, Debug, PartialEq, Eq, Structural)]
pub enum HandleState {
    /// No resolution has been attempted yet.
    Unresolved,
    /// Resolution finished: the descriptor, or the invalid sentinel -1 when
    /// discovery and installation both failed. Calls made on the sentinel
    /// fail with the system's error instead of panicking.
    Resolved(i32),
}

/// What a caller asking for the handle must do next.
#[derive(Clone, Copy, Debug, PartialEq, Eq, Structural)]
pub enum ResolveStep {
    /// The handle is cached; use this value.
    UseHandle(i32),
    /// Not resolved yet: enumerate the open descriptors and report the
    /// first whose target carries the driver tag.
    ScanFds,
}

/// What follows the descriptor scan.
#[derive(Clone, Copy, Debug, PartialEq, Eq, Structural)]
pub enum AfterScan {
    /// A descriptor was found and cached.
    Done(i32),
    /// Nothing found: ask the host to install the driver and report the
    /// returned descriptor through [`KsuClient::handle_installed`].
    Install,
}

/// What a version query yields.
#[derive(Debug)]
pub enum VersionStep {
    /// The cached snapshot answers the query.
    Version(i32),
    /// Nothing cached yet: submit this get-info request and absorb the
    /// resulting payload, whether or not the call succeeded.
    Fetch(KsuRequest),
}

/// The version field reinterpreted as the signed word callers receive.
pub open spec fn spec_version_of(v: u32) -> i32 {
    if v <= 0x7fff_ffff {
        v as i32
    } else {
        (v - 0x1_0000_0000) as i32
    }
}

fn version_to_i32(v: u32) -> (r: i32)
    ensures
        r == spec_version_of(v),
{
    if v <= 0x7fff_ffff {
        v as i32
    } else {
        (((v as i64) - 0x1_0000_0000i64)) as i32
    }
}

/// Client state for one process: the handle and the info snapshot, each
/// computed once and cached for the process's remaining lifetime.
pub struct KsuClient {
    pub handle: HandleState,
    pub info: Option<GetInfoCmd>,
}

impl KsuClient {
    /// A fresh client: nothing resolved, nothing cached.
    pub fn new() -> (r: KsuClient)
        ensures
            r.handle == HandleState::Unresolved,
            r.info is None,
    {
        KsuClient { handle: HandleState::Unresolved, info: None }
    }

    /// What resolution does in a given state: return the cached handle, or
    /// start discovery.
    pub open spec fn spec_resolve_step(self) -> ResolveStep {
        match self.handle {
            HandleState::Resolved(h) => ResolveStep::UseHandle(h),
            HandleState::Unresolved => ResolveStep::ScanFds,
        }
    }

    /// Resolves the handle: the cached value if resolution already
    /// happened, otherwise the instruction to scan the open descriptors.
    pub fn resolve_step(&self) -> (r: ResolveStep)
        ensures
            r == self.spec_resolve_step(),
    {
        match self.handle {
            HandleState::Resolved(h) => ResolveStep::UseHandle(h),
            HandleState::Unresolved => ResolveStep::ScanFds,
        }
    }

    /// Absorbs the descriptor scan's outcome: a found descriptor is cached;
    /// otherwise installation is requested and the state is unchanged.
    pub fn handle_scanned(&mut self, found: Option<i32>) -> (r: AfterScan)
        requires
            old(self).handle == HandleState::Unresolved,
        ensures
            final(self).info == old(self).info,
            match found {
                Some(fd) => final(self).handle == HandleState::Resolved(fd) && r
                    == AfterScan::Done(fd),
                None => final(self).handle == HandleState::Unresolved && r == AfterScan::Install,
            },
    {
        match found {
            Some(fd) => {
                self.handle = HandleState::Resolved(fd);
                AfterScan::Done(fd)
            },
            None => AfterScan::Install,
        }
    }

    /// Absorbs the installation outcome: a non-negative descriptor is
    /// cached; a negative one caches the invalid sentinel -1, so that later
    /// operations fail with the system's error rather than panicking.
    pub fn handle_installed(&mut self, fd: i32)
        requires
            old(self).handle == HandleState::Unresolved,
        ensures
            final(self).info == old(self).info,
            final(self).handle == HandleState::Resolved(
                if fd >= 0 {
                    fd
                } else {
                    -1i32
                },
            ),
    {
        if fd >= 0 {
            self.handle = HandleState::Resolved(fd);
        } else {
            self.handle = HandleState::Resolved(-1);
        }
    }

    /// What a version query does in a given state.
    pub open spec fn spec_get_version(self) -> VersionStep {
        match self.info {
            Some(i) => VersionStep::Version(spec_version_of(i.version)),
            None => VersionStep::Fetch(KsuRequest::GetInfo(GetInfoCmd { version: 0, flags: 0 })),
        }
    }

    /// Queries the kernel version: answered from the cached snapshot, or a
    /// get-info request with a zeroed payload to submit once. The payload
    /// is absorbed whatever the call's outcome, so a failed query caches
    /// the zeroed default and behaves as "unknown version", not a crash.
    pub fn get_version(&self) -> (r: VersionStep)
        ensures
            r == self.spec_get_version(),
    {
        match self.info {
            Some(i) => VersionStep::Version(version_to_i32(i.version)),
            None => VersionStep::Fetch(get_info_request()),
        }
    }

    /// The state after an info payload is absorbed.
    pub open spec fn spec_absorb_info(self, fetched: GetInfoCmd) -> KsuClient {
        KsuClient { handle: self.handle, info: Some(fetched) }
    }

    /// Caches the info snapshot that came back from the get-info call —
    /// the payload as the kernel left it, or the zeroed default when the
    /// call failed.
    pub fn absorb_info(&mut self, fetched: GetInfoCmd)
        requires
            old(self).info is None,
        ensures
            *final(self) == old(self).spec_absorb_info(fetched),
    {
        self.info = Some(fetched);
    }
}

/// Once resolution has produced a handle — found, installed, or the invalid
/// sentinel — every later resolution returns that same value and requests
/// no further discovery or installation; racing first-time callers all
/// observe the one cached handle.
pub proof fn lemma_handle_resolution_idempotent(c: KsuClient, h: i32)
    requires
        c.handle == HandleState::Resolved(h),
    ensures
        c.spec_resolve_step() == ResolveStep::UseHandle(h),
{
}

/// After one info fetch is absorbed — even the zeroed default cached when
/// the fetch failed — every later version query answers from the cache and
/// issues no further privileged call.
pub proof fn lemma_version_cached_after_one_fetch(c: KsuClient, fetched: GetInfoCmd)
    ensures
        c.spec_absorb_info(fetched).spec_get_version() == VersionStep::Version(
            spec_version_of(fetched.version),
        ),
{
}

} // verus!
