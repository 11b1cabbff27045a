//! Advertisements and their cancellation.
//!
//! An advertisement carries an optional local name and exactly one
//! payload mode — a set of service UUIDs or a service-data map — plus the
//! discoverable flag.  A started broadcast is paired with a one-shot
//! cancellation handle: stopping is idempotent, and whether the stop
//! arrives as an explicit signal or as the handle being discarded, the
//! underlying broadcast teardown happens exactly once.

use vstd::prelude::*;

use crate::address::Uuid;
use crate::matcher::ServiceDataEntry;

verus! {

/// No UUID occurs twice.
pub open spec fn distinct_uuids(s: Seq<Uuid>) -> bool {
    forall|i: int, j: int| 0 <= i < j < s.len() ==> s[i] != s[j]
}

/// No service-data key occurs twice.
pub open spec fn distinct_entry_keys(s: Seq<ServiceDataEntry>) -> bool {
    forall|i: int, j: int| 0 <= i < j < s.len() ==> s[i].uuid != s[j].uuid
}

/// Exactly one payload mode: service UUIDs, or service data.
#[derive(Clone, Debug)]
pub enum AdvertisementPayload {
    ServiceUuids { uuids: Vec<Uuid> },
    ServiceData { entries: Vec<ServiceDataEntry> },
}

/// What the server is asked to broadcast.
#[derive(Clone, Debug)]
pub struct AdvertisementSpec {
    pub local_name: Option<String>,
    pub payload: AdvertisementPayload,
    pub discoverable: bool,
}

impl AdvertisementSpec {
    /// The payload models a set, respectively a map: no duplicate UUID.
    pub open spec fn wf(&self) -> bool {
        match self.payload {
            AdvertisementPayload::ServiceUuids { uuids } => distinct_uuids(uuids@),
            AdvertisementPayload::ServiceData { entries } => distinct_entry_keys(entries@),
        }
    }

    /// A UUID-mode advertisement, discoverable.
    pub fn service_uuids(local_name: Option<String>, uuids: Vec<Uuid>) -> (r: AdvertisementSpec)
        requires
            distinct_uuids(uuids@),
        ensures
            r.wf(),
            r.local_name == local_name,
            r.payload == (AdvertisementPayload::ServiceUuids { uuids }),
            r.discoverable,
    {
        AdvertisementSpec {
            local_name,
            payload: AdvertisementPayload::ServiceUuids { uuids },
            discoverable: true,
        }
    }

    /// A service-data-mode advertisement, discoverable.
    pub fn service_data(local_name: Option<String>, entries: Vec<ServiceDataEntry>) -> (r:
        AdvertisementSpec)
        requires
            distinct_entry_keys(entries@),
        ensures
            r.wf(),
            r.local_name == local_name,
            r.payload == (AdvertisementPayload::ServiceData { entries }),
            r.discoverable,
    {
        AdvertisementSpec {
            local_name,
            payload: AdvertisementPayload::ServiceData { entries },
            discoverable: true,
        }
    }
}

/// The cancellation side of a started broadcast.
///
/// `stopped` records whether the one-shot cancellation has been consumed;
/// `stops_delivered` counts how often the underlying broadcast teardown
/// ran.  The shell that owns the live broadcast performs the teardown
/// when — and only when — a call here reports that it delivered the stop.
#[derive(Clone, Copy, Debug, PartialEq, Eq, Structural)]
pub struct AdvertisementHandle {
    pub stopped: bool,
    pub stops_delivered: u32,
}

impl AdvertisementHandle {
    /// The teardown ran exactly once if and only if the handle was
    /// stopped.
    pub open spec fn wf(&self) -> bool {
        self.stops_delivered == if self.stopped {
            1u32
        } else {
            0u32
        }
    }

    /// How one stop request — explicit signal or drop — acts: the first
    /// delivers the teardown, every later one is a no-op.
    pub open spec fn stop_transition(pre: Self, post: Self, delivered: bool) -> bool {
        &&& post.stopped
        &&& delivered == !pre.stopped
        &&& post.stops_delivered == if pre.stopped {
            pre.stops_delivered as int
        } else {
            pre.stops_delivered + 1
        }
    }

    /// A fresh handle for a broadcast that was just started: not stopped,
    /// no teardown yet.
    pub fn start() -> (r: AdvertisementHandle)
        ensures
            r.wf(),
            !r.stopped,
            r.stops_delivered == 0,
    {
        AdvertisementHandle { stopped: false, stops_delivered: 0 }
    }

    /// An explicit stop signal.  Returns whether this call delivered the
    /// teardown; afterwards the teardown has run exactly once.
    pub fn stop(&mut self) -> (delivered: bool)
        requires
            old(self).wf(),
        ensures
            final(self).wf(),
            Self::stop_transition(*old(self), *final(self), delivered),
            final(self).stops_delivered == 1,
    {
        let delivered = !self.stopped;
        if delivered {
            self.stops_delivered = self.stops_delivered + 1;
        }
        self.stopped = true;
        delivered
    }

    /// The handle being discarded.  The closed channel is observable just
    /// like an explicit signal, so this is the same transition as `stop`.
    pub fn finish(&mut self) -> (delivered: bool)
        requires
            old(self).wf(),
        ensures
            final(self).wf(),
            Self::stop_transition(*old(self), *final(self), delivered),
            final(self).stops_delivered == 1,
    {
        self.stop()
    }
}

/// Stopping twice — an explicit stop followed by the drop, or any other
/// pair — delivers the underlying broadcast teardown exactly once, by the
/// first stop.
pub proof fn lemma_stop_twice_delivers_once(
    h0: AdvertisementHandle,
    h1: AdvertisementHandle,
    h2: AdvertisementHandle,
    d1: bool,
    d2: bool,
)
    requires
        h0.wf(),
        !h0.stopped,
        AdvertisementHandle::stop_transition(h0, h1, d1),
        AdvertisementHandle::stop_transition(h1, h2, d2),
    ensures
        d1,
        !d2,
        h2.stops_delivered == 1,
{
}

} // verus!
