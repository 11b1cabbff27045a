//! Per-connection state of the RPC test service.
//!
//! One session is created for each accepted connection, after the server
//! has leased one adapter per role; a remote client then drives it: it
//! queries the two addresses and the client adapter's name, asks for
//! advertisements, and may request the server's shutdown.  The radio and
//! transport side effects live in the unverified shell; this module holds
//! the session's state and what each operation returns.

use vstd::prelude::*;

use crate::address::{octets_value, Uuid};
use crate::adv::{
    distinct_entry_keys, distinct_uuids, AdvertisementHandle, AdvertisementPayload,
    AdvertisementSpec,
};
use crate::matcher::ServiceDataEntry;
use crate::pool::AdapterInfo;

verus! {

/// One test session: the two leased adapters, the verbosity of the run,
/// and whether the client asked the server to shut down.
#[derive(Debug)]
pub struct TestSession {
    pub server: AdapterInfo,
    pub client: AdapterInfo,
    pub verbose: bool,
    pub kill_requested: bool,
}

impl TestSession {
    /// A fresh session over two leased adapters; no shutdown requested.
    pub fn new(server: AdapterInfo, client: AdapterInfo, verbose: bool) -> (r: TestSession)
        ensures
            r.server == server,
            r.client == client,
            r.verbose == verbose,
            !r.kill_requested,
    {
        TestSession { server, client, verbose, kill_requested: false }
    }

    /// The server adapter's hardware address, in six-octet wire form.
    pub fn get_server_address(&self) -> (r: [u8; 6])
        requires
            self.server.address.wf(),
        ensures
            octets_value(r@) == self.server.address.bits,
    {
        self.server.address.octets()
    }

    /// The client adapter's hardware address, in six-octet wire form.
    pub fn get_client_address(&self) -> (r: [u8; 6])
        requires
            self.client.address.wf(),
        ensures
            octets_value(r@) == self.client.address.bits,
    {
        self.client.address.octets()
    }

    /// The client adapter's logical name.
    pub fn get_client_name(&self) -> (r: String)
        ensures
            r@ == self.client.name@,
    {
        self.client.name.clone()
    }

    /// Whether a shutdown has been requested on this session.
    pub fn get_kill_server_status(&self) -> (r: bool)
        ensures
            r == self.kill_requested,
    {
        self.kill_requested
    }

    /// Requests the server's shutdown: sets the flag the orchestration
    /// loop reads after this connection finishes, and acknowledges.
    pub fn kill_server(&mut self) -> (r: bool)
        ensures
            final(self).kill_requested,
            final(self).server == old(self).server,
            final(self).client == old(self).client,
            final(self).verbose == old(self).verbose,
            r,
    {
        self.kill_requested = true;
        true
    }

    /// Prepares a UUID-mode advertisement on the server adapter: the
    /// broadcast to start — discoverable, with the given name and UUID
    /// set — and a fresh cancellation handle to hand back to the caller.
    pub fn advertise_service_uuids(&self, local_name: Option<String>, uuids: Vec<Uuid>) -> (r: (
        AdvertisementSpec,
        AdvertisementHandle,
    ))
        requires
            distinct_uuids(uuids@),
        ensures
            r.0.wf(),
            r.0.local_name == local_name,
            r.0.payload == (AdvertisementPayload::ServiceUuids { uuids }),
            r.0.discoverable,
            r.1.wf(),
            !r.1.stopped,
            r.1.stops_delivered == 0,
    {
        (AdvertisementSpec::service_uuids(local_name, uuids), AdvertisementHandle::start())
    }

    /// Prepares a service-data-mode advertisement; same contract as the
    /// UUID mode, with the service-data payload.
    pub fn advertise_service_data(&self, local_name: Option<String>, entries: Vec<
        ServiceDataEntry,
    >) -> (r: (AdvertisementSpec, AdvertisementHandle))
        requires
            distinct_entry_keys(entries@),
        ensures
            r.0.wf(),
            r.0.local_name == local_name,
            r.0.payload == (AdvertisementPayload::ServiceData { entries }),
            r.0.discoverable,
            r.1.wf(),
            !r.1.stopped,
            r.1.stops_delivered == 0,
    {
        (AdvertisementSpec::service_data(local_name, entries), AdvertisementHandle::start())
    }
}

} // verus!
