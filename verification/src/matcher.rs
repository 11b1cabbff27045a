//! The discovery matcher: a state machine that correlates device
//! discovery events against an expected fingerprint.
//!
//! The client scans with its own adapter while the server advertises.
//! Each `DeviceAdded` event at the expected address is evaluated against
//! the fingerprint's matching mode; the first satisfying event ends the
//! run as `Matched`, and a fired timeout ends it as `TimedOut`.  Events
//! for other addresses, and `DeviceRemoved` events, are ignored.
//!
//! Absence of the server from the scan universe for the whole window is
//! indistinguishable from a fingerprint that never evaluates true: both
//! surface as `TimedOut`.

use vstd::prelude::*;

use crate::address::{Address, Uuid};
use crate::errors::TestError;

verus! {

/// The discovery window, in seconds.
pub const SCAN_TIMEOUT_SECS: u64 = 20;

/// One advertised service-data entry: a UUID key and its payload bytes.
#[derive(Clone, Debug)]
pub struct ServiceDataEntry {
    pub uuid: Uuid,
    pub data: Vec<u8>,
}

/// What a discovered device advertises, as read back from the scan.
#[derive(Clone, Debug)]
pub struct DeviceProps {
    pub name: Option<String>,
    pub uuids: Vec<Uuid>,
    pub service_data: Vec<ServiceDataEntry>,
}

/// How a discovered device must present itself to count as the expected
/// advertisement.
#[derive(Clone, Debug)]
pub enum MatchMode {
    /// The advertised service-UUID set must contain the UUID.
    UuidPresence { uuid: Uuid },
    /// The advertised local name must equal the name and the UUID
    /// condition must hold as well.
    NameAndUuid { name: String, uuid: Uuid },
    /// Some advertised service-data entry must carry exactly these bytes
    /// — under any UUID key, not necessarily the expected one — and the
    /// advertised local name must equal the name.
    ServiceData { name: String, uuid: Uuid, data: Vec<u8> },
}

/// The expected-value tuple a scan result must match: the advertiser's
/// hardware address plus one matching mode.
#[derive(Clone, Debug)]
pub struct Fingerprint {
    pub expected_address: Address,
    pub mode: MatchMode,
}

/// The terminal outcome of one matcher run.
#[derive(Clone, Copy, Debug, PartialEq, Eq, Structural)]
pub enum MatchResult {
    Matched,
    TimedOut,
}

/// One input to the matcher: a discovery event with the properties read
/// for the device, or the expiry of the discovery window.
#[derive(Clone, Debug)]
pub enum ScanEvent {
    DeviceAdded { address: Address, props: DeviceProps },
    DeviceRemoved { address: Address },
    TimeoutFired,
}

/// The advertised local name equals the expected name.
pub open spec fn name_matches(expected: Seq<char>, name: Option<String>) -> bool {
    match name {
        Some(n) => n@ == expected,
        None => false,
    }
}

/// The advertised service-UUID set contains the expected UUID.
pub open spec fn uuid_present(uuids: Seq<Uuid>, uuid: Uuid) -> bool {
    uuids.contains(uuid)
}

/// Some advertised entry carries exactly the expected bytes, whichever
/// UUID key it is stored under.
pub open spec fn some_entry_data_matches(entries: Seq<ServiceDataEntry>, data: Seq<u8>) -> bool {
    exists|i: int| 0 <= i < entries.len() && entries[i].data@ == data
}

/// Whether the read-back properties satisfy the matching mode.
pub open spec fn props_match(mode: MatchMode, props: DeviceProps) -> bool {
    match mode {
        MatchMode::UuidPresence { uuid } => uuid_present(props.uuids@, uuid),
        MatchMode::NameAndUuid { name, uuid } => name_matches(name@, props.name) && uuid_present(
            props.uuids@,
            uuid,
        ),
        MatchMode::ServiceData { name, uuid: _, data } => name_matches(name@, props.name)
            && some_entry_data_matches(props.service_data@, data@),
    }
}

/// Whether one event satisfies the fingerprint: a `DeviceAdded` at the
/// expected address whose properties match the mode.
pub open spec fn event_matches(fp: Fingerprint, evt: ScanEvent) -> bool {
    match evt {
        ScanEvent::DeviceAdded { address, props } => address == fp.expected_address && props_match(
            fp.mode,
            props,
        ),
        _ => false,
    }
}

/// The outcome of consuming events in order: the first satisfying event
/// wins as `Matched`, a timeout ends the run as `TimedOut`, and an
/// exhausted stream — which the harness prevents by always racing a
/// timeout — counts as `TimedOut` as well.
pub open spec fn spec_resolve(fp: Fingerprint, events: Seq<ScanEvent>) -> MatchResult
    decreases events.len(),
{
    if events.len() == 0 {
        MatchResult::TimedOut
    } else if event_matches(fp, events.first()) {
        MatchResult::Matched
    } else if events.first() is TimeoutFired {
        MatchResult::TimedOut
    } else {
        spec_resolve(fp, events.drop_first())
    }
}

fn bytes_eq(a: &Vec<u8>, b: &Vec<u8>) -> (r: bool)
    ensures
        r == (a@ == b@),
{
    if a.len() != b.len() {
        return false;
    }
    let n = a.len();
    let mut k: usize = 0;
    while k < n
        invariant
            n == a@.len(),
            n == b@.len(),
            k <= n,
            forall|m: int| 0 <= m < k ==> a@[m] == b@[m],
        decreases n - k,
    {
        if a[k] != b[k] {
            return false;
        }
        k += 1;
    }
    proof {
        assert(a@ =~= b@);
    }
    true
}

fn uuids_contain(uuids: &Vec<Uuid>, uuid: Uuid) -> (r: bool)
    ensures
        r == uuid_present(uuids@, uuid),
{
    let n = uuids.len();
    let mut k: usize = 0;
    while k < n
        invariant
            n == uuids@.len(),
            k <= n,
            forall|m: int| 0 <= m < k ==> uuids@[m] != uuid,
        decreases n - k,
    {
        if uuids[k] == uuid {
            return true;
        }
        k += 1;
    }
    false
}

fn some_entry_matches(entries: &Vec<ServiceDataEntry>, data: &Vec<u8>) -> (r: bool)
    ensures
        r == some_entry_data_matches(entries@, data@),
{
    let n = entries.len();
    let mut k: usize = 0;
    while k < n
        invariant
            n == entries@.len(),
            k <= n,
            forall|m: int| 0 <= m < k ==> entries@[m].data@ != data@,
        decreases n - k,
    {
        if bytes_eq(&entries[k].data, data) {
            return true;
        }
        k += 1;
    }
    false
}

fn name_matches_exec(expected: &String, name: &Option<String>) -> (r: bool)
    ensures
        r == name_matches(expected@, *name),
{
    match name {
        Some(n) => *n == *expected,
        None => false,
    }
}

/// Evaluates the matching mode against read-back device properties.
pub fn eval_props(mode: &MatchMode, props: &DeviceProps) -> (r: bool)
    ensures
        r == props_match(*mode, *props),
{
    match mode {
        MatchMode::UuidPresence { uuid } => uuids_contain(&props.uuids, *uuid),
        MatchMode::NameAndUuid { name, uuid } => {
            let nm = name_matches_exec(name, &props.name);
            nm && uuids_contain(&props.uuids, *uuid)
        },
        MatchMode::ServiceData { name, uuid: _, data } => {
            let nm = name_matches_exec(name, &props.name);
            nm && some_entry_matches(&props.service_data, data)
        },
    }
}

/// Evaluates one event against the fingerprint.
pub fn eval_event(fp: &Fingerprint, evt: &ScanEvent) -> (r: bool)
    ensures
        r == event_matches(*fp, *evt),
{
    match evt {
        ScanEvent::DeviceAdded { address, props } => {
            if address.bits == fp.expected_address.bits {
                eval_props(&fp.mode, props)
            } else {
                false
            }
        },
        _ => false,
    }
}

/// The matcher's state: still consuming events, or terminal.
#[derive(Clone, Copy, Debug, PartialEq, Eq, Structural)]
pub enum MatcherState {
    Scanning,
    Matched,
    TimedOut,
}

/// One transition of the matcher: a terminal state absorbs every event; a
/// scanning matcher resolves on a satisfying event or on the timeout and
/// ignores everything else.
pub open spec fn step(fp: Fingerprint, st: MatcherState, evt: ScanEvent) -> MatcherState {
    if st is Scanning {
        if event_matches(fp, evt) {
            MatcherState::Matched
        } else if evt is TimeoutFired {
            MatcherState::TimedOut
        } else {
            MatcherState::Scanning
        }
    } else {
        st
    }
}

/// The matcher: a fingerprint and the current state of the run.
#[derive(Clone, Debug)]
pub struct Matcher {
    pub fingerprint: Fingerprint,
    pub state: MatcherState,
}

impl Matcher {
    /// A fresh run: scanning, nothing seen yet.
    pub fn new(fingerprint: Fingerprint) -> (r: Matcher)
        ensures
            r.fingerprint == fingerprint,
            r.state is Scanning,
    {
        Matcher { fingerprint, state: MatcherState::Scanning }
    }

    /// Feeds one event; the new state follows `step` exactly.
    pub fn on_event(&mut self, evt: &ScanEvent) -> (r: MatcherState)
        ensures
            final(self).fingerprint == old(self).fingerprint,
            final(self).state == step(old(self).fingerprint, old(self).state, *evt),
            r == final(self).state,
    {
        match self.state {
            MatcherState::Scanning => {
                if eval_event(&self.fingerprint, evt) {
                    self.state = MatcherState::Matched;
                } else {
                    match evt {
                        ScanEvent::TimeoutFired => {
                            self.state = MatcherState::TimedOut;
                        },
                        _ => {},
                    }
                }
            },
            _ => {},
        }
        self.state
    }
}

/// Consumes a whole event sequence and returns the run's outcome; the
/// result is exactly `spec_resolve` on the sequence.
pub fn resolve(fp: &Fingerprint, events: &Vec<ScanEvent>) -> (r: MatchResult)
    ensures
        r == spec_resolve(*fp, events@),
{
    let n = events.len();
    let mut k: usize = 0;
    proof {
        assert(events@.skip(0) =~= events@);
    }
    while k < n
        invariant
            n == events@.len(),
            k <= n,
            spec_resolve(*fp, events@) == spec_resolve(*fp, events@.skip(k as int)),
        decreases n - k,
    {
        proof {
            assert(events@.skip(k as int).first() == events@[k as int]);
            assert(events@.skip(k as int).drop_first() =~= events@.skip(k as int + 1));
        }
        if eval_event(fp, &events[k]) {
            return MatchResult::Matched;
        }
        match &events[k] {
            ScanEvent::TimeoutFired => {
                return MatchResult::TimedOut;
            },
            _ => {},
        }
        k += 1;
    }
    proof {
        assert(events@.skip(n as int).len() == 0);
    }
    MatchResult::TimedOut
}

/// The state after feeding a whole event sequence to a matcher, one
/// `step` at a time — what a shell that drives `Matcher::on_event` in a
/// loop computes.
pub open spec fn run_matcher(fp: Fingerprint, st: MatcherState, events: Seq<ScanEvent>) -> MatcherState
    decreases events.len(),
{
    if events.len() == 0 {
        st
    } else {
        run_matcher(fp, step(fp, st, events.first()), events.drop_first())
    }
}

/// Feeding the events one by one agrees with resolving them in one go:
/// the stepped matcher ends `Matched` exactly when `spec_resolve` says
/// `Matched`, and when it ends `TimedOut` the resolution is `TimedOut`.
/// (A stream that is exhausted while still scanning resolves as
/// `TimedOut` as well, which the stepped matcher alone cannot tell.)
pub proof fn lemma_run_matcher_agrees(fp: Fingerprint, events: Seq<ScanEvent>)
    ensures
        run_matcher(fp, MatcherState::Scanning, events) is Matched <==> spec_resolve(fp, events)
            == MatchResult::Matched,
        run_matcher(fp, MatcherState::Scanning, events) is TimedOut ==> spec_resolve(fp, events)
            == MatchResult::TimedOut,
    decreases events.len(),
{
    if events.len() > 0 {
        let st1 = step(fp, MatcherState::Scanning, events.first());
        if st1 is Scanning {
            lemma_run_matcher_agrees(fp, events.drop_first());
        } else {
            lemma_run_matcher_absorbs(fp, st1, events.drop_first());
        }
    }
}

/// A terminal state absorbs every further event.
proof fn lemma_run_matcher_absorbs(fp: Fingerprint, st: MatcherState, events: Seq<ScanEvent>)
    requires
        !(st is Scanning),
    ensures
        run_matcher(fp, st, events) == st,
    decreases events.len(),
{
    if events.len() > 0 {
        lemma_run_matcher_absorbs(fp, st, events.drop_first());
    }
}

/// The run's outcome as the harness reports it: a match is success and
/// an expired window is the `Timeout` error.
pub fn outcome_to_result(outcome: MatchResult) -> (r: Result<(), TestError>)
    ensures
        r is Ok <==> outcome is Matched,
        r matches Err(e) ==> e is Timeout,
{
    match outcome {
        MatchResult::Matched => Ok(()),
        MatchResult::TimedOut => Err(TestError::Timeout),
    }
}

/// A satisfying event that no timeout precedes resolves the run as
/// `Matched`, regardless of how many earlier non-matching events came
/// before it.
pub proof fn lemma_match_before_timeout(fp: Fingerprint, events: Seq<ScanEvent>, i: int)
    requires
        0 <= i < events.len(),
        event_matches(fp, events[i]),
        forall|j: int| 0 <= j < i ==> !(#[trigger] events[j] is TimeoutFired),
    ensures
        spec_resolve(fp, events) == MatchResult::Matched,
    decreases i,
{
    if !event_matches(fp, events.first()) {
        assert(events[0] == events.first());
        assert(i > 0);
        assert(!(events.first() is TimeoutFired));
        lemma_match_before_timeout(fp, events.drop_first(), i - 1);
    }
}

/// With no satisfying event at all, the run resolves as `TimedOut` — it
/// never hangs, since the exhausted sequence also times out.
pub proof fn lemma_no_match_times_out(fp: Fingerprint, events: Seq<ScanEvent>)
    requires
        forall|j: int| 0 <= j < events.len() ==> !event_matches(fp, #[trigger] events[j]),
    ensures
        spec_resolve(fp, events) == MatchResult::TimedOut,
    decreases events.len(),
{
    if events.len() > 0 {
        assert(events[0] == events.first());
        if !(events.first() is TimeoutFired) {
            lemma_no_match_times_out(fp, events.drop_first());
        }
    }
}

/// Service-data matching tolerates extra unrelated entries: properties
/// that match keep matching when the advertised map gains entries, as
/// long as the advertised name stays the same.
pub proof fn lemma_service_data_tolerates_extras(
    mode: MatchMode,
    props: DeviceProps,
    richer: DeviceProps,
)
    requires
        mode is ServiceData,
        props_match(mode, props),
        richer.name == props.name,
        forall|i: int|
            0 <= i < props.service_data@.len() ==> richer.service_data@.contains(
                #[trigger] props.service_data@[i],
            ),
    ensures
        props_match(mode, richer),
{
    let data = mode->ServiceData_data;
    let w = choose|w: int| 0 <= w < props.service_data@.len() && props.service_data@[w].data@
        == data@;
    assert(richer.service_data@.contains(props.service_data@[w]));
    let v = choose|v: int|
        0 <= v < richer.service_data@.len() && richer.service_data@[v] == props.service_data@[w];
    assert(richer.service_data@[v].data@ == data@);
}

} // verus!
