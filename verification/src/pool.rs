//! The adapter pool: exclusive leases of radio adapters.
//!
//! The pool records, per 48-bit device address, whether some live test
//! session holds that adapter.  `lease` scans an enumeration of adapters
//! in order and grants the first one whose address is free; `release`
//! unconditionally forgets an address and is a safe no-op for an address
//! that was never leased.  A trace model at the bottom of this module
//! states the exclusivity guarantee: two leases of one address are always
//! separated by a release of it.

use vstd::prelude::*;

use crate::address::Address;
use crate::errors::TestError;

verus! {

/// Identity of one enumerated adapter: its hardware address and its
/// logical name, stable for the process lifetime.
#[derive(Clone, Debug)]
pub struct AdapterInfo {
    pub address: Address,
    pub name: String,
}

impl AdapterInfo {
    /// A copy equal to this identity, field for field.
    pub fn duplicate(&self) -> (r: AdapterInfo)
        ensures
            r == *self,
    {
        AdapterInfo { address: self.address, name: self.name.clone() }
    }
}

/// No address occurs twice.
pub open spec fn distinct_addresses(s: Seq<u64>) -> bool {
    forall|i: int, j: int| 0 <= i < j < s.len() ==> s[i] != s[j]
}

/// The sequence with every occurrence of `a` removed, order kept.
pub open spec fn without_addr(s: Seq<u64>, a: u64) -> Seq<u64>
    decreases s.len(),
{
    if s.len() == 0 {
        Seq::empty()
    } else if s.last() == a {
        without_addr(s.drop_last(), a)
    } else {
        without_addr(s.drop_last(), a).push(s.last())
    }
}

/// An element survives the removal exactly when it differs from the
/// removed address.
pub proof fn lemma_without_addr_contains(s: Seq<u64>, a: u64)
    ensures
        forall|x: u64| #[trigger] without_addr(s, a).contains(x) <==> (s.contains(x) && x != a),
    decreases s.len(),
{
    if s.len() > 0 {
        lemma_without_addr_contains(s.drop_last(), a);
        assert forall|x: u64| #[trigger] without_addr(s, a).contains(x) implies (s.contains(x) && x
            != a) by {
            if s.last() != a && without_addr(s, a).last() == x {
                assert(s[s.len() - 1] == x);
            } else {
                let k = choose|k: int|
                    0 <= k < without_addr(s.drop_last(), a).len() && without_addr(
                        s.drop_last(),
                        a,
                    )[k] == x;
                assert(without_addr(s.drop_last(), a).contains(x));
                let m = choose|m: int| 0 <= m < s.drop_last().len() && s.drop_last()[m] == x;
                assert(s[m] == x);
            }
        }
        assert forall|x: u64| s.contains(x) && x != a implies #[trigger] without_addr(
            s,
            a,
        ).contains(x) by {
            let m = choose|m: int| 0 <= m < s.len() && s[m] == x;
            if m < s.len() - 1 {
                assert(s.drop_last()[m] == x);
                assert(s.drop_last().contains(x));
                assert(without_addr(s.drop_last(), a).contains(x));
                if s.last() == a {
                } else {
                    let k = choose|k: int|
                        0 <= k < without_addr(s.drop_last(), a).len() && without_addr(
                            s.drop_last(),
                            a,
                        )[k] == x;
                    assert(without_addr(s, a)[k] == x);
                }
            } else {
                assert(s.last() == x);
                assert(without_addr(s, a).last() == x);
            }
        }
    }
}

/// Removal keeps distinctness.
pub proof fn lemma_without_addr_distinct(s: Seq<u64>, a: u64)
    requires
        distinct_addresses(s),
    ensures
        distinct_addresses(without_addr(s, a)),
    decreases s.len(),
{
    if s.len() > 0 {
        assert(distinct_addresses(s.drop_last()));
        lemma_without_addr_distinct(s.drop_last(), a);
        if s.last() != a {
            lemma_without_addr_contains(s.drop_last(), a);
            let t = without_addr(s.drop_last(), a).push(s.last());
            assert forall|i: int, j: int| 0 <= i < j < t.len() implies t[i] != t[j] by {
                if j == t.len() - 1 {
                    assert(without_addr(s.drop_last(), a).contains(t[i]));
                    assert(s.drop_last().contains(t[i]));
                    let m = choose|m: int| 0 <= m < s.drop_last().len() && s.drop_last()[m] == t[i];
                    assert(s[m] == t[i] && s.last() == s[s.len() - 1]);
                }
            }
        }
    }
}

/// Removing an address that does not occur changes nothing: releasing an
/// address never leased is a no-op.
pub proof fn lemma_release_absent(s: Seq<u64>, a: u64)
    requires
        !s.contains(a),
    ensures
        without_addr(s, a) == s,
    decreases s.len(),
{
    if s.len() > 0 {
        assert(s.last() != a) by {
            assert(s[s.len() - 1] == s.last());
        }
        assert forall|x: u64| s.drop_last().contains(x) implies s.contains(x) by {
            let m = choose|m: int| 0 <= m < s.drop_last().len() && s.drop_last()[m] == x;
            assert(s[m] == x);
        }
        lemma_release_absent(s.drop_last(), a);
        assert(without_addr(s, a) =~= s);
    }
}

/// Releasing the same address twice is the same as releasing it once.
pub proof fn lemma_release_idempotent(s: Seq<u64>, a: u64)
    ensures
        without_addr(without_addr(s, a), a) == without_addr(s, a),
{
    lemma_without_addr_contains(s, a);
    lemma_release_absent(without_addr(s, a), a);
}

/// In `adapters`, position `i` names the first adapter whose address is
/// not in `used`.
pub open spec fn is_first_free(adapters: Seq<AdapterInfo>, used: Seq<u64>, i: int) -> bool {
    &&& 0 <= i < adapters.len()
    &&& !used.contains(adapters[i].address.bits)
    &&& forall|j: int| 0 <= j < i ==> used.contains(#[trigger] adapters[j].address.bits)
}

/// At most one position can be the first free one.
pub proof fn lemma_first_free_unique(adapters: Seq<AdapterInfo>, used: Seq<u64>, i: int, j: int)
    requires
        is_first_free(adapters, used, i),
        is_first_free(adapters, used, j),
    ensures
        i == j,
{
    if i < j {
        assert(used.contains(adapters[i].address.bits));
    } else if j < i {
        assert(used.contains(adapters[j].address.bits));
    }
}

/// The pool of adapters, keyed by 48-bit address.  The `in_use` record is
/// the sole authority on lease state: an address stands in it exactly
/// while some live session holds that adapter.
#[derive(Debug)]
pub struct AdapterPool {
    pub in_use: Vec<u64>,
}

impl AdapterPool {
    /// The record never lists an address twice.
    pub open spec fn wf(&self) -> bool {
        distinct_addresses(self.in_use@)
    }

    /// Whether a live lease holds the address.
    pub open spec fn holds(&self, a: u64) -> bool {
        self.in_use@.contains(a)
    }

    /// The addresses held, as a set.
    pub open spec fn held_set(&self) -> Set<u64> {
        Set::new(|a: u64| self.holds(a))
    }

    /// An empty pool: no adapter is leased.
    pub fn new() -> (r: AdapterPool)
        ensures
            r.wf(),
            r.in_use@.len() == 0,
    {
        AdapterPool { in_use: Vec::new() }
    }

    fn contains_addr(&self, a: u64) -> (r: bool)
        ensures
            r == self.holds(a),
    {
        let n = self.in_use.len();
        let mut k: usize = 0;
        while k < n
            invariant
                n == self.in_use@.len(),
                k <= n,
                forall|m: int| 0 <= m < k ==> self.in_use@[m] != a,
            decreases n - k,
        {
            if self.in_use[k] == a {
                return true;
            }
            k += 1;
        }
        false
    }

    /// Grants the first enumerated adapter whose address is free, and
    /// records it as held.  Fails with `NoFreeAdapter` when every
    /// enumerated adapter is held, and with `NoAdaptersPresent` when the
    /// enumeration is empty; a failed call leaves the pool unchanged.
    pub fn lease(&mut self, adapters: &Vec<AdapterInfo>) -> (r: Result<AdapterInfo, TestError>)
        requires
            old(self).wf(),
        ensures
            final(self).wf(),
            match r {
                Ok(info) => {
                    &&& exists|i: int|
                        #[trigger] is_first_free(adapters@, old(self).in_use@, i) && info
                            == adapters@[i]
                    &&& !old(self).holds(info.address.bits)
                    &&& final(self).in_use@ == old(self).in_use@.push(info.address.bits)
                },
                Err(e) => {
                    &&& *final(self) == *old(self)
                    &&& forall|i: int|
                        0 <= i < adapters@.len() ==> old(self).holds(
                            #[trigger] adapters@[i].address.bits,
                        )
                    &&& (e is NoFreeAdapter <==> adapters@.len() > 0)
                    &&& (e is NoAdaptersPresent <==> adapters@.len() == 0)
                },
            },
    {
        let n = adapters.len();
        let mut k: usize = 0;
        while k < n
            invariant
                *self == *old(self),
                old(self).wf(),
                n == adapters@.len(),
                k <= n,
                forall|j: int|
                    0 <= j < k ==> old(self).in_use@.contains(#[trigger] adapters@[j].address.bits),
            decreases n - k,
        {
            let info = &adapters[k];
            if !self.contains_addr(info.address.bits) {
                let picked = info.duplicate();
                proof {
                    assert(is_first_free(adapters@, old(self).in_use@, k as int));
                    lemma_distinct_push(old(self).in_use@, picked.address.bits);
                }
                self.in_use.push(picked.address.bits);
                return Ok(picked);
            }
            k += 1;
        }
        if n == 0 {
            Err(TestError::NoAdaptersPresent)
        } else {
            Err(TestError::NoFreeAdapter)
        }
    }

    /// Forgets the address unconditionally.  Releasing an address that is
    /// not held is a safe no-op, so cleanup paths may release blindly.
    pub fn release(&mut self, address: Address)
        requires
            old(self).wf(),
        ensures
            final(self).wf(),
            final(self).in_use@ == without_addr(old(self).in_use@, address.bits),
            !final(self).holds(address.bits),
            forall|a: u64|
                a != address.bits ==> (final(self).holds(a) <==> old(self).holds(a)),
    {
        let a = address.bits;
        let n = self.in_use.len();
        let mut kept: Vec<u64> = Vec::new();
        let mut k: usize = 0;
        while k < n
            invariant
                *self == *old(self),
                a == address.bits,
                n == self.in_use@.len(),
                k <= n,
                kept@ == without_addr(self.in_use@.take(k as int), a),
            decreases n - k,
        {
            proof {
                assert(self.in_use@.take(k as int + 1).drop_last() =~= self.in_use@.take(k as int));
                assert(self.in_use@.take(k as int + 1).last() == self.in_use@[k as int]);
            }
            let x = self.in_use[k];
            if x != a {
                kept.push(x);
            }
            k += 1;
        }
        proof {
            assert(self.in_use@.take(n as int) =~= self.in_use@);
            lemma_without_addr_distinct(old(self).in_use@, a);
            lemma_without_addr_contains(old(self).in_use@, a);
        }
        self.in_use = kept;
    }
}

proof fn lemma_distinct_push(s: Seq<u64>, a: u64)
    requires
        distinct_addresses(s),
        !s.contains(a),
    ensures
        distinct_addresses(s.push(a)),
{
    let t = s.push(a);
    assert forall|i: int, j: int| 0 <= i < j < t.len() implies t[i] != t[j] by {
        if j == t.len() - 1 {
            assert(s.contains(s[i]));
        }
    }
}

/// One observable pool event: a lease granted for an address, or an
/// address released.
#[derive(Clone, Copy, Debug, PartialEq, Eq, Structural)]
pub enum PoolEvent {
    Leased(u64),
    Released(u64),
}

/// The set of addresses live (held by some lease) after a trace of
/// events.
pub open spec fn live_after(trace: Seq<PoolEvent>) -> Set<u64>
    decreases trace.len(),
{
    if trace.len() == 0 {
        Set::empty()
    } else {
        match trace.last() {
            PoolEvent::Leased(a) => live_after(trace.drop_last()).insert(a),
            PoolEvent::Released(a) => live_after(trace.drop_last()).remove(a),
        }
    }
}

/// A trace the pool can produce: a lease is only ever granted for an
/// address that is not live at that moment, which is what `lease`
/// ensures.
pub open spec fn valid_trace(trace: Seq<PoolEvent>) -> bool
    decreases trace.len(),
{
    trace.len() == 0 || {
        &&& valid_trace(trace.drop_last())
        &&& (trace.last() matches PoolEvent::Leased(a) ==> !live_after(trace.drop_last()).contains(
            a,
        ))
    }
}

/// Every prefix of a valid trace is valid.
pub proof fn lemma_valid_trace_prefix(trace: Seq<PoolEvent>, n: int)
    requires
        valid_trace(trace),
        0 <= n <= trace.len(),
    ensures
        valid_trace(trace.take(n)),
    decreases trace.len(),
{
    if n < trace.len() {
        assert(trace.drop_last().take(n) =~= trace.take(n));
        lemma_valid_trace_prefix(trace.drop_last(), n);
    } else {
        assert(trace.take(n) =~= trace);
    }
}

/// A live address stays live over any stretch of events that never
/// releases it.
pub proof fn lemma_live_persists(trace: Seq<PoolEvent>, m: int, n: int, a: u64)
    requires
        0 <= m <= n <= trace.len(),
        live_after(trace.take(m)).contains(a),
        forall|k: int| m <= k < n ==> trace[k] != PoolEvent::Released(a),
    ensures
        live_after(trace.take(n)).contains(a),
    decreases n - m,
{
    if m < n {
        lemma_live_persists(trace, m, n - 1, a);
        assert(trace.take(n).drop_last() =~= trace.take(n - 1));
        assert(trace.take(n).last() == trace[n - 1]);
    }
}

/// Exclusivity over any sequence of pool operations: between two leases
/// of the same address there is always a release of it, so at no point
/// do two live leases reference the same hardware address.
pub proof fn lemma_no_double_lease(trace: Seq<PoolEvent>, i: int, j: int, a: u64)
    requires
        valid_trace(trace),
        0 <= i < j < trace.len(),
        trace[i] == PoolEvent::Leased(a),
        trace[j] == PoolEvent::Leased(a),
    ensures
        exists|k: int| i < k < j && trace[k] == PoolEvent::Released(a),
{
    if forall|k: int| i < k < j ==> trace[k] != PoolEvent::Released(a) {
        assert(trace.take(i + 1).drop_last() =~= trace.take(i));
        assert(trace.take(i + 1).last() == trace[i]);
        assert(live_after(trace.take(i + 1)).contains(a));
        lemma_live_persists(trace, i + 1, j, a);
        lemma_valid_trace_prefix(trace, j + 1);
        assert(trace.take(j + 1).drop_last() =~= trace.take(j));
        assert(trace.take(j + 1).last() == trace[j]);
        assert(false);
    }
}

/// A granted lease, appended to a trace that tracks the pool, is a valid
/// event, and the trace keeps tracking the pool.
pub proof fn lemma_lease_extends_trace(
    trace: Seq<PoolEvent>,
    pre: AdapterPool,
    post: AdapterPool,
    leased: u64,
)
    requires
        valid_trace(trace),
        live_after(trace) == pre.held_set(),
        !pre.holds(leased),
        post.in_use@ == pre.in_use@.push(leased),
    ensures
        valid_trace(trace.push(PoolEvent::Leased(leased))),
        live_after(trace.push(PoolEvent::Leased(leased))) == post.held_set(),
{
    let t = trace.push(PoolEvent::Leased(leased));
    assert(t.drop_last() =~= trace);
    assert(!live_after(trace).contains(leased));
    assert forall|x: u64| #[trigger] post.holds(x) implies pre.holds(x) || x == leased by {
        let m = choose|m: int| 0 <= m < post.in_use@.len() && post.in_use@[m] == x;
        if m < pre.in_use@.len() {
            assert(pre.in_use@[m] == x);
        }
    }
    assert forall|x: u64| pre.holds(x) implies #[trigger] post.holds(x) by {
        let m = choose|m: int| 0 <= m < pre.in_use@.len() && pre.in_use@[m] == x;
        assert(post.in_use@[m] == x);
    }
    assert(post.holds(leased)) by {
        assert(post.in_use@[post.in_use@.len() - 1] == leased);
    }
    assert(live_after(t) =~= post.held_set());
}

/// A release, appended to a trace that tracks the pool, keeps the trace
/// valid and tracking.
pub proof fn lemma_release_extends_trace(
    trace: Seq<PoolEvent>,
    pre: AdapterPool,
    post: AdapterPool,
    released: u64,
)
    requires
        valid_trace(trace),
        live_after(trace) == pre.held_set(),
        post.in_use@ == without_addr(pre.in_use@, released),
    ensures
        valid_trace(trace.push(PoolEvent::Released(released))),
        live_after(trace.push(PoolEvent::Released(released))) == post.held_set(),
{
    let t = trace.push(PoolEvent::Released(released));
    assert(t.drop_last() =~= trace);
    lemma_without_addr_contains(pre.in_use@, released);
    assert(live_after(t) =~= post.held_set());
}

} // verus!
