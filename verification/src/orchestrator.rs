//! Decisions of the server's accept loop.
//!
//! Per accepted connection the loop leases one adapter per role — server
//! first, then client — builds the session, serves it, and afterwards
//! releases both leases unconditionally, whether the session ended
//! normally, by remote shutdown request or through a transport failure.
//! A setup that cannot secure both adapters aborts only that connection:
//! the lease it did take is returned and the loop goes on.  After a
//! served connection the loop accepts the next one unless the session's
//! shutdown flag was set.

use vstd::prelude::*;

use crate::errors::TestError;
use crate::pool::{is_first_free, without_addr, AdapterInfo, AdapterPool};
use crate::session::TestSession;

verus! {

/// What the accept loop does next.
#[derive(Clone, Copy, Debug, PartialEq, Eq, Structural)]
pub enum LoopDecision {
    AcceptNext,
    Shutdown,
}

/// The loop stops accepting exactly when a shutdown was requested.
pub fn next_loop_decision(kill_requested: bool) -> (d: LoopDecision)
    ensures
        d is Shutdown <==> kill_requested,
{
    if kill_requested {
        LoopDecision::Shutdown
    } else {
        LoopDecision::AcceptNext
    }
}

/// Leases the server-role and then the client-role adapter and builds the
/// connection's session.  If the second lease fails, the first is
/// released again, so a failed setup leaves the pool exactly as it was.
pub fn begin_session(pool: &mut AdapterPool, adapters: &Vec<AdapterInfo>, verbose: bool) -> (r:
    Result<TestSession, TestError>)
    requires
        old(pool).wf(),
    ensures
        final(pool).wf(),
        (r is Ok <==> exists|i: int, j: int|
            is_first_free(adapters@, old(pool).in_use@, i) && #[trigger] is_first_free(
                adapters@,
                old(pool).in_use@.push(adapters@[i].address.bits),
                j,
            )),
        match r {
            Ok(s) => {
                &&& exists|i: int, j: int|
                    {
                        &&& #[trigger] is_first_free(adapters@, old(pool).in_use@, i)
                        &&& s.server == adapters@[i]
                        &&& #[trigger] is_first_free(
                            adapters@,
                            old(pool).in_use@.push(adapters@[i].address.bits),
                            j,
                        )
                        &&& s.client == adapters@[j]
                        &&& final(pool).in_use@ == old(pool).in_use@.push(
                            adapters@[i].address.bits,
                        ).push(adapters@[j].address.bits)
                    }
                &&& s.verbose == verbose
                &&& !s.kill_requested
            },
            Err(e) => {
                &&& final(pool).in_use@ == old(pool).in_use@
                &&& (e is NoFreeAdapter || e is NoAdaptersPresent)
                &&& (e is NoAdaptersPresent <==> adapters@.len() == 0)
            },
        },
{
    let server = match pool.lease(adapters) {
        Ok(info) => info,
        Err(e) => {
            proof {
                assert forall|i: int, j: int|
                    !(is_first_free(adapters@, old(pool).in_use@, i) && #[trigger] is_first_free(
                        adapters@,
                        old(pool).in_use@.push(adapters@[i].address.bits),
                        j,
                    )) by {
                    if is_first_free(adapters@, old(pool).in_use@, i) {
                        assert(old(pool).holds(adapters@[i].address.bits));
                    }
                }
            }
            return Err(e);
        },
    };
    let ghost mid = *pool;
    match pool.lease(adapters) {
        Ok(client) => {
            proof {
                let i = choose|i: int|
                    #[trigger] is_first_free(adapters@, old(pool).in_use@, i) && server
                        == adapters@[i];
                let j = choose|j: int|
                    #[trigger] is_first_free(adapters@, mid.in_use@, j) && client == adapters@[j];
                assert(is_first_free(adapters@, old(pool).in_use@, i));
                assert(is_first_free(
                    adapters@,
                    old(pool).in_use@.push(adapters@[i].address.bits),
                    j,
                ));
            }
            Ok(TestSession::new(server, client, verbose))
        },
        Err(e) => {
            proof {
                assert(mid.in_use@.drop_last() =~= old(pool).in_use@);
                assert(mid.in_use@.last() == server.address.bits);
                crate::pool::lemma_release_absent(old(pool).in_use@, server.address.bits);
                let k = choose|k: int|
                    #[trigger] is_first_free(adapters@, old(pool).in_use@, k) && server
                        == adapters@[k];
                assert forall|i: int, j: int|
                    !(is_first_free(adapters@, old(pool).in_use@, i) && #[trigger] is_first_free(
                        adapters@,
                        old(pool).in_use@.push(adapters@[i].address.bits),
                        j,
                    )) by {
                    if is_first_free(adapters@, old(pool).in_use@, i) && is_first_free(
                        adapters@,
                        old(pool).in_use@.push(adapters@[i].address.bits),
                        j,
                    ) {
                        crate::pool::lemma_first_free_unique(adapters@, old(pool).in_use@, i, k);
                        assert(adapters@[i].address.bits == server.address.bits);
                        assert(mid.holds(adapters@[j].address.bits));
                        assert(mid.in_use@ =~= old(pool).in_use@.push(adapters@[i].address.bits));
                    }
                }
            }
            pool.release(server.address);
            proof {
                assert(pool.in_use@ == without_addr(old(pool).in_use@, server.address.bits));
            }
            Err(e)
        },
    }
}

/// Releases both of the session's leases unconditionally and reports
/// whether the loop accepts the next connection or shuts down.
pub fn end_session(pool: &mut AdapterPool, session: &TestSession) -> (d: LoopDecision)
    requires
        old(pool).wf(),
    ensures
        final(pool).wf(),
        final(pool).in_use@ == without_addr(
            without_addr(old(pool).in_use@, session.server.address.bits),
            session.client.address.bits,
        ),
        !final(pool).holds(session.server.address.bits),
        !final(pool).holds(session.client.address.bits),
        forall|a: u64|
            a != session.server.address.bits && a != session.client.address.bits ==> (final(
                pool).holds(a) <==> old(pool).holds(a)),
        d is Shutdown <==> session.kill_requested,
{
    pool.release(session.server.address);
    pool.release(session.client.address);
    next_loop_decision(session.kill_requested)
}

} // verus!
