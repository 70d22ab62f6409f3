//! The laws the coordination layer obeys, stated and proved over the
//! router transition `route_spec` and the correlation-table model.

use vstd::prelude::*;

use crate::coordination::{route_spec, ActionModel, WorkerModel};
use crate::messages::MessageModel;

verus! {

/// The router touches only the correlation table: a context's
/// identity, its leadership flag and its database handle are never
/// changed by an incoming message.  In particular the leadership flag,
/// once set by the elector, is never reverted.
pub proof fn lemma_router_preserves_identity(s: WorkerModel, msg: Option<MessageModel>)
    ensures
        route_spec(s, msg).0.worker_id == s.worker_id,
        route_spec(s, msg).0.is_leader == s.is_leader,
        route_spec(s, msg).0.db == s.db,
{
}

/// Idempotence of unmatched responses: a query response whose id is
/// absent from the observing context's correlation table has no
/// observable effect — the state is unchanged and no continuation
/// fires.
pub proof fn lemma_unmatched_response_inert(
    s: WorkerModel,
    query_id: Seq<char>,
    result: Option<Seq<char>>,
    error: Option<Seq<char>>,
)
    requires
        !s.pending.contains(query_id),
    ensures
        route_spec(s, Option::Some(MessageModel::QueryResponse { query_id, result, error })) == (
            s,
            ActionModel::Nothing,
        ),
{
}

/// Round-trip: a leader with an initialized handle routes a forwarded
/// request to its engine, and the response built under the original id
/// resolves the follower's pending call with exactly the text the
/// engine returned — the same text a direct execution at the leader
/// yields, since both run the same statement on the same handle.
pub proof fn lemma_forwarded_round_trip(
    leader: WorkerModel,
    follower: WorkerModel,
    query_id: Seq<char>,
    sql: Seq<char>,
    text: Seq<char>,
)
    requires
        leader.is_leader,
        leader.db is Some,
        follower.pending.contains(query_id),
    ensures
        route_spec(leader, Option::Some(MessageModel::QueryRequest { query_id, sql })) == (
            leader,
            ActionModel::Execute { query_id, sql },
        ),
        ({
            let response = MessageModel::QueryResponse {
                query_id,
                result: Option::Some(text),
                error: Option::None,
            };
            let stepped = route_spec(follower, Option::Some(response));
            &&& stepped.1 == (ActionModel::Resolve { query_id, result: text })
            &&& stepped.0.pending == follower.pending.remove_value(query_id)
        }),
{
}

/// Timeout boundary: a timeout removes the still-pending entry — the
/// caller sees the timeout error exactly once — and a response arriving
/// for that id afterwards finds no entry, so it is a no-op.
pub proof fn lemma_timeout_then_late_response(
    s: WorkerModel,
    query_id: Seq<char>,
    result: Option<Seq<char>>,
    error: Option<Seq<char>>,
)
    requires
        s.wf(),
        s.pending.contains(query_id),
    ensures
        ({
            let after = WorkerModel { pending: s.pending.remove_value(query_id), ..s };
            &&& !after.pending.contains(query_id)
            &&& route_spec(
                after,
                Option::Some(MessageModel::QueryResponse { query_id, result, error }),
            ) == (after, ActionModel::Nothing)
        }),
{
    s.pending.index_of_first_ensures(query_id);
    match s.pending.index_of_first(query_id) {
        Option::Some(idx) => {
            s.pending.remove_ensures(idx);
            let after_pending = s.pending.remove_value(query_id);
            assert forall|j: int| 0 <= j < after_pending.len() implies after_pending[j] != query_id by {
                if j < idx {
                    assert(after_pending[j] == s.pending[j]);
                } else {
                    assert(after_pending[j] == s.pending[j + 1]);
                }
            }
            assert(!after_pending.contains(query_id));
        },
        Option::None => {
        },
    }
}

/// Correlation: a response settles only the pending entry that carries
/// its id.  Any entry under a different id stays pending, and a
/// continuation fired by the response is the one registered under the
/// response's own id — concurrent callers are never swapped.
pub proof fn lemma_response_settles_only_its_id(
    s: WorkerModel,
    query_id: Seq<char>,
    result: Option<Seq<char>>,
    error: Option<Seq<char>>,
    other: Seq<char>,
)
    requires
        s.wf(),
        other != query_id,
        s.pending.contains(other),
    ensures
        ({
            let stepped = route_spec(
                s,
                Option::Some(MessageModel::QueryResponse { query_id, result, error }),
            );
            &&& stepped.0.pending.contains(other)
            &&& (stepped.1 matches ActionModel::Resolve { query_id: q, .. } ==> q == query_id)
            &&& (stepped.1 matches ActionModel::Reject { query_id: q, .. } ==> q == query_id)
        }),
{
    s.pending.index_of_first_ensures(query_id);
    match s.pending.index_of_first(query_id) {
        Option::Some(idx) => {
            s.pending.remove_ensures(idx);
            let after_pending = s.pending.remove_value(query_id);
            let k = choose|k: int| 0 <= k < s.pending.len() && s.pending[k] == other;
            if k < idx {
                assert(after_pending[k] == other);
            } else {
                assert(after_pending[k - 1] == other);
            }
        },
        Option::None => {
        },
    }
}

} // verus!
