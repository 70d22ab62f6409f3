//! The per-context coordinator: worker identity, leadership flag,
//! database-handle presence and the correlation table that pairs each
//! forwarded query with its eventual response.
//!
//! Every context starts as a follower.  The elector's success callback
//! flips the leadership flag exactly once; the leader then initializes
//! its database handle and announces itself.  A follower's query is
//! registered in the correlation table, broadcast to the leader, and
//! settled by the first of a matching response or a timeout.

use vstd::prelude::*;

use crate::messages::{ChannelMessage, MessageModel, RawMessage, parse_message, spec_parse};

verus! {

/// The leader's handle onto the embedded database, as this layer sees
/// it: an opaque token the boundary code maps to the real engine
/// connection.  Only its presence matters to the coordination logic.
#[derive(Clone, Copy, Debug, PartialEq, Eq, Structural)]
pub struct DatabaseHandle {
    pub token: u64,
}

impl View for DatabaseHandle {
    type V = u64;

    open spec fn view(&self) -> u64 {
        self.token
    }
}

impl DeepView for DatabaseHandle {
    type V = u64;

    open spec fn deep_view(&self) -> u64 {
        self.token
    }
}

/// Mathematical model of a context's coordination state.
#[verifier::ext_equal]
pub struct WorkerModel {
    pub worker_id: Seq<char>,
    pub is_leader: bool,
    pub db: Option<u64>,
    pub pending: Seq<Seq<char>>,
}

impl WorkerModel {
    /// The correlation table never holds two entries under one id, so a
    /// response settles at most one pending request.
    pub open spec fn wf(self) -> bool {
        forall|i: int, j: int|
            0 <= i < j < self.pending.len() ==> self.pending[i] != self.pending[j]
    }
}

/// A context's coordination state: its immutable identity, the
/// monotonic leadership flag, the database handle (present only in an
/// initialized leader) and the pending forwarded queries.
pub struct WorkerState {
    pub worker_id: String,
    pub is_leader: bool,
    pub db: Option<DatabaseHandle>,
    pub pending_queries: Vec<String>,
}

impl View for WorkerState {
    type V = WorkerModel;

    open spec fn view(&self) -> WorkerModel {
        WorkerModel {
            worker_id: self.worker_id@,
            is_leader: self.is_leader,
            db: self.db.deep_view(),
            pending: Seq::new(
                self.pending_queries.len() as nat,
                |i: int| self.pending_queries[i]@,
            ),
        }
    }
}

/// What the router asks the surrounding context to do after one
/// incoming payload: nothing, publish a message, run a forwarded query
/// against the local engine, or settle a pending request.
pub enum RouterAction {
    Nothing,
    Publish { response: ChannelMessage },
    Execute { query_id: String, sql: String },
    Resolve { query_id: String, result: String },
    Reject { query_id: String, error: String },
}

/// Mathematical model of a router action.
#[verifier::ext_equal]
pub enum ActionModel {
    Nothing,
    Publish { response: MessageModel },
    Execute { query_id: Seq<char>, sql: Seq<char> },
    Resolve { query_id: Seq<char>, result: Seq<char> },
    Reject { query_id: Seq<char>, error: Seq<char> },
}

impl View for RouterAction {
    type V = ActionModel;

    open spec fn view(&self) -> ActionModel {
        match self {
            RouterAction::Nothing => ActionModel::Nothing,
            RouterAction::Publish { response } => ActionModel::Publish { response: response@ },
            RouterAction::Execute { query_id, sql } => ActionModel::Execute {
                query_id: query_id@,
                sql: sql@,
            },
            RouterAction::Resolve { query_id, result } => ActionModel::Resolve {
                query_id: query_id@,
                result: result@,
            },
            RouterAction::Reject { query_id, error } => ActionModel::Reject {
                query_id: query_id@,
                error: error@,
            },
        }
    }
}

/// How one incoming payload moves a context's state and what it asks
/// the context to do.
///
/// An unparseable payload and an announcement are inert.  A query
/// request is acted on only by the leader: with a handle it is
/// executed, without one it is answered with the initialization error.
/// A query response settles the matching pending entry exactly once —
/// reject on an error, resolve on a result; a response whose id is not
/// pending is inert.  Validation never yields a response carrying
/// neither result nor error; such a value is inert here too, so no
/// message can cancel a pending call without settling it.
pub open spec fn route_spec(pre: WorkerModel, msg: Option<MessageModel>) -> (WorkerModel, ActionModel) {
    match msg {
        Option::None => (pre, ActionModel::Nothing),
        Option::Some(m) => match m {
            MessageModel::QueryRequest { query_id, sql } => if !pre.is_leader {
                (pre, ActionModel::Nothing)
            } else if pre.db is Some {
                (pre, ActionModel::Execute { query_id, sql })
            } else {
                (
                    pre,
                    ActionModel::Publish {
                        response: MessageModel::QueryResponse {
                            query_id,
                            result: Option::None,
                            error: Option::Some("Database not initialized"@),
                        },
                    },
                )
            },
            MessageModel::QueryResponse { query_id, result, error } => if result is None && error is None {
                (pre, ActionModel::Nothing)
            } else if !pre.pending.contains(query_id) {
                (pre, ActionModel::Nothing)
            } else {
                let post = WorkerModel {
                    pending: pre.pending.remove_value(query_id),
                    ..pre
                };
                match error {
                    Option::Some(e) => (post, ActionModel::Reject { query_id, error: e }),
                    Option::None => (
                        post,
                        ActionModel::Resolve { query_id, result: result->Some_0 },
                    ),
                }
            },
            MessageModel::NewLeader { .. } => (pre, ActionModel::Nothing),
        },
    }
}

/// Where a caller's query goes: run locally on the leader's handle,
/// fail because the leader has no handle yet, or be forwarded to the
/// leader over the bus.
pub enum QueryRoute {
    Local { handle: DatabaseHandle },
    NotInitialized { error: String },
    Forward,
}

impl WorkerState {
    /// The correlation table never holds two entries under one id.
    pub open spec fn wf(self) -> bool {
        self@.wf()
    }

    /// A context starts as a follower with a fresh identity, no
    /// database handle and no pending queries.
    pub fn new() -> (s: Self)
        ensures
            s.wf(),
            !s.is_leader,
            s@.db is None,
            s@.pending == Seq::<Seq<char>>::empty(),
            s@.worker_id.len() == 36,
    {
        let worker_id = crate::fresh_id();
        let s = WorkerState {
            worker_id,
            is_leader: false,
            db: Option::None,
            pending_queries: Vec::new(),
        };
        proof {
            assert(s@.pending =~= Seq::<Seq<char>>::empty());
        }
        s
    }

    /// The elector's success callback: the context becomes leader.  The
    /// flag moves only from follower to leader; nothing else changes.
    pub fn on_lock_granted(&mut self)
        ensures
            final(self).is_leader,
            final(self)@.worker_id == old(self)@.worker_id,
            final(self)@.db == old(self)@.db,
            final(self)@.pending == old(self)@.pending,
            final(self).wf() == old(self).wf(),
    {
        self.is_leader = true;
    }

    /// The leader's database handle became ready: record it and build
    /// the leadership announcement to publish.
    pub fn on_database_initialized(&mut self, handle: DatabaseHandle) -> (announcement:
        ChannelMessage)
        requires
            old(self).is_leader,
        ensures
            final(self).is_leader,
            final(self)@.db == Option::Some(handle@),
            final(self)@.worker_id == old(self)@.worker_id,
            final(self)@.pending == old(self)@.pending,
            final(self).wf() == old(self).wf(),
            announcement@ == (MessageModel::NewLeader { leader_id: old(self)@.worker_id }),
    {
        self.db = Option::Some(handle);
        ChannelMessage::NewLeader { leader_id: self.worker_id.clone() }
    }

    /// Whether a forwarded query under this id is still awaiting its
    /// response.
    pub fn contains_pending(&self, query_id: &String) -> (r: bool)
        ensures
            r == self@.pending.contains(query_id@),
    {
        let mut i: usize = 0;
        while i < self.pending_queries.len()
            invariant
                i <= self.pending_queries.len(),
                forall|j: int| 0 <= j < i ==> self@.pending[j] != query_id@,
            decreases self.pending_queries.len() - i,
        {
            if self.pending_queries[i].eq(query_id) {
                proof {
                    assert(self@.pending[i as int] == query_id@);
                }
                return true;
            }
            i += 1;
        }
        false
    }

    /// The index of the pending entry under this id, if any.
    fn find_pending(&self, query_id: &String) -> (r: Option<usize>)
        ensures
            (match r {
                Option::Some(i) => i < self.pending_queries.len()
                    && self@.pending.index_of_first(query_id@) == Option::Some(i as int),
                Option::None => !self@.pending.contains(query_id@),
            }),
    {
        let mut i: usize = 0;
        while i < self.pending_queries.len()
            invariant
                i <= self.pending_queries.len(),
                forall|j: int| 0 <= j < i ==> self@.pending[j] != query_id@,
            decreases self.pending_queries.len() - i,
        {
            if self.pending_queries[i].eq(query_id) {
                proof {
                    assert(self@.pending[i as int] == query_id@);
                    self@.pending.index_of_first_ensures(query_id@);
                }
                return Option::Some(i);
            }
            i += 1;
        }
        proof {
            self@.pending.index_of_first_ensures(query_id@);
        }
        Option::None
    }

    /// Remove the pending entry under this id, if present; report
    /// whether one was removed.
    pub fn remove_pending(&mut self, query_id: &String) -> (removed: bool)
        requires
            old(self).wf(),
        ensures
            final(self).wf(),
            removed == old(self)@.pending.contains(query_id@),
            final(self)@.pending == old(self)@.pending.remove_value(query_id@),
            final(self)@.worker_id == old(self)@.worker_id,
            final(self).is_leader == old(self).is_leader,
            final(self)@.db == old(self)@.db,
    {
        proof {
            old(self)@.pending.index_of_first_ensures(query_id@);
        }
        match self.find_pending(query_id) {
            Option::Some(i) => {
                self.pending_queries.remove(i);
                proof {
                    let pre = old(self)@.pending;
                    pre.remove_ensures(i as int);
                    old(self).pending_queries@.remove_ensures(i as int);
                    assert(self@.pending =~= pre.remove(i as int));
                    assert(pre.remove_value(query_id@) == pre.remove(i as int));
                }
                true
            },
            Option::None => {
                false
            },
        }
    }

    /// Register a forwarded query under a fresh id and build the
    /// request to broadcast to the leader.
    pub fn register_pending(&mut self, query_id: String, sql: String) -> (m: ChannelMessage)
        requires
            old(self).wf(),
            !old(self)@.pending.contains(query_id@),
        ensures
            final(self).wf(),
            final(self)@.pending == old(self)@.pending.push(query_id@),
            final(self)@.worker_id == old(self)@.worker_id,
            final(self).is_leader == old(self).is_leader,
            final(self)@.db == old(self)@.db,
            m@ == (MessageModel::QueryRequest { query_id: query_id@, sql: sql@ }),
    {
        self.pending_queries.push(query_id.clone());
        proof {
            assert(self@.pending =~= old(self)@.pending.push(query_id@));
        }
        ChannelMessage::QueryRequest { query_id, sql }
    }

    /// A follower's side of `executeQuery`: draw a fresh id, register
    /// it, and hand back the id together with the request to broadcast.
    /// In the astronomically unlikely case that the drawn id is already
    /// pending, nothing changes and `None` is returned — so with an
    /// empty table the call always succeeds.
    pub fn begin_forwarded_query(&mut self, sql: String) -> (r: Option<(String, ChannelMessage)>)
        requires
            old(self).wf(),
        ensures
            final(self).wf(),
            (match r {
                Option::Some((id, m)) => {
                    &&& !old(self)@.pending.contains(id@)
                    &&& id@.len() == 36
                    &&& final(self)@.pending == old(self)@.pending.push(id@)
                    &&& final(self)@.worker_id == old(self)@.worker_id
                    &&& final(self).is_leader == old(self).is_leader
                    &&& final(self)@.db == old(self)@.db
                    &&& m@ == (MessageModel::QueryRequest { query_id: id@, sql: sql@ })
                },
                Option::None => final(self)@ == old(self)@ && old(self)@.pending.len() > 0,
            }),
    {
        let query_id = crate::fresh_id();
        if self.contains_pending(&query_id) {
            Option::None
        } else {
            let m = self.register_pending(query_id.clone(), sql);
            Option::Some((query_id, m))
        }
    }

    /// The timeout side of the race: if the entry is still pending the
    /// window has elapsed without a response, so remove it and yield
    /// the timeout error; if it was already settled, do nothing.
    pub fn on_timeout(&mut self, query_id: &String) -> (r: Option<String>)
        requires
            old(self).wf(),
        ensures
            final(self).wf(),
            old(self)@.pending.contains(query_id@) ==> (r matches Some(e) && e@
                == "Query timeout"@),
            !old(self)@.pending.contains(query_id@) ==> r is None,
            final(self)@.pending == old(self)@.pending.remove_value(query_id@),
            final(self)@.worker_id == old(self)@.worker_id,
            final(self).is_leader == old(self).is_leader,
            final(self)@.db == old(self)@.db,
    {
        if self.remove_pending(query_id) {
            Option::Some("Query timeout".to_owned())
        } else {
            Option::None
        }
    }

    /// Where this context's own `executeQuery` call goes: the leader
    /// runs it locally on its handle, a leader whose handle is still
    /// absent reports the initialization error, and a follower forwards
    /// it.
    pub fn query_route(&self) -> (r: QueryRoute)
        ensures
            self.is_leader && self.db is Some ==> (r matches QueryRoute::Local { handle }
                && Option::Some(handle) == self.db),
            self.is_leader && self.db is None ==> (r matches QueryRoute::NotInitialized { error }
                && error@ == "Database not initialized"@),
            !self.is_leader ==> r is Forward,
    {
        if self.is_leader {
            match self.db {
                Option::Some(handle) => QueryRoute::Local { handle },
                Option::None => QueryRoute::NotInitialized {
                    error: "Database not initialized".to_owned(),
                },
            }
        } else {
            QueryRoute::Forward
        }
    }

    /// The message router: one incoming payload, validated, moves the
    /// state and yields the action the context must perform, exactly as
    /// `route_spec` says.  Unparseable payloads are dropped silently
    /// and leave every flag and table entry untouched.
    pub fn handle_message(&mut self, raw: RawMessage) -> (action: RouterAction)
        requires
            old(self).wf(),
        ensures
            final(self).wf(),
            final(self)@ == route_spec(old(self)@, spec_parse(raw@)).0,
            action@ == route_spec(old(self)@, spec_parse(raw@)).1,
    {
        match parse_message(raw) {
            Option::None => RouterAction::Nothing,
            Option::Some(m) => match m {
                ChannelMessage::QueryRequest { query_id, sql } => {
                    if self.is_leader {
                        if self.db.is_some() {
                            RouterAction::Execute { query_id, sql }
                        } else {
                            RouterAction::Publish {
                                response: ChannelMessage::QueryResponse {
                                    query_id,
                                    result: Option::None,
                                    error: Option::Some("Database not initialized".to_owned()),
                                },
                            }
                        }
                    } else {
                        RouterAction::Nothing
                    }
                },
                ChannelMessage::QueryResponse { query_id, result, error } => {
                    let removed = self.remove_pending(&query_id);
                    proof {
                        old(self)@.pending.index_of_first_ensures(query_id@);
                        assert(self@ =~= route_spec(old(self)@, spec_parse(raw@)).0);
                    }
                    if removed {
                        match error {
                            Option::Some(e) => RouterAction::Reject { query_id, error: e },
                            Option::None => match result {
                                Option::Some(text) => RouterAction::Resolve {
                                    query_id,
                                    result: text,
                                },
                                // validation never yields a response with
                                // neither result nor error
                                Option::None => RouterAction::Nothing,
                            },
                        }
                    } else {
                        RouterAction::Nothing
                    }
                },
                ChannelMessage::NewLeader { .. } => RouterAction::Nothing,
            },
        }
    }
}

/// The leader's answer to a forwarded query: exactly one response under
/// the original id, carrying the engine's result text on success and
/// its error text on failure.
pub fn build_query_response(query_id: String, result: Result<String, String>) -> (m: ChannelMessage)
    ensures
        m@ == (match result {
            Result::Ok(text) => MessageModel::QueryResponse {
                query_id: query_id@,
                result: Option::Some(text@),
                error: Option::None,
            },
            Result::Err(e) => MessageModel::QueryResponse {
                query_id: query_id@,
                result: Option::None,
                error: Option::Some(e@),
            },
        }),
{
    match result {
        Result::Ok(text) => ChannelMessage::QueryResponse {
            query_id,
            result: Option::Some(text),
            error: Option::None,
        },
        Result::Err(e) => ChannelMessage::QueryResponse {
            query_id,
            result: Option::None,
            error: Option::Some(e),
        },
    }
}

} // verus!
