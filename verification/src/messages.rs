//! The broadcast message envelope: a tagged union with exactly three
//! kinds, reconstructed from the dynamically-typed payloads that the
//! shared bus delivers.  A payload that does not carry the tag and the
//! fields its kind requires is rejected, and the router drops it
//! silently.

use vstd::prelude::*;

verus! {

/// The untyped shape of a broadcast payload as the transport hands it
/// over: every field any of the three message kinds can carry, each
/// possibly absent.  The boundary code extracts these fields without
/// interpreting them; `parse_message` performs the field-level
/// validation.
pub struct RawMessage {
    pub msg_type: Option<String>,
    pub query_id: Option<String>,
    pub sql: Option<String>,
    pub result: Option<String>,
    pub error: Option<String>,
    pub leader_id: Option<String>,
}

/// Mathematical model of a raw payload.
pub struct RawMessageModel {
    pub msg_type: Option<Seq<char>>,
    pub query_id: Option<Seq<char>>,
    pub sql: Option<Seq<char>>,
    pub result: Option<Seq<char>>,
    pub error: Option<Seq<char>>,
    pub leader_id: Option<Seq<char>>,
}

impl View for RawMessage {
    type V = RawMessageModel;

    open spec fn view(&self) -> RawMessageModel {
        RawMessageModel {
            msg_type: self.msg_type.deep_view(),
            query_id: self.query_id.deep_view(),
            sql: self.sql.deep_view(),
            result: self.result.deep_view(),
            error: self.error.deep_view(),
            leader_id: self.leader_id.deep_view(),
        }
    }
}

/// A well-formed broadcast message: a query forwarded to the leader, the
/// leader's answer to a forwarded query, or the announcement a new
/// leader publishes once its database handle is ready.
pub enum ChannelMessage {
    QueryRequest { query_id: String, sql: String },
    QueryResponse { query_id: String, result: Option<String>, error: Option<String> },
    NewLeader { leader_id: String },
}

/// Mathematical model of a broadcast message.
pub enum MessageModel {
    QueryRequest { query_id: Seq<char>, sql: Seq<char> },
    QueryResponse { query_id: Seq<char>, result: Option<Seq<char>>, error: Option<Seq<char>> },
    NewLeader { leader_id: Seq<char> },
}

impl View for ChannelMessage {
    type V = MessageModel;

    open spec fn view(&self) -> MessageModel {
        match self {
            ChannelMessage::QueryRequest { query_id, sql } => MessageModel::QueryRequest {
                query_id: query_id@,
                sql: sql@,
            },
            ChannelMessage::QueryResponse { query_id, result, error } => MessageModel::QueryResponse {
                query_id: query_id@,
                result: result.deep_view(),
                error: error.deep_view(),
            },
            ChannelMessage::NewLeader { leader_id } => MessageModel::NewLeader {
                leader_id: leader_id@,
            },
        }
    }
}

impl DeepView for ChannelMessage {
    type V = MessageModel;

    open spec fn deep_view(&self) -> MessageModel {
        self.view()
    }
}

/// What field-level validation accepts: the tag names one of the three
/// kinds and the fields that kind requires are present; anything else is
/// rejected.  A query response must carry exactly its id and one of
/// result or error — one with neither is malformed and is dropped, so
/// it can never settle (and thereby silently cancel) a pending call.
pub open spec fn spec_parse(raw: RawMessageModel) -> Option<MessageModel> {
    match raw.msg_type {
        Option::None => Option::None,
        Option::Some(tag) => if tag == "query-request"@ {
            match (raw.query_id, raw.sql) {
                (Option::Some(query_id), Option::Some(sql)) => Option::Some(
                    MessageModel::QueryRequest { query_id, sql },
                ),
                _ => Option::None,
            }
        } else if tag == "query-response"@ {
            match raw.query_id {
                Option::Some(query_id) => if raw.result is Some || raw.error is Some {
                    Option::Some(
                        MessageModel::QueryResponse {
                            query_id,
                            result: raw.result,
                            error: raw.error,
                        },
                    )
                } else {
                    Option::None
                },
                Option::None => Option::None,
            }
        } else if tag == "new-leader"@ {
            match raw.leader_id {
                Option::Some(leader_id) => Option::Some(
                    MessageModel::NewLeader { leader_id },
                ),
                Option::None => Option::None,
            }
        } else {
            Option::None
        },
    }
}

/// Compares a payload field against a protocol tag.
fn tag_is(t: &String, lit: &str) -> (r: bool)
    ensures
        r == (t@ == lit@),
{
    *t == lit.to_owned()
}

/// Reconstructs a message from an untyped payload, validating the tag
/// and the fields its kind requires; returns `None` exactly on the
/// payloads that validation rejects.
pub fn parse_message(raw: RawMessage) -> (r: Option<ChannelMessage>)
    ensures
        r.deep_view() == spec_parse(raw@),
{
    let RawMessage { msg_type, query_id, sql, result, error, leader_id } = raw;
    match msg_type {
        Option::None => Option::None,
        Option::Some(tag) => if tag_is(&tag, "query-request") {
            match (query_id, sql) {
                (Option::Some(query_id), Option::Some(sql)) => Option::Some(
                    ChannelMessage::QueryRequest { query_id, sql },
                ),
                _ => Option::None,
            }
        } else if tag_is(&tag, "query-response") {
            match query_id {
                Option::Some(query_id) => if result.is_some() || error.is_some() {
                    Option::Some(ChannelMessage::QueryResponse { query_id, result, error })
                } else {
                    Option::None
                },
                Option::None => Option::None,
            }
        } else if tag_is(&tag, "new-leader") {
            match leader_id {
                Option::Some(leader_id) => Option::Some(
                    ChannelMessage::NewLeader { leader_id },
                ),
                Option::None => Option::None,
            }
        } else {
            Option::None
        },
    }
}

} // verus!
