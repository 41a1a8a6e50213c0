//! The reply envelope of the remote party and the errors of an operation.
use vstd::prelude::*;
use vstd::string::StringExecFns;
use crate::decimal::{decimal_of, decimal_text};

verus! {

/// The status code of a successful reply, and of a successful result envelope.
pub const SUCCESS_CODE: i32 = 0;

/// The status code of a failed result envelope.
pub const SYSTEM_ERROR_CODE: i32 = 10104000;

/// What the remote party answers to every request: a status code, a status
/// message and, on success, a payload that holds the serialized protocol message.
#[derive(Debug, Clone)]
pub struct ServerReply {
    pub ret_code: i32,
    pub ret_msg: String,
    pub result: Option<String>,
}

/// Why an operation stopped.
#[derive(Debug, Clone)]
pub enum ClientError {
    /// An argument of an entry point is not the serialized form it should be.
    InputDecode(String),
    /// The request could not be sent or its answer could not be read.
    Transport(String),
    /// The remote party answered with a status other than success, or without a payload.
    Protocol { code: i32, message: String },
    /// A payload is not the protocol message that the round expects.
    Decode(String),
    /// A proof or commitment of the remote party did not check.
    Verification(String),
    /// An event came that the current round does not expect.
    Sequence(String),
}

/// The text of an error: the status code and message of the remote party,
/// separated by a colon, for a protocol error; the description for the others.
pub open spec fn error_text(e: ClientError) -> Seq<char> {
    match e {
        ClientError::InputDecode(s) => s@,
        ClientError::Transport(s) => s@,
        ClientError::Protocol { code, message } => decimal_of(code as int) + seq![':'] + message@,
        ClientError::Decode(s) => s@,
        ClientError::Verification(s) => s@,
        ClientError::Sequence(s) => s@,
    }
}

impl ClientError {
    /// The text of the error.
    pub fn text(&self) -> (r: String)
        ensures
            r@ == error_text(*self),
    {
        match self {
            ClientError::InputDecode(s) => s.clone(),
            ClientError::Transport(s) => s.clone(),
            ClientError::Protocol { code, message } => {
                let mut out = decimal_text(*code);
                proof { reveal_strlit(":"); }
                out.append(":");
                out.append(message.as_str());
                out
            },
            ClientError::Decode(s) => s.clone(),
            ClientError::Verification(s) => s.clone(),
            ClientError::Sequence(s) => s.clone(),
        }
    }
}

/// A reply is accepted when its status is success and it carries a payload.
pub open spec fn reply_accepted(r: ServerReply) -> bool {
    r.ret_code == SUCCESS_CODE && r.result.is_some()
}

/// The error that a rejected reply gives: a protocol error with the remote
/// status code and message when the status is not success, a decode error
/// when the status is success but no payload came.
pub open spec fn is_rejection(r: ServerReply, e: ClientError) -> bool {
    if r.ret_code != SUCCESS_CODE {
        e is Protocol && e->Protocol_code == r.ret_code && e->Protocol_message@ == r.ret_msg@
    } else {
        e is Decode && e->Decode_0@ == "reply carries no payload"@
    }
}

/// Checks the envelope of a reply before its payload goes any further: the
/// payload when the status is success and a payload is there, else the
/// error of `is_rejection`.
pub fn check_reply(reply: ServerReply) -> (r: Result<String, ClientError>)
    ensures
        reply_accepted(reply) <==> r is Ok,
        r is Ok ==> r->Ok_0@ == reply.result.unwrap()@,
        r is Err ==> is_rejection(reply, r->Err_0),
{
    if reply.ret_code != SUCCESS_CODE {
        return Err(ClientError::Protocol { code: reply.ret_code, message: reply.ret_msg });
    }
    match reply.result {
        Some(payload) => Ok(payload),
        None => {
            proof { reveal_strlit("reply carries no payload"); }
            Err(ClientError::Decode(String::from_str("reply carries no payload")))
        },
    }
}

/// Checks what came back from one request: a transport failure (no reply)
/// becomes a transport error with the text `lost`, a reply is checked as
/// `check_reply` does.
pub fn receive(reply: Option<ServerReply>, lost: &str) -> (r: Result<String, ClientError>)
    ensures
        reply is None ==> (r is Err && r->Err_0 is Transport && r->Err_0->Transport_0@ == lost@),
        reply is Some ==> (reply_accepted(reply->0) <==> r is Ok),
        reply is Some && r is Ok ==> r->Ok_0@ == reply->0.result.unwrap()@,
        reply is Some && r is Err ==> is_rejection(reply->0, r->Err_0),
{
    match reply {
        None => Err(ClientError::Transport(String::from_str(lost))),
        Some(rep) => check_reply(rep),
    }
}

} // verus!
