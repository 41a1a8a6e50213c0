//! The requests that the orchestrators hand to the transport.
use vstd::prelude::*;
use crate::keygen::{KeyGenSecondReq, ChainCodeFirstReq, ChainCodeSecondReq};
use crate::sign::{SignFirstRequest, SignSecondRequest};

verus! {

/// The body of a request: an empty object, or one of the round messages.
#[derive(Debug, Clone)]
pub enum RequestBody {
    Empty,
    KeyGenSecond(KeyGenSecondReq),
    ChainCodeFirst(ChainCodeFirstReq),
    ChainCodeSecond(ChainCodeSecondReq),
    SignFirst(SignFirstRequest),
    SignSecond(SignSecondRequest),
}

/// One request to the remote party: the endpoint path, relative to the base
/// address, and the body.
#[derive(Debug, Clone)]
pub struct Request {
    pub path: String,
    pub body: RequestBody,
}

} // verus!
