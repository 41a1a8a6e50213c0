//! Signing: the two rounds that produce a signature for a digest under a
//! derived key share, run strictly in turn within one session.
use vstd::prelude::*;
use vstd::string::StringExecFns;
use crate::reply::{ClientError, ServerReply, receive, reply_accepted, is_rejection};
use crate::request::{Request, RequestBody};

verus! {

/// Body of the first signing request: the session identifier and the
/// serialized ephemeral first message of the client.
#[derive(Debug, Clone)]
#[allow(non_snake_case)]
pub struct SignFirstRequest {
    pub id: String,
    pub ephKeyGenFirstMsg: String,
}

/// Body of the second signing request: the session identifier and the
/// serialized partial signature, digest and derivation path.
#[derive(Debug, Clone)]
#[allow(non_snake_case)]
pub struct SignSecondRequest {
    pub id: String,
    pub signSecondMsgReq: String,
}

/// The common prefix of the signing endpoints.
pub const SIGN_PATH_PRE: &'static str = "bitverse/wallet/v1/private/mpc/ecdsa/sign";

/// Where a signing stands.
#[derive(Debug, Clone, Copy, PartialEq, Eq, Structural)]
pub enum SignPhase {
    /// Waiting for the remote ephemeral first message.
    AwaitingFirst,
    /// Waiting for the caller to decode it and compute the partial signature.
    DecodingFirst,
    /// Waiting for the signature.
    AwaitingSecond,
    /// Waiting for the caller to decode the signature.
    DecodingSecond,
    Done,
    Failed,
}

/// What the caller reports to a signing.
#[derive(Debug, Clone)]
pub enum SignEvent {
    /// The answer to the last request; `None` when the transport failed.
    Reply(Option<ServerReply>),
    /// The remote ephemeral message decoded, and the partial signature with
    /// the digest and the derivation path was serialized.
    PartialSigned { sign_second_msg_req: String },
    /// The signature decoded.
    Signed,
    /// A payload did not decode, or a local step failed.
    LocalFailure(ClientError),
}

/// What a signing asks of the caller next.
#[derive(Debug, Clone)]
pub enum SignAction {
    /// Send this request and report the answer.
    Send(Request),
    /// Decode this payload and report.
    Decode { payload: String },
    /// The signature is the payload last decoded.
    Finish,
    /// Signing stopped; no signature is produced.
    Abort(ClientError),
}

/// A signing in progress, within the session `id` of the key share.
#[derive(Debug)]
pub struct Signing {
    pub phase: SignPhase,
    pub id: String,
}

/// The phase after `ev` arrives in phase `p`.
pub open spec fn sign_next(p: SignPhase, ev: SignEvent) -> SignPhase {
    match (p, ev) {
        (SignPhase::AwaitingFirst, SignEvent::Reply(rep)) =>
            if rep is Some && reply_accepted(rep->0) { SignPhase::DecodingFirst } else { SignPhase::Failed },
        (SignPhase::AwaitingSecond, SignEvent::Reply(rep)) =>
            if rep is Some && reply_accepted(rep->0) { SignPhase::DecodingSecond } else { SignPhase::Failed },
        (SignPhase::DecodingFirst, SignEvent::PartialSigned { .. }) => SignPhase::AwaitingSecond,
        (SignPhase::DecodingSecond, SignEvent::Signed) => SignPhase::Done,
        (SignPhase::Done, _) => SignPhase::Done,
        _ => SignPhase::Failed,
    }
}

/// The phase after a run of events.
pub open spec fn sign_run(p: SignPhase, evs: Seq<SignEvent>) -> SignPhase
    decreases evs.len(),
{
    if evs.len() == 0 {
        p
    } else {
        sign_run(sign_next(p, evs[0]), evs.drop_first())
    }
}

/// Once signing has failed, it stays failed and sends no request, whatever is
/// reported afterwards: no partial signing material goes out again.
pub proof fn lemma_sign_failure_is_final(evs: Seq<SignEvent>)
    ensures
        sign_run(SignPhase::Failed, evs) == SignPhase::Failed,
        forall|i: int| 0 <= i < evs.len() ==> sign_next(SignPhase::Failed, #[trigger] evs[i]) == SignPhase::Failed,
    decreases evs.len(),
{
    if evs.len() > 0 {
        lemma_sign_failure_is_final(evs.drop_first());
    }
}

/// The path of a signing endpoint: the common prefix and a suffix.
pub open spec fn sign_path(suffix: Seq<char>) -> Seq<char> {
    SIGN_PATH_PRE@ + suffix
}

fn sign_path_of(suffix: &str) -> (r: String)
    ensures
        r@ == sign_path(suffix@),
{
    let mut p = String::from_str(SIGN_PATH_PRE);
    p.append(suffix);
    p
}

/// Starts a signing in session `id` with the client's serialized ephemeral
/// first message: the first request carries both, and the run waits for its
/// answer.
pub fn sign(id: String, eph_key_gen_first_msg: String) -> (r: (Signing, Request))
    ensures
        r.0.phase == SignPhase::AwaitingFirst,
        r.0.id@ == id@,
        r.1.path@ == sign_path("/first"@),
        r.1.body is SignFirst,
        r.1.body->SignFirst_0.id@ == id@,
        r.1.body->SignFirst_0.ephKeyGenFirstMsg@ == eph_key_gen_first_msg@,
{
    let body = RequestBody::SignFirst(SignFirstRequest { id: id.clone(), ephKeyGenFirstMsg: eph_key_gen_first_msg });
    (Signing { phase: SignPhase::AwaitingFirst, id }, Request { path: sign_path_of("/first"), body })
}

impl Signing {
    /// Takes in one event and says what to do next.
    pub fn step(&mut self, ev: SignEvent) -> (a: SignAction)
        ensures
            final(self).phase == sign_next(old(self).phase, ev),
            final(self).id@ == old(self).id@,
            // an answer: a transport failure or a rejected reply aborts, an accepted one is handed on
            (old(self).phase == SignPhase::AwaitingFirst || old(self).phase == SignPhase::AwaitingSecond)
                && ev is Reply ==> {
                let rep = ev->Reply_0;
                &&& rep is None ==> a is Abort && a->Abort_0 is Transport
                        && a->Abort_0->Transport_0@ == (if old(self).phase == SignPhase::AwaitingFirst {
                            "party1 sign first message request failed"@
                        } else {
                            "party1 sign second message request failed"@
                        })
                &&& rep is Some && !reply_accepted(rep->0) ==> a is Abort && is_rejection(rep->0, a->Abort_0)
                &&& rep is Some && reply_accepted(rep->0) ==> a is Decode
                        && a->Decode_payload@ == rep->0.result->0@
            },
            // the second request, in the same session
            old(self).phase == SignPhase::DecodingFirst && ev is PartialSigned ==> {
                &&& a is Send && a->Send_0.path@ == sign_path("/second"@)
                &&& a->Send_0.body is SignSecond
                &&& a->Send_0.body->SignSecond_0.id@ == old(self).id@
                &&& a->Send_0.body->SignSecond_0.signSecondMsgReq@ == ev->PartialSigned_sign_second_msg_req@
            },
            old(self).phase == SignPhase::DecodingSecond && ev is Signed ==> a is Finish,
            // a local failure is passed on as it is
            ev is LocalFailure && old(self).phase != SignPhase::Done ==> (
                a is Abort && a->Abort_0 == ev->LocalFailure_0),
            a is Send <==> sign_next(old(self).phase, ev) == SignPhase::AwaitingSecond,
            a is Finish ==> old(self).phase == SignPhase::DecodingSecond,
            final(self).phase == SignPhase::Failed ==> a is Abort,
    {
        proof {
            reveal_strlit("party1 sign first message request failed");
            reveal_strlit("party1 sign second message request failed");
        }
        match (self.phase, ev) {
            (SignPhase::AwaitingFirst, SignEvent::Reply(rep)) => {
                match receive(rep, "party1 sign first message request failed") {
                    Ok(payload) => {
                        self.phase = SignPhase::DecodingFirst;
                        SignAction::Decode { payload }
                    },
                    Err(e) => {
                        self.phase = SignPhase::Failed;
                        SignAction::Abort(e)
                    },
                }
            },
            (SignPhase::AwaitingSecond, SignEvent::Reply(rep)) => {
                match receive(rep, "party1 sign second message request failed") {
                    Ok(payload) => {
                        self.phase = SignPhase::DecodingSecond;
                        SignAction::Decode { payload }
                    },
                    Err(e) => {
                        self.phase = SignPhase::Failed;
                        SignAction::Abort(e)
                    },
                }
            },
            (SignPhase::DecodingFirst, SignEvent::PartialSigned { sign_second_msg_req }) => {
                self.phase = SignPhase::AwaitingSecond;
                let body = RequestBody::SignSecond(SignSecondRequest {
                    id: self.id.clone(),
                    signSecondMsgReq: sign_second_msg_req,
                });
                SignAction::Send(Request { path: sign_path_of("/second"), body })
            },
            (SignPhase::DecodingSecond, SignEvent::Signed) => {
                self.phase = SignPhase::Done;
                SignAction::Finish
            },
            (SignPhase::Done, _) => {
                proof { reveal_strlit("signing is already complete"); }
                SignAction::Abort(ClientError::Sequence(String::from_str("signing is already complete")))
            },
            (_, SignEvent::LocalFailure(e)) => {
                self.phase = SignPhase::Failed;
                SignAction::Abort(e)
            },
            _ => {
                self.phase = SignPhase::Failed;
                proof { reveal_strlit("event out of order in signing"); }
                SignAction::Abort(ClientError::Sequence(String::from_str("event out of order in signing")))
            },
        }
    }
}

} // verus!
