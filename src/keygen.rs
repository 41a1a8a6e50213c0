//! Key generation: the two rounds that produce the key share and the two
//! rounds of the chain-code exchange, run strictly in turn.
use vstd::prelude::*;
use vstd::string::StringExecFns;
use crate::reply::{ClientError, ServerReply, receive, reply_accepted, is_rejection};
use crate::request::{Request, RequestBody};

verus! {

/// The common prefix of the key-generation endpoints.
pub const KG_PATH_PRE: &'static str = "bitverse/wallet/v1/private/mpc/ecdsa/keygen";

/// Body of the second key-generation request: the session identifier and the
/// serialized discrete-log proof of the client's first message.
#[derive(Debug, Clone)]
pub struct KeyGenSecondReq {
    pub id: String,
    pub d_log_proof: String,
}

/// Body of the first chain-code request.
#[derive(Debug, Clone)]
pub struct ChainCodeFirstReq {
    pub id: String,
}

/// Body of the second chain-code request: the session identifier and the
/// serialized discrete-log proof of the client's chain-code message.
#[derive(Debug, Clone)]
pub struct ChainCodeSecondReq {
    pub id: String,
    pub d_log_proof: String,
}

/// The four exchanges of key generation, in the order in which they run.
#[derive(Debug, Clone, Copy, PartialEq, Eq, Structural)]
pub enum KeyGenRound {
    KeyGenFirst,
    KeyGenSecond,
    ChainCodeFirst,
    ChainCodeSecond,
}

/// Where a key generation stands: waiting for the answer to a round's
/// request, waiting for the caller to decode that answer and do the local
/// cryptographic step, finished, or stopped for good.
#[derive(Debug, Clone, Copy, PartialEq, Eq, Structural)]
pub enum KeyGenPhase {
    Awaiting(KeyGenRound),
    Decoding(KeyGenRound),
    Done,
    Failed,
}

/// What the caller reports to a key generation.
#[derive(Debug, Clone)]
pub enum KeyGenEvent {
    /// The answer to the last request; `None` when the transport failed.
    Reply(Option<ServerReply>),
    /// The first answer decoded to the session identifier and the remote
    /// first message, and the client's first message was made.
    FirstDecoded { id: String, d_log_proof: String },
    /// The second answer decoded and the client's share was computed from it.
    SecondAccepted,
    /// The first chain-code answer decoded and the client's chain-code message was made.
    ChainCodeDecoded { d_log_proof: String },
    /// The second chain-code answer decoded and verified; the chain code is known.
    ChainCodeAccepted,
    /// A payload did not decode, or a proof of the remote party did not check.
    LocalFailure(ClientError),
}

/// What a key generation asks of the caller next.
#[derive(Debug, Clone)]
pub enum KeyGenAction {
    /// Send this request and report the answer.
    Send(Request),
    /// Decode this payload as the remote message of `round`, do the local step, and report.
    Decode { round: KeyGenRound, payload: String },
    /// Key generation is complete; the share belongs to session `id`.
    Finish { id: String },
    /// Key generation stopped; nothing of it is kept.
    Abort(ClientError),
}

/// A key generation in progress: the phase and the session identifier that
/// the remote party gave.
#[derive(Debug)]
pub struct KeyGen {
    pub phase: KeyGenPhase,
    pub id: String,
}

/// The phase after `ev` arrives in phase `p`: each round's answer, when
/// accepted, goes to decoding and each local step to the next round; any
/// other event, and any failure, ends the run for good.
pub open spec fn kg_next(p: KeyGenPhase, ev: KeyGenEvent) -> KeyGenPhase {
    match (p, ev) {
        (KeyGenPhase::Awaiting(r), KeyGenEvent::Reply(rep)) =>
            if rep is Some && reply_accepted(rep->0) { KeyGenPhase::Decoding(r) } else { KeyGenPhase::Failed },
        (KeyGenPhase::Decoding(KeyGenRound::KeyGenFirst), KeyGenEvent::FirstDecoded { .. }) =>
            KeyGenPhase::Awaiting(KeyGenRound::KeyGenSecond),
        (KeyGenPhase::Decoding(KeyGenRound::KeyGenSecond), KeyGenEvent::SecondAccepted) =>
            KeyGenPhase::Awaiting(KeyGenRound::ChainCodeFirst),
        (KeyGenPhase::Decoding(KeyGenRound::ChainCodeFirst), KeyGenEvent::ChainCodeDecoded { .. }) =>
            KeyGenPhase::Awaiting(KeyGenRound::ChainCodeSecond),
        (KeyGenPhase::Decoding(KeyGenRound::ChainCodeSecond), KeyGenEvent::ChainCodeAccepted) =>
            KeyGenPhase::Done,
        (KeyGenPhase::Done, _) => KeyGenPhase::Done,
        _ => KeyGenPhase::Failed,
    }
}

/// The phase after a run of events.
pub open spec fn kg_run(p: KeyGenPhase, evs: Seq<KeyGenEvent>) -> KeyGenPhase
    decreases evs.len(),
{
    if evs.len() == 0 {
        p
    } else {
        kg_run(kg_next(p, evs[0]), evs.drop_first())
    }
}

/// A request goes out exactly when a local step moves the run to a new round.
pub open spec fn kg_sends(p: KeyGenPhase, ev: KeyGenEvent) -> bool {
    kg_next(p, ev) is Awaiting
}

/// Once key generation has failed, it stays failed and sends no request,
/// whatever is reported afterwards.
pub proof fn lemma_failure_is_final(evs: Seq<KeyGenEvent>)
    ensures
        kg_run(KeyGenPhase::Failed, evs) == KeyGenPhase::Failed,
        forall|i: int| 0 <= i < evs.len() ==> !kg_sends(KeyGenPhase::Failed, #[trigger] evs[i]),
    decreases evs.len(),
{
    if evs.len() > 0 {
        lemma_failure_is_final(evs.drop_first());
    }
}

/// When the answer to the first key-generation request is missing or carries
/// a status other than success, key generation fails at once and no further
/// request is sent, whatever is reported afterwards.
pub proof fn lemma_first_rejection_stops(rep: Option<ServerReply>, evs: Seq<KeyGenEvent>)
    requires
        !(rep is Some && reply_accepted(rep->0)),
    ensures
        kg_next(KeyGenPhase::Awaiting(KeyGenRound::KeyGenFirst), KeyGenEvent::Reply(rep)) == KeyGenPhase::Failed,
        kg_run(KeyGenPhase::Awaiting(KeyGenRound::KeyGenFirst), seq![KeyGenEvent::Reply(rep)] + evs) == KeyGenPhase::Failed,
        forall|i: int| 0 <= i < evs.len() ==> !kg_sends(KeyGenPhase::Failed, #[trigger] evs[i]),
{
    let all = seq![KeyGenEvent::Reply(rep)] + evs;
    assert(all[0] == KeyGenEvent::Reply(rep));
    assert(all.drop_first() =~= evs);
    lemma_failure_is_final(evs);
}

/// A key generation in which every answer is accepted and every local step
/// succeeds ends complete after the four exchanges.
pub proof fn lemma_cooperative_run_completes(
    r1: ServerReply, r2: ServerReply, r3: ServerReply, r4: ServerReply,
    id: String, kg_proof: String, cc_proof: String,
)
    requires
        reply_accepted(r1),
        reply_accepted(r2),
        reply_accepted(r3),
        reply_accepted(r4),
    ensures
        kg_run(KeyGenPhase::Awaiting(KeyGenRound::KeyGenFirst), seq![
            KeyGenEvent::Reply(Some(r1)),
            KeyGenEvent::FirstDecoded { id, d_log_proof: kg_proof },
            KeyGenEvent::Reply(Some(r2)),
            KeyGenEvent::SecondAccepted,
            KeyGenEvent::Reply(Some(r3)),
            KeyGenEvent::ChainCodeDecoded { d_log_proof: cc_proof },
            KeyGenEvent::Reply(Some(r4)),
            KeyGenEvent::ChainCodeAccepted,
        ]) == KeyGenPhase::Done,
{
    let evs = seq![
        KeyGenEvent::Reply(Some(r1)),
        KeyGenEvent::FirstDecoded { id, d_log_proof: kg_proof },
        KeyGenEvent::Reply(Some(r2)),
        KeyGenEvent::SecondAccepted,
        KeyGenEvent::Reply(Some(r3)),
        KeyGenEvent::ChainCodeDecoded { d_log_proof: cc_proof },
        KeyGenEvent::Reply(Some(r4)),
        KeyGenEvent::ChainCodeAccepted,
    ];
    assert(evs.drop_first() =~= evs.subrange(1, 8));
    assert(evs.subrange(1, 8)[0] == evs[1] && evs.subrange(1, 8).drop_first() =~= evs.subrange(2, 8));
    assert(evs.subrange(2, 8)[0] == evs[2] && evs.subrange(2, 8).drop_first() =~= evs.subrange(3, 8));
    assert(evs.subrange(3, 8)[0] == evs[3] && evs.subrange(3, 8).drop_first() =~= evs.subrange(4, 8));
    assert(evs.subrange(4, 8)[0] == evs[4] && evs.subrange(4, 8).drop_first() =~= evs.subrange(5, 8));
    assert(evs.subrange(5, 8)[0] == evs[5] && evs.subrange(5, 8).drop_first() =~= evs.subrange(6, 8));
    assert(evs.subrange(6, 8)[0] == evs[6] && evs.subrange(6, 8).drop_first() =~= evs.subrange(7, 8));
    assert(evs.subrange(7, 8)[0] == evs[7] && evs.subrange(7, 8).drop_first() =~= evs.subrange(8, 8));
    assert(kg_run(KeyGenPhase::Done, evs.subrange(8, 8)) == KeyGenPhase::Done);
    assert(kg_run(KeyGenPhase::Decoding(KeyGenRound::ChainCodeSecond), evs.subrange(7, 8)) == KeyGenPhase::Done);
    assert(kg_run(KeyGenPhase::Awaiting(KeyGenRound::ChainCodeSecond), evs.subrange(6, 8)) == KeyGenPhase::Done);
    assert(kg_run(KeyGenPhase::Decoding(KeyGenRound::ChainCodeFirst), evs.subrange(5, 8)) == KeyGenPhase::Done);
    assert(kg_run(KeyGenPhase::Awaiting(KeyGenRound::ChainCodeFirst), evs.subrange(4, 8)) == KeyGenPhase::Done);
    assert(kg_run(KeyGenPhase::Decoding(KeyGenRound::KeyGenSecond), evs.subrange(3, 8)) == KeyGenPhase::Done);
    assert(kg_run(KeyGenPhase::Awaiting(KeyGenRound::KeyGenSecond), evs.subrange(2, 8)) == KeyGenPhase::Done);
    assert(kg_run(KeyGenPhase::Decoding(KeyGenRound::KeyGenFirst), evs.subrange(1, 8)) == KeyGenPhase::Done);
}

/// The path of a key-generation endpoint: the common prefix and a suffix.
pub open spec fn kg_path(suffix: Seq<char>) -> Seq<char> {
    KG_PATH_PRE@ + suffix
}

fn kg_path_of(suffix: &str) -> (r: String)
    ensures
        r@ == kg_path(suffix@),
{
    let mut p = String::from_str(KG_PATH_PRE);
    p.append(suffix);
    p
}

impl KeyGen {
    /// Starts a key generation: the first request has an empty body, and the
    /// run waits for its answer.
    pub fn start() -> (r: (KeyGen, Request))
        ensures
            r.0.phase == KeyGenPhase::Awaiting(KeyGenRound::KeyGenFirst),
            r.0.id@.len() == 0,
            r.1.path@ == kg_path("/first"@),
            r.1.body is Empty,
    {
        let req = Request { path: kg_path_of("/first"), body: RequestBody::Empty };
        (KeyGen { phase: KeyGenPhase::Awaiting(KeyGenRound::KeyGenFirst), id: String::new() }, req)
    }

    /// Takes in one event and says what to do next.
    pub fn step(&mut self, ev: KeyGenEvent) -> (a: KeyGenAction)
        ensures
            final(self).phase == kg_next(old(self).phase, ev),
            // an answer: a transport failure or a rejected reply aborts, an accepted one is handed on
            old(self).phase is Awaiting && ev is Reply ==> {
                let rep = ev->Reply_0;
                &&& rep is None ==> a is Abort && a->Abort_0 is Transport
                        && a->Abort_0->Transport_0@ == "Net error!"@
                &&& rep is Some && !reply_accepted(rep->0) ==> a is Abort && is_rejection(rep->0, a->Abort_0)
                &&& rep is Some && reply_accepted(rep->0) ==> a is Decode
                        && old(self).phase == KeyGenPhase::Awaiting(a->Decode_round)
                        && a->Decode_payload@ == rep->0.result->0@
            },
            // the session identifier is set by the first answer and kept unchanged after it
            old(self).phase == KeyGenPhase::Decoding(KeyGenRound::KeyGenFirst) && ev is FirstDecoded
                ==> final(self).id@ == ev->FirstDecoded_id@,
            !(old(self).phase == KeyGenPhase::Decoding(KeyGenRound::KeyGenFirst) && ev is FirstDecoded)
                ==> final(self).id@ == old(self).id@,
            // the requests of the later rounds
            old(self).phase == KeyGenPhase::Decoding(KeyGenRound::KeyGenFirst) && ev is FirstDecoded ==> {
                &&& a is Send && a->Send_0.path@ == kg_path("/second"@)
                &&& a->Send_0.body is KeyGenSecond
                &&& a->Send_0.body->KeyGenSecond_0.id@ == ev->FirstDecoded_id@
                &&& a->Send_0.body->KeyGenSecond_0.d_log_proof@ == ev->FirstDecoded_d_log_proof@
            },
            old(self).phase == KeyGenPhase::Decoding(KeyGenRound::KeyGenSecond) && ev is SecondAccepted ==> {
                &&& a is Send && a->Send_0.path@ == kg_path("/chaincode/first"@)
                &&& a->Send_0.body is ChainCodeFirst
                &&& a->Send_0.body->ChainCodeFirst_0.id@ == old(self).id@
            },
            old(self).phase == KeyGenPhase::Decoding(KeyGenRound::ChainCodeFirst) && ev is ChainCodeDecoded ==> {
                &&& a is Send && a->Send_0.path@ == kg_path("/chaincode/second"@)
                &&& a->Send_0.body is ChainCodeSecond
                &&& a->Send_0.body->ChainCodeSecond_0.id@ == old(self).id@
                &&& a->Send_0.body->ChainCodeSecond_0.d_log_proof@ == ev->ChainCodeDecoded_d_log_proof@
            },
            old(self).phase == KeyGenPhase::Decoding(KeyGenRound::ChainCodeSecond) && ev is ChainCodeAccepted ==> (
                a is Finish && a->Finish_id@ == old(self).id@),
            // a local failure is passed on as it is
            ev is LocalFailure && old(self).phase != KeyGenPhase::Done ==> (
                a is Abort && a->Abort_0 == ev->LocalFailure_0),
            // a request goes out only on a move to a new round; a finished or
            // failed run asks for nothing but to stop
            a is Send <==> kg_sends(old(self).phase, ev),
            a is Decode ==> final(self).phase is Decoding,
            a is Finish ==> old(self).phase is Decoding && final(self).phase == KeyGenPhase::Done,
            final(self).phase == KeyGenPhase::Failed ==> a is Abort,
            final(self).phase == KeyGenPhase::Done ==> a is Finish || a is Abort,
    {
        proof {
            reveal_strlit("Net error!");
        }
        match (self.phase, ev) {
            (KeyGenPhase::Awaiting(r), KeyGenEvent::Reply(rep)) => {
                match receive(rep, "Net error!") {
                    Ok(payload) => {
                        self.phase = KeyGenPhase::Decoding(r);
                        KeyGenAction::Decode { round: r, payload }
                    },
                    Err(e) => {
                        self.phase = KeyGenPhase::Failed;
                        KeyGenAction::Abort(e)
                    },
                }
            },
            (KeyGenPhase::Decoding(KeyGenRound::KeyGenFirst), KeyGenEvent::FirstDecoded { id, d_log_proof }) => {
                self.id = id.clone();
                self.phase = KeyGenPhase::Awaiting(KeyGenRound::KeyGenSecond);
                let body = RequestBody::KeyGenSecond(KeyGenSecondReq { id, d_log_proof });
                KeyGenAction::Send(Request { path: kg_path_of("/second"), body })
            },
            (KeyGenPhase::Decoding(KeyGenRound::KeyGenSecond), KeyGenEvent::SecondAccepted) => {
                self.phase = KeyGenPhase::Awaiting(KeyGenRound::ChainCodeFirst);
                let body = RequestBody::ChainCodeFirst(ChainCodeFirstReq { id: self.id.clone() });
                KeyGenAction::Send(Request { path: kg_path_of("/chaincode/first"), body })
            },
            (KeyGenPhase::Decoding(KeyGenRound::ChainCodeFirst), KeyGenEvent::ChainCodeDecoded { d_log_proof }) => {
                self.phase = KeyGenPhase::Awaiting(KeyGenRound::ChainCodeSecond);
                let body = RequestBody::ChainCodeSecond(ChainCodeSecondReq { id: self.id.clone(), d_log_proof });
                KeyGenAction::Send(Request { path: kg_path_of("/chaincode/second"), body })
            },
            (KeyGenPhase::Decoding(KeyGenRound::ChainCodeSecond), KeyGenEvent::ChainCodeAccepted) => {
                self.phase = KeyGenPhase::Done;
                KeyGenAction::Finish { id: self.id.clone() }
            },
            (KeyGenPhase::Done, _) => {
                proof { reveal_strlit("key generation is already complete"); }
                KeyGenAction::Abort(ClientError::Sequence(String::from_str("key generation is already complete")))
            },
            (_, KeyGenEvent::LocalFailure(e)) => {
                self.phase = KeyGenPhase::Failed;
                KeyGenAction::Abort(e)
            },
            _ => {
                self.phase = KeyGenPhase::Failed;
                proof { reveal_strlit("event out of order in key generation"); }
                KeyGenAction::Abort(ClientError::Sequence(String::from_str("event out of order in key generation")))
            },
        }
    }
}

} // verus!
