use mpc_client::decimal::decimal_text;
use mpc_client::envelope::CResult;
use mpc_client::keygen::{KeyGen, KeyGenAction, KeyGenEvent, KeyGenPhase, KeyGenRound, KG_PATH_PRE};
use mpc_client::reply::{check_reply, receive, ClientError, ServerReply, SUCCESS_CODE, SYSTEM_ERROR_CODE};
use mpc_client::request::RequestBody;
use mpc_client::sign::{sign, SignAction, SignEvent, SignPhase, SIGN_PATH_PRE};
use mpc_client::{signing_context, ClientShim};

fn ok_reply(payload: &str) -> ServerReply {
    ServerReply { ret_code: SUCCESS_CODE, ret_msg: "OK".to_string(), result: Some(payload.to_string()) }
}

fn err_reply(code: i32, msg: &str) -> ServerReply {
    ServerReply { ret_code: code, ret_msg: msg.to_string(), result: None }
}

/// Runs a key generation against a remote party that answers every round.
fn run_keygen(session: &str) -> (Vec<(String, RequestBody)>, KeyGenAction) {
    let mut sent = Vec::new();
    let (mut kg, first) = KeyGen::start();
    sent.push((first.path, first.body));
    let a = kg.step(KeyGenEvent::Reply(Some(ok_reply("[\"sid\",{}]"))));
    assert!(matches!(a, KeyGenAction::Decode { round: KeyGenRound::KeyGenFirst, .. }));
    let a = kg.step(KeyGenEvent::FirstDecoded { id: session.to_string(), d_log_proof: "proof1".to_string() });
    match a {
        KeyGenAction::Send(r) => sent.push((r.path, r.body)),
        _ => panic!("expected the second key-generation request"),
    }
    let a = kg.step(KeyGenEvent::Reply(Some(ok_reply("{}"))));
    assert!(matches!(a, KeyGenAction::Decode { round: KeyGenRound::KeyGenSecond, .. }));
    match kg.step(KeyGenEvent::SecondAccepted) {
        KeyGenAction::Send(r) => sent.push((r.path, r.body)),
        _ => panic!("expected the first chain-code request"),
    }
    let a = kg.step(KeyGenEvent::Reply(Some(ok_reply("{}"))));
    assert!(matches!(a, KeyGenAction::Decode { round: KeyGenRound::ChainCodeFirst, .. }));
    match kg.step(KeyGenEvent::ChainCodeDecoded { d_log_proof: "proof2".to_string() }) {
        KeyGenAction::Send(r) => sent.push((r.path, r.body)),
        _ => panic!("expected the second chain-code request"),
    }
    let a = kg.step(KeyGenEvent::Reply(Some(ok_reply("{}"))));
    assert!(matches!(a, KeyGenAction::Decode { round: KeyGenRound::ChainCodeSecond, .. }));
    let last = kg.step(KeyGenEvent::ChainCodeAccepted);
    assert_eq!(kg.phase, KeyGenPhase::Done);
    (sent, last)
}

#[test]
fn keygen_completes_with_a_cooperating_party() {
    let (sent, last) = run_keygen("session-7");
    assert_eq!(sent.len(), 4);
    assert_eq!(sent[0].0, format!("{}/first", KG_PATH_PRE));
    assert!(matches!(sent[0].1, RequestBody::Empty));
    assert_eq!(sent[1].0, format!("{}/second", KG_PATH_PRE));
    match &sent[1].1 {
        RequestBody::KeyGenSecond(b) => {
            assert_eq!(b.id, "session-7");
            assert_eq!(b.d_log_proof, "proof1");
        }
        _ => panic!("wrong body"),
    }
    assert_eq!(sent[2].0, format!("{}/chaincode/first", KG_PATH_PRE));
    match &sent[2].1 {
        RequestBody::ChainCodeFirst(b) => assert_eq!(b.id, "session-7"),
        _ => panic!("wrong body"),
    }
    assert_eq!(sent[3].0, format!("{}/chaincode/second", KG_PATH_PRE));
    match &sent[3].1 {
        RequestBody::ChainCodeSecond(b) => {
            assert_eq!(b.id, "session-7");
            assert_eq!(b.d_log_proof, "proof2");
        }
        _ => panic!("wrong body"),
    }
    match last {
        KeyGenAction::Finish { id } => assert_eq!(id, "session-7"),
        _ => panic!("expected the end of key generation"),
    }
}

#[test]
fn keygen_first_rejection_sends_nothing_more() {
    let (mut kg, _) = KeyGen::start();
    match kg.step(KeyGenEvent::Reply(Some(err_reply(500, "busy")))) {
        KeyGenAction::Abort(ClientError::Protocol { code, message }) => {
            assert_eq!(code, 500);
            assert_eq!(message, "busy");
        }
        _ => panic!("expected a protocol error"),
    }
    assert_eq!(kg.phase, KeyGenPhase::Failed);
    let later = vec![
        KeyGenEvent::FirstDecoded { id: "x".to_string(), d_log_proof: "p".to_string() },
        KeyGenEvent::SecondAccepted,
        KeyGenEvent::Reply(Some(ok_reply("{}"))),
        KeyGenEvent::ChainCodeDecoded { d_log_proof: "p".to_string() },
        KeyGenEvent::ChainCodeAccepted,
    ];
    for ev in later {
        assert!(matches!(kg.step(ev), KeyGenAction::Abort(_)));
        assert_eq!(kg.phase, KeyGenPhase::Failed);
    }
    let env = CResult::from_outcome(Err(ClientError::Protocol { code: 500, message: "busy".to_string() }), "");
    assert_ne!(env.ret_code, 0);
    assert_eq!(env.ret_msg, "Error: 500:busy");
    assert_eq!(env.result, "");
}

#[test]
fn keygen_transport_failure_is_a_net_error() {
    let (mut kg, _) = KeyGen::start();
    match kg.step(KeyGenEvent::Reply(None)) {
        KeyGenAction::Abort(ClientError::Transport(s)) => assert_eq!(s, "Net error!"),
        _ => panic!("expected a transport error"),
    }
    assert_eq!(kg.phase, KeyGenPhase::Failed);
}

#[test]
fn keygen_success_code_without_payload_is_rejected() {
    let (mut kg, _) = KeyGen::start();
    let a = kg.step(KeyGenEvent::Reply(Some(ServerReply {
        ret_code: SUCCESS_CODE,
        ret_msg: "no content".to_string(),
        result: None,
    })));
    match a {
        KeyGenAction::Abort(ClientError::Decode(s)) => assert_eq!(s, "reply carries no payload"),
        _ => panic!("expected a decode error"),
    }
}

#[test]
fn keygen_local_failure_aborts() {
    let (mut kg, _) = KeyGen::start();
    let _ = kg.step(KeyGenEvent::Reply(Some(ok_reply("[]"))));
    let a = kg.step(KeyGenEvent::LocalFailure(ClientError::Decode("Parse content erro from server!".to_string())));
    match a {
        KeyGenAction::Abort(ClientError::Decode(s)) => assert_eq!(s, "Parse content erro from server!"),
        _ => panic!("expected a decode error"),
    }
    assert_eq!(kg.phase, KeyGenPhase::Failed);
}

#[test]
fn keygen_event_out_of_order_fails() {
    let (mut kg, _) = KeyGen::start();
    assert!(matches!(kg.step(KeyGenEvent::SecondAccepted), KeyGenAction::Abort(ClientError::Sequence(_))));
    assert_eq!(kg.phase, KeyGenPhase::Failed);
}

#[test]
fn signing_threads_the_session_identifier() {
    let (_, finish) = run_keygen("sid-42");
    let id = match finish {
        KeyGenAction::Finish { id } => id,
        _ => panic!("expected the end of key generation"),
    };
    let (mut s, first) = sign(id.clone(), "eph1".to_string());
    assert_eq!(first.path, format!("{}/first", SIGN_PATH_PRE));
    match &first.body {
        RequestBody::SignFirst(b) => {
            assert_eq!(b.id, "sid-42");
            assert_eq!(b.ephKeyGenFirstMsg, "eph1");
        }
        _ => panic!("wrong body"),
    }
    match s.step(SignEvent::Reply(Some(ok_reply("{\"m\":1}")))) {
        SignAction::Decode { payload } => assert_eq!(payload, "{\"m\":1}"),
        _ => panic!("expected a payload to decode"),
    }
    match s.step(SignEvent::PartialSigned { sign_second_msg_req: "partial".to_string() }) {
        SignAction::Send(r) => {
            assert_eq!(r.path, format!("{}/second", SIGN_PATH_PRE));
            match r.body {
                RequestBody::SignSecond(b) => {
                    assert_eq!(b.id, "sid-42");
                    assert_eq!(b.signSecondMsgReq, "partial");
                }
                _ => panic!("wrong body"),
            }
        }
        _ => panic!("expected the second signing request"),
    }
    assert!(matches!(s.step(SignEvent::Reply(Some(ok_reply("{\"r\":1}")))), SignAction::Decode { .. }));
    assert!(matches!(s.step(SignEvent::Signed), SignAction::Finish));
    assert_eq!(s.phase, SignPhase::Done);
    assert_eq!(s.id, "sid-42");
}

#[test]
fn signing_second_round_error_code_reaches_the_envelope() {
    let (mut s, _) = sign("sid".to_string(), "eph".to_string());
    let _ = s.step(SignEvent::Reply(Some(ok_reply("{}"))));
    let _ = s.step(SignEvent::PartialSigned { sign_second_msg_req: "partial".to_string() });
    let a = s.step(SignEvent::Reply(Some(err_reply(42, "bad share"))));
    assert_eq!(s.phase, SignPhase::Failed);
    let e = match a {
        SignAction::Abort(e) => e,
        _ => panic!("expected a protocol error"),
    };
    let env = CResult::from_outcome(Err(e), &signing_context("http://h"));
    assert_ne!(env.ret_code, 0);
    assert_eq!(env.ret_code, SYSTEM_ERROR_CODE);
    assert!(env.ret_msg.contains("42"));
    assert_eq!(env.ret_msg, "Error: signing to endpoint http://h failed: 42:bad share");
    assert_eq!(env.result, "");
}

#[test]
fn signing_transport_failures_name_the_round() {
    let (mut s, _) = sign("sid".to_string(), "eph".to_string());
    match s.step(SignEvent::Reply(None)) {
        SignAction::Abort(ClientError::Transport(m)) => assert_eq!(m, "party1 sign first message request failed"),
        _ => panic!("expected a transport error"),
    }
    let (mut s, _) = sign("sid".to_string(), "eph".to_string());
    let _ = s.step(SignEvent::Reply(Some(ok_reply("{}"))));
    let _ = s.step(SignEvent::PartialSigned { sign_second_msg_req: "p".to_string() });
    match s.step(SignEvent::Reply(None)) {
        SignAction::Abort(ClientError::Transport(m)) => assert_eq!(m, "party1 sign second message request failed"),
        _ => panic!("expected a transport error"),
    }
}

#[test]
fn envelope_success_and_failure() {
    let ok = CResult::from_outcome(Ok("\"abc\"".to_string()), "");
    assert_eq!(ok.ret_code, 0);
    assert_eq!(ok.ret_msg, "OK");
    assert_eq!(ok.result, "\"abc\"");
    let empty = CResult::from_outcome(Ok(String::new()), "");
    assert_ne!(empty.ret_code, 0);
    assert_eq!(empty.result, "");
    let bad = CResult::failure("decoding raw endpoint failed: x");
    assert_eq!(bad.ret_code, 10104000);
    assert_eq!(bad.ret_msg, "Error: decoding raw endpoint failed: x");
    assert_eq!(bad.result, "");
}

#[test]
fn reply_checks() {
    assert_eq!(check_reply(ok_reply("p")).ok(), Some("p".to_string()));
    match check_reply(err_reply(7, "m")) {
        Err(ClientError::Protocol { code, message }) => {
            assert_eq!(code, 7);
            assert_eq!(message, "m");
        }
        _ => panic!("expected a protocol error"),
    }
    let with_payload = ServerReply { ret_code: 3, ret_msg: "x".to_string(), result: Some("p".to_string()) };
    match check_reply(with_payload) {
        Err(e) => assert_eq!(e.text(), "3:x"),
        _ => panic!("expected a protocol error"),
    }
    match receive(None, "lost") {
        Err(ClientError::Transport(s)) => assert_eq!(s, "lost"),
        _ => panic!("expected a transport error"),
    }
}

#[test]
fn decimal_text_of_codes() {
    assert_eq!(decimal_text(0), "0");
    assert_eq!(decimal_text(42), "42");
    assert_eq!(decimal_text(-7), "-7");
    assert_eq!(decimal_text(10104000), "10104000");
    assert_eq!(decimal_text(i32::MIN), "-2147483648");
    assert_eq!(decimal_text(i32::MAX), "2147483647");
}

#[test]
fn client_shim_addresses() {
    let c = ClientShim::new("https://wallet.example".to_string(), Some("tok".to_string()));
    assert_eq!(c.url("a/b/first"), "https://wallet.example/a/b/first");
    assert_eq!(c.auth_token, Some("tok".to_string()));
    assert_eq!(signing_context("e"), "signing to endpoint e failed: ");
}

#[test]
fn finished_runs_ask_for_nothing_more() {
    let (mut s, _) = sign("sid".to_string(), "eph".to_string());
    let _ = s.step(SignEvent::Reply(Some(ok_reply("{}"))));
    let _ = s.step(SignEvent::PartialSigned { sign_second_msg_req: "p".to_string() });
    let _ = s.step(SignEvent::Reply(Some(ok_reply("{}"))));
    assert!(matches!(s.step(SignEvent::Signed), SignAction::Finish));
    assert!(matches!(s.step(SignEvent::Signed), SignAction::Abort(ClientError::Sequence(_))));
    assert_eq!(s.phase, SignPhase::Done);
    let (mut s, _) = sign("sid".to_string(), "eph".to_string());
    let _ = s.step(SignEvent::Reply(Some(err_reply(1, "no"))));
    assert_eq!(s.phase, SignPhase::Failed);
    assert!(matches!(s.step(SignEvent::Reply(Some(ok_reply("{}")))), SignAction::Abort(_)));
    assert_eq!(s.phase, SignPhase::Failed);
}

#[test]
fn error_texts() {
    assert_eq!(ClientError::InputDecode("a".to_string()).text(), "a");
    assert_eq!(ClientError::Transport("b".to_string()).text(), "b");
    assert_eq!(ClientError::Protocol { code: -3, message: "c".to_string() }.text(), "-3:c");
    assert_eq!(ClientError::Decode("d".to_string()).text(), "d");
    assert_eq!(ClientError::Verification("e".to_string()).text(), "e");
    assert_eq!(ClientError::Sequence("f".to_string()).text(), "f");
    let env = CResult::from_outcome(Err(ClientError::Verification("bad proof".to_string())), "ctx: ");
    assert_eq!(env.ret_msg, "Error: ctx: bad proof");
}
