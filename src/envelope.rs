//! The uniform envelope in which every entry point hands back its outcome.
use vstd::prelude::*;
use vstd::string::StringExecFns;
use crate::reply::{ClientError, error_text, SUCCESS_CODE, SYSTEM_ERROR_CODE};

verus! {

/// The outcome of an entry point: `ret_code` is zero and `result` holds the
/// serialized output on success; on failure `ret_code` is non-zero, `ret_msg`
/// says why and `result` is empty.
#[derive(Debug, Clone)]
pub struct CResult {
    pub ret_code: i32,
    pub ret_msg: String,
    pub result: String,
}

/// The text of a failed envelope's message.
pub open spec fn failure_text(context: Seq<char>, e: ClientError) -> Seq<char> {
    seq!['E', 'r', 'r', 'o', 'r', ':', ' '] + context + error_text(e)
}

impl CResult {
    /// Success and failure are told apart by the code alone: success carries a
    /// result, failure none.
    pub open spec fn wf(&self) -> bool {
        &&& (self.ret_code == SUCCESS_CODE) <==> self.result@.len() > 0
        &&& self.ret_code != SUCCESS_CODE ==> self.result@.len() == 0
    }

    /// A failed envelope whose message is `Error: ` followed by `message`.
    pub fn failure(message: &str) -> (r: CResult)
        ensures
            r.wf(),
            r.ret_code == SYSTEM_ERROR_CODE,
            r.ret_msg@ == seq!['E', 'r', 'r', 'o', 'r', ':', ' '] + message@,
            r.result@.len() == 0,
    {
        proof { reveal_strlit("Error: "); }
        let mut msg = String::from_str("Error: ");
        msg.append(message);
        CResult { ret_code: SYSTEM_ERROR_CODE, ret_msg: msg, result: String::new() }
    }

    /// The envelope of an outcome. A serialized output becomes a success with
    /// message `OK`; an error becomes a failure whose message is `Error: `, the
    /// context, and the error's text. An empty output is no output: it is
    /// reported as a failure.
    pub fn from_outcome(outcome: Result<String, ClientError>, context: &str) -> (r: CResult)
        ensures
            r.wf(),
            outcome is Ok && outcome->Ok_0@.len() > 0 ==> {
                &&& r.ret_code == SUCCESS_CODE
                &&& r.ret_msg@ == seq!['O', 'K']
                &&& r.result@ == outcome->Ok_0@
            },
            outcome is Ok && outcome->Ok_0@.len() == 0 ==> r.ret_code == SYSTEM_ERROR_CODE,
            outcome is Err ==> {
                &&& r.ret_code == SYSTEM_ERROR_CODE
                &&& r.ret_msg@ == failure_text(context@, outcome->Err_0)
                &&& r.result@.len() == 0
            },
    {
        match outcome {
            Ok(s) => {
                if s.as_str().is_empty() {
                    proof { reveal_strlit("empty result"); }
                    CResult::failure("empty result")
                } else {
                    proof { reveal_strlit("OK"); }
                    CResult { ret_code: SUCCESS_CODE, ret_msg: String::from_str("OK"), result: s }
                }
            },
            Err(e) => {
                let mut text = String::from_str(context);
                let t = e.text();
                text.append(t.as_str());
                let r = CResult::failure(text.as_str());
                assert(r.ret_msg@ =~= failure_text(context@, e));
                r
            },
        }
    }
}

} // verus!
