//! Translation of a logical key token into outgoing protocol requests.
//!
//! Two tokens are reserved and handled here: `"<space>"` commits a single
//! space, `"<bksp>"` deletes one character of surrounding text.  Every other
//! token is committed verbatim.  Each translation ends with exactly one
//! `commit` carrying the session's current serial, so the edit reaches the
//! compositor as a single atomic unit.  The caller performs the requests
//! against the bound session object and flushes.

use vstd::prelude::*;
use crate::client::ProtocolClient;

verus! {

/// One outgoing request against the bound input-method session object.
#[derive(Debug, PartialEq, Eq)]
pub enum Request {
    /// Commit this text into the focused application.
    CommitString(String),
    /// Delete this many characters before, and after, the cursor.
    DeleteSurroundingText(u32, u32),
    /// Finalize the batch, carrying the serial last observed.
    Commit(u32),
}

/// Mathematical model of a request.
pub ghost enum RequestModel {
    CommitString(Seq<char>),
    DeleteSurroundingText(u32, u32),
    Commit(nat),
}

impl View for Request {
    type V = RequestModel;

    open spec fn view(&self) -> RequestModel {
        match self {
            Request::CommitString(s) => RequestModel::CommitString(s@),
            Request::DeleteSurroundingText(before, after) => RequestModel::DeleteSurroundingText(
                *before,
                *after,
            ),
            Request::Commit(serial) => RequestModel::Commit(*serial as nat),
        }
    }
}

/// The views of a request batch, in order.
pub open spec fn request_views(requests: Seq<Request>) -> Seq<RequestModel> {
    requests.map_values(|r: Request| r@)
}

/// The token that commits a single space.
pub open spec fn space_token() -> Seq<char> {
    "<space>"@
}

/// The token that deletes one character before the cursor.
pub open spec fn bksp_token() -> Seq<char> {
    "<bksp>"@
}

/// The requests one token translates to, given the current serial: the
/// token's edit, then exactly one commit of that serial.
pub open spec fn injection_plan(token: Seq<char>, serial: nat) -> Seq<RequestModel> {
    if token == space_token() {
        seq![RequestModel::CommitString(" "@), RequestModel::Commit(serial)]
    } else if token == bksp_token() {
        seq![RequestModel::DeleteSurroundingText(1, 0), RequestModel::Commit(serial)]
    } else {
        seq![RequestModel::CommitString(token), RequestModel::Commit(serial)]
    }
}

/// The shape of every injection: exactly two requests, the edit then exactly
/// one commit carrying the serial given to the plan.  A space commits a
/// single space; a backspace deletes one character before the cursor and
/// commits no text; any other token is committed verbatim.
pub proof fn lemma_injection_plan_shape(token: Seq<char>, serial: nat)
    ensures
        injection_plan(token, serial).len() == 2,
        injection_plan(token, serial)[1] == RequestModel::Commit(serial),
        !(injection_plan(token, serial)[0] is Commit),
        token == space_token() ==> injection_plan(token, serial)[0] == RequestModel::CommitString(
            " "@,
        ),
        token == bksp_token() ==> injection_plan(token, serial)[0]
            == RequestModel::DeleteSurroundingText(1, 0),
        token != space_token() && token != bksp_token() ==> injection_plan(token, serial)[0]
            == RequestModel::CommitString(token),
{
    reveal_strlit("<space>");
    reveal_strlit("<bksp>");
    assert(space_token().len() == 7);
    assert(bksp_token().len() == 6);
}

/// Translate one keystroke token.  With no session bound this is a silent
/// no-op; otherwise the batch follows `injection_plan`, its commit carrying
/// the serial current at the time of this call.
pub fn inject(token: String, client: &ProtocolClient) -> (requests: Vec<Request>)
    ensures
        client@.session is None ==> requests@ == Seq::<Request>::empty(),
        client@.session is Some ==> request_views(requests@) == injection_plan(
            token@,
            client@.session->Some_0.serial,
        ),
{
    let ghost tok: Seq<char> = token@;
    let mut requests: Vec<Request> = Vec::new();
    if !client.has_session() {
        proof {
            assert(requests@ =~= Seq::<Request>::empty());
        }
        return requests;
    }
    let serial = client.serial();
    if token == "<space>".to_owned() {
        requests.push(Request::CommitString(" ".to_owned()));
        requests.push(Request::Commit(serial));
    } else if token == "<bksp>".to_owned() {
        requests.push(Request::DeleteSurroundingText(1, 0));
        requests.push(Request::Commit(serial));
    } else {
        requests.push(Request::CommitString(token));
        requests.push(Request::Commit(serial));
    }
    proof {
        assert(request_views(requests@) =~= injection_plan(tok, client@.session->Some_0.serial));
    }
    requests
}

} // verus!
