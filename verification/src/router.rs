//! The router: the fixed mapping from request paths to handlers, and the
//! proof that the whole route surface answers with exactly the status
//! codes of the response table.

use vstd::prelude::*;
use crate::types::{Failure, Outcome, PersonRecord, StoreError};
use crate::encode::result_status;
use crate::handlers::{greet_post, insert_result, list_post, stateful_post};

verus! {

/// The four routes of the service.
#[derive(Clone, Copy, PartialEq, Eq, Structural, Debug)]
pub enum Route {
    Greet,
    StatefulMessage,
    InsertRecord,
    ListRecords,
}

/// The handler for a path: the four fixed paths in order, and no other.
pub open spec fn route_for(path: Seq<char>) -> Option<Route> {
    if path == ("/")@ {
        Some(Route::Greet)
    } else if path == ("/on_state")@ {
        Some(Route::StatefulMessage)
    } else if path == ("/insert")@ {
        Some(Route::InsertRecord)
    } else if path == ("/get")@ {
        Some(Route::ListRecords)
    } else {
        None
    }
}

/// Dispatches a request path to its route, or `None` for an unmatched
/// path, which the surrounding HTTP layer answers with its default.
pub fn route_of(path: &str) -> (r: Option<Route>)
    ensures
        r == route_for(path@),
{
    let p = path.to_owned();
    if p == "/".to_owned() {
        Some(Route::Greet)
    } else if p == "/on_state".to_owned() {
        Some(Route::StatefulMessage)
    } else if p == "/insert".to_owned() {
        Some(Route::InsertRecord)
    } else if p == "/get".to_owned() {
        Some(Route::ListRecords)
    } else {
        None
    }
}

/// The status code table of the route surface: each path reaches its
/// handler, the stateful-message route always answers 200, and every
/// other route answers its success code or 500, nothing else.
pub proof fn lemma_status_table()
    ensures
        route_for(("/")@) == Some(Route::Greet),
        route_for(("/on_state")@) == Some(Route::StatefulMessage),
        route_for(("/insert")@) == Some(Route::InsertRecord),
        route_for(("/get")@) == Some(Route::ListRecords),
        forall|r: Result<Outcome, Failure>| #[trigger] greet_post(r)
            ==> result_status(r) == 200 || result_status(r) == 500,
        forall|r: Result<Outcome, Failure>| #[trigger] stateful_post(r) ==> result_status(r) == 200,
        forall|res: Result<u64, StoreError>|
            #[trigger] result_status(insert_result(res)) == if res is Ok {
                200u16
            } else {
                500u16
            },
        forall|res: Result<Vec<PersonRecord>, StoreError>, r: Result<Outcome, Failure>|
            #[trigger] list_post(res, r) ==> result_status(r) == if res is Ok {
                200u16
            } else {
                500u16
            },
{
    reveal_strlit("/");
    reveal_strlit("/on_state");
    reveal_strlit("/insert");
    reveal_strlit("/get");
    assert(("/")@.len() == 1);
    assert(("/on_state")@.len() == 9);
    assert(("/insert")@.len() == 7);
    assert(("/get")@.len() == 4);
}

} // verus!
