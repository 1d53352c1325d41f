//! The response encoder: the one place that turns a handler's typed
//! outcome or failure into a wire-level status code, content type and body.

use vstd::prelude::*;
use crate::types::{Failure, Outcome};
use crate::json::{messages_json, message_views};

verus! {

/// The content type of an encoded response body.
#[derive(Clone, Copy, PartialEq, Eq, Structural, Debug)]
pub enum BodyKind {
    Empty,
    Json,
    Html,
}

/// A wire-level response: status code, content type and body text.
pub struct WireResponse {
    pub status: u16,
    pub kind: BodyKind,
    pub body: String,
}

/// The status code of a successful outcome.
pub open spec fn outcome_status(o: Outcome) -> u16 {
    match o {
        Outcome::Done => 200,
        Outcome::Created => 201,
        Outcome::JsonPayload(_) => 200,
        Outcome::HtmlPayload(_) => 200,
    }
}

/// The content type of a successful outcome.
pub open spec fn outcome_kind(o: Outcome) -> BodyKind {
    match o {
        Outcome::Done => BodyKind::Empty,
        Outcome::Created => BodyKind::Empty,
        Outcome::JsonPayload(_) => BodyKind::Json,
        Outcome::HtmlPayload(_) => BodyKind::Html,
    }
}

/// The body text of a successful outcome.
pub open spec fn outcome_body(o: Outcome) -> Seq<char> {
    match o {
        Outcome::Done => Seq::empty(),
        Outcome::Created => Seq::empty(),
        Outcome::JsonPayload(ms) => messages_json(message_views(ms@)),
        Outcome::HtmlPayload(s) => s@,
    }
}

/// The status code of a failure; every failure has an empty body.
pub open spec fn failure_status(f: Failure) -> u16 {
    match f {
        Failure::BadRequest => 400,
        Failure::Forbidden => 403,
        Failure::Unauthorized => 401,
        Failure::InternalError => 500,
    }
}

/// The status code of a handler result, success or failure.
pub open spec fn result_status(r: Result<Outcome, Failure>) -> u16 {
    match r {
        Ok(o) => outcome_status(o),
        Err(f) => failure_status(f),
    }
}

/// Encodes a successful outcome: the status, content type and body of the
/// table row for its variant.
pub fn encode_outcome(o: &Outcome) -> (r: WireResponse)
    ensures
        r.status == outcome_status(*o),
        r.kind == outcome_kind(*o),
        r.body@ == outcome_body(*o),
{
    match o {
        Outcome::Done => WireResponse { status: 200, kind: BodyKind::Empty, body: String::new() },
        Outcome::Created => WireResponse {
            status: 201,
            kind: BodyKind::Empty,
            body: String::new(),
        },
        Outcome::JsonPayload(ms) => WireResponse {
            status: 200,
            kind: BodyKind::Json,
            body: crate::json::messages_body(ms),
        },
        Outcome::HtmlPayload(s) => WireResponse {
            status: 200,
            kind: BodyKind::Html,
            body: s.clone(),
        },
    }
}

/// Encodes a failure: its fixed status code and an empty body.
pub fn encode_failure(f: &Failure) -> (r: WireResponse)
    ensures
        r.status == failure_status(*f),
        r.kind == BodyKind::Empty,
        r.body@ == Seq::<char>::empty(),
{
    let status: u16 = match f {
        Failure::BadRequest => 400,
        Failure::Forbidden => 403,
        Failure::Unauthorized => 401,
        Failure::InternalError => 500,
    };
    WireResponse { status, kind: BodyKind::Empty, body: String::new() }
}

/// Encodes a handler result, success or failure.
pub fn encode_result(r: &Result<Outcome, Failure>) -> (w: WireResponse)
    ensures
        w.status == result_status(*r),
        *r is Ok ==> w.kind == outcome_kind(r->Ok_0) && w.body@ == outcome_body(r->Ok_0),
        *r is Err ==> w.kind == BodyKind::Empty && w.body@ == Seq::<char>::empty(),
{
    match r {
        Ok(o) => encode_outcome(o),
        Err(f) => encode_failure(f),
    }
}

/// The encoder's mapping is exhaustive and stable: every variant carries
/// one fixed status code, the four failure codes are pairwise distinct,
/// and no failure shares a code with a success.
pub proof fn lemma_status_mapping()
    ensures
        outcome_status(Outcome::Done) == 200,
        outcome_status(Outcome::Created) == 201,
        forall|o: Outcome| outcome_status(o) == 200 || #[trigger] outcome_status(o) == 201,
        failure_status(Failure::BadRequest) == 400,
        failure_status(Failure::Forbidden) == 403,
        failure_status(Failure::Unauthorized) == 401,
        failure_status(Failure::InternalError) == 500,
        forall|f1: Failure, f2: Failure|
            #[trigger] failure_status(f1) == #[trigger] failure_status(f2) ==> f1 == f2,
        forall|o: Outcome, f: Failure| outcome_status(o) != failure_status(f),
{
}

} // verus!
