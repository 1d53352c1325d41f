//! The four request handlers. Each one produces exactly one typed outcome
//! or failure; every store or filesystem error is caught here and mapped
//! to `Failure::InternalError`, never left to abort the process.

use vstd::prelude::*;
use crate::types::{Failure, Message, Outcome, PersonRecord, StoreError, TemplateContext};
use crate::json::{json_escape, lemma_escape_preserves_part, message_views};
use crate::listing::{person_views, persons_message, retrieved_chars};
use crate::template::{get_template, load_templates, render_template};
use crate::text::{contains_part, int_chars, lemma_part_concat_left, lemma_part_concat_right};

verus! {

/// What the greet handler guarantees: success carries rendered HTML, and
/// the only failure it ever reports is an internal error.
pub open spec fn greet_post(r: Result<Outcome, Failure>) -> bool {
    &&& r is Ok ==> r->Ok_0 is HtmlPayload
    &&& r is Err ==> r->Err_0 == Failure::InternalError
}

/// What the stateful-message handler guarantees: a JSON payload of exactly
/// one message with the fixed greeting text.
pub open spec fn stateful_post(r: Result<Outcome, Failure>) -> bool {
    &&& r is Ok
    &&& r->Ok_0 is JsonPayload
    &&& message_views(r->Ok_0->JsonPayload_0@) == seq![("Hello messaged world")@]
}

/// The insert handler's result for a given store reply: success maps to
/// the empty-bodied success outcome, any store error to an internal error.
pub open spec fn insert_result(res: Result<u64, StoreError>) -> Result<Outcome, Failure> {
    match res {
        Ok(_) => Ok(Outcome::Done),
        Err(_) => Err(Failure::InternalError),
    }
}

/// What the list-records handler guarantees for a given store reply:
/// on success a JSON payload of one message rendering every returned row,
/// on any store error an internal error.
pub open spec fn list_post(
    res: Result<Vec<PersonRecord>, StoreError>,
    r: Result<Outcome, Failure>,
) -> bool {
    &&& res is Ok ==> {
        &&& r is Ok
        &&& r->Ok_0 is JsonPayload
        &&& message_views(r->Ok_0->JsonPayload_0@) == seq![
            retrieved_chars(person_views(res->Ok_0@)),
        ]
    }
    &&& res is Err ==> r == Err::<Outcome, Failure>(Failure::InternalError)
}

/// The list-records body carries every returned row: for each row, the
/// wire body of the response contains the JSON escape of the row's name,
/// the name itself whenever it has no characters the escape rewrites, and
/// the row's rendered number verbatim. In particular, a record just
/// inserted appears, fields and all, in the body of the next listing
/// whenever the store returns it.
pub proof fn lemma_body_contains_row(
    res: Result<Vec<PersonRecord>, StoreError>,
    r: Result<Outcome, Failure>,
    i: int,
)
    requires
        list_post(res, r),
        res is Ok,
        0 <= i < res->Ok_0@.len(),
    ensures
        contains_part(
            crate::encode::outcome_body(r->Ok_0),
            json_escape(person_views(res->Ok_0@)[i].name),
        ),
        (forall|j: int|
            0 <= j < person_views(res->Ok_0@)[i].name.len() ==> crate::json::plain_char(
                #[trigger] person_views(res->Ok_0@)[i].name[j],
            )) ==> contains_part(
            crate::encode::outcome_body(r->Ok_0),
            person_views(res->Ok_0@)[i].name,
        ),
        contains_part(
            crate::encode::outcome_body(r->Ok_0),
            int_chars(person_views(res->Ok_0@)[i].number),
        ),
{
    let vs = person_views(res->Ok_0@);
    let msg = retrieved_chars(vs);
    let body = crate::encode::outcome_body(r->Ok_0);
    let ms = message_views(r->Ok_0->JsonPayload_0@);
    assert(ms == seq![msg]);
    assert(crate::json::messages_inner(ms) == crate::json::message_json(msg));
    assert(body == ("[")@ + crate::json::message_json(msg) + ("]")@);

    crate::listing::lemma_message_contains_row(vs, i);
    lemma_escape_preserves_part(msg, vs[i].name);
    lemma_escape_preserves_part(msg, int_chars(vs[i].number));

    lemma_part_concat_right(("{\"message\": \"")@, json_escape(msg), json_escape(vs[i].name));
    lemma_part_concat_left(
        ("{\"message\": \"")@ + json_escape(msg),
        ("\"}")@,
        json_escape(vs[i].name),
    );
    lemma_part_concat_right(("[")@, crate::json::message_json(msg), json_escape(vs[i].name));
    lemma_part_concat_left(
        ("[")@ + crate::json::message_json(msg),
        ("]")@,
        json_escape(vs[i].name),
    );

    lemma_part_concat_right(
        ("{\"message\": \"")@,
        json_escape(msg),
        json_escape(int_chars(vs[i].number)),
    );
    lemma_part_concat_left(
        ("{\"message\": \"")@ + json_escape(msg),
        ("\"}")@,
        json_escape(int_chars(vs[i].number)),
    );
    lemma_part_concat_right(
        ("[")@,
        crate::json::message_json(msg),
        json_escape(int_chars(vs[i].number)),
    );
    lemma_part_concat_left(
        ("[")@ + crate::json::message_json(msg),
        ("]")@,
        json_escape(int_chars(vs[i].number)),
    );

    crate::json::lemma_int_chars_plain(vs[i].number);
    if forall|j: int|
        0 <= j < vs[i].name.len() ==> crate::json::plain_char(#[trigger] vs[i].name[j]) {
        crate::json::lemma_escape_plain(vs[i].name);
    }
}

/// The stateful-message route always answers with the literal payload
/// `[{"message": "Hello messaged world"}]`, independent of store or
/// template state.
pub proof fn lemma_stateful_body(r: Result<Outcome, Failure>)
    requires
        stateful_post(r),
    ensures
        crate::encode::outcome_body(r->Ok_0) == ("[{\"message\": \"Hello messaged world\"}]")@,
{
    reveal_strlit("Hello messaged world");
    reveal_strlit("[{\"message\": \"Hello messaged world\"}]");
    reveal_strlit("[");
    reveal_strlit("]");
    reveal_strlit("{\"message\": \"");
    reveal_strlit("\"}");
    let hello = ("Hello messaged world")@;
    assert(forall|i: int| 0 <= i < hello.len() ==> crate::json::plain_char(#[trigger] hello[i]));
    crate::json::lemma_escape_plain(hello);
    let ms = message_views(r->Ok_0->JsonPayload_0@);
    assert(crate::json::messages_inner(ms) == crate::json::message_json(hello));
    assert(crate::encode::outcome_body(r->Ok_0)
        =~= ("[{\"message\": \"Hello messaged world\"}]")@);
}

/// The fixed context the greet handler renders: title `TestName`,
/// number 123.
pub fn greet_context() -> (c: TemplateContext)
    ensures
        c.title@ == ("TestName")@,
        c.number_data == 123,
{
    TemplateContext { title: "TestName".to_owned(), number_data: 123 }
}

/// The greet handler: loads the template set from `./templates`, selects
/// `hangman.mustache`, and renders it against the fixed context. An
/// unreadable directory or a missing template surfaces as an internal
/// error, never as a crash.
pub fn greet() -> (r: Result<Outcome, Failure>)
    ensures
        greet_post(r),
{
    match load_templates("./templates", "mustache") {
        Ok(set) => match get_template(&set, "hangman.mustache") {
            Some(tpl) => {
                let ctx = greet_context();
                let html = render_template(tpl, &ctx);
                Ok(Outcome::HtmlPayload(html))
            },
            None => Err(Failure::InternalError),
        },
        Err(_) => Err(Failure::InternalError),
    }
}

/// The stateful-message handler: a JSON payload of one fixed greeting,
/// independent of store or template state.
pub fn stateful_message() -> (r: Result<Outcome, Failure>)
    ensures
        stateful_post(r),
{
    let data = vec![Message { message: "Hello messaged world".to_owned() }];
    proof {
        assert(message_views(data@) =~= seq![("Hello messaged world")@]);
    }
    Ok(Outcome::JsonPayload(data))
}

/// The fixed record the insert handler writes: name `TestName`,
/// number 123567.
pub fn insert_payload() -> (p: PersonRecord)
    ensures
        p@.name == ("TestName")@,
        p@.number == 123567,
{
    PersonRecord { name: "TestName".to_owned(), number: 123567 }
}

/// The insert handler's decision: maps the store's reply to the insert
/// statement onto the outcome the route returns.
pub fn insert_outcome(res: Result<u64, StoreError>) -> (r: Result<Outcome, Failure>)
    ensures
        r == insert_result(res),
{
    match res {
        Ok(_) => Ok(Outcome::Done),
        Err(_) => Err(Failure::InternalError),
    }
}

/// The list-records handler's decision: renders every row the store
/// returned into one message, or maps the store's error to an internal
/// error.
pub fn list_outcome(res: Result<Vec<PersonRecord>, StoreError>) -> (r: Result<Outcome, Failure>)
    ensures
        list_post(res, r),
{
    match res {
        Ok(rows) => {
            let text = persons_message(&rows);
            let data = vec![Message { message: text }];
            proof {
                assert(message_views(data@) =~= seq![retrieved_chars(person_views(rows@))]);
            }
            Ok(Outcome::JsonPayload(data))
        },
        Err(_) => Err(Failure::InternalError),
    }
}

} // verus!
