use persons_service::encode::{encode_failure, encode_outcome, encode_result, BodyKind};
use persons_service::handlers::{
    greet, greet_context, insert_outcome, insert_payload, list_outcome, stateful_message,
};
use persons_service::router::{route_of, Route};
use persons_service::store::{create_table_statement, insert_statement, select_statement};
use persons_service::text::int_string;
use persons_service::types::{Failure, Message, Outcome, PersonRecord, StoreError};

#[test]
fn status_codes_of_outcomes() {
    assert_eq!(encode_outcome(&Outcome::Done).status, 200);
    assert_eq!(encode_outcome(&Outcome::Created).status, 201);
    assert_eq!(encode_outcome(&Outcome::JsonPayload(vec![])).status, 200);
    assert_eq!(encode_outcome(&Outcome::HtmlPayload(String::from("<p>hi</p>"))).status, 200);
}

#[test]
fn status_codes_of_failures_distinct_and_stable() {
    let first = [
        encode_failure(&Failure::BadRequest).status,
        encode_failure(&Failure::Forbidden).status,
        encode_failure(&Failure::Unauthorized).status,
        encode_failure(&Failure::InternalError).status,
    ];
    assert_eq!(first, [400, 403, 401, 500]);
    let second = [
        encode_failure(&Failure::BadRequest).status,
        encode_failure(&Failure::Forbidden).status,
        encode_failure(&Failure::Unauthorized).status,
        encode_failure(&Failure::InternalError).status,
    ];
    assert_eq!(first, second);
    for i in 0..4 {
        for j in 0..4 {
            if i != j {
                assert_ne!(first[i], first[j]);
            }
        }
    }
}

#[test]
fn empty_variants_have_empty_bodies() {
    let done = encode_outcome(&Outcome::Done);
    assert_eq!(done.kind, BodyKind::Empty);
    assert_eq!(done.body, "");
    let created = encode_outcome(&Outcome::Created);
    assert_eq!(created.kind, BodyKind::Empty);
    assert_eq!(created.body, "");
    let failed = encode_failure(&Failure::InternalError);
    assert_eq!(failed.kind, BodyKind::Empty);
    assert_eq!(failed.body, "");
}

#[test]
fn html_payload_passes_through() {
    let w = encode_outcome(&Outcome::HtmlPayload(String::from("<h1>TestName</h1>123")));
    assert_eq!(w.status, 200);
    assert_eq!(w.kind, BodyKind::Html);
    assert_eq!(w.body, "<h1>TestName</h1>123");
}

#[test]
fn stateful_message_literal_payload() {
    let r = stateful_message();
    let w = encode_result(&r);
    assert_eq!(w.status, 200);
    assert_eq!(w.kind, BodyKind::Json);
    assert_eq!(w.body, "[{\"message\": \"Hello messaged world\"}]");
}

#[test]
fn stateful_message_independent_of_repeats() {
    let a = encode_result(&stateful_message()).body;
    let b = encode_result(&stateful_message()).body;
    assert_eq!(a, b);
}

#[test]
fn insert_outcome_maps_success_to_done() {
    let r = insert_outcome(Ok(1));
    assert!(matches!(r, Ok(Outcome::Done)));
    assert_eq!(encode_result(&r).status, 200);
}

#[test]
fn insert_outcome_maps_store_error_to_internal() {
    let r = insert_outcome(Err(StoreError));
    assert!(matches!(r, Err(Failure::InternalError)));
    assert_eq!(encode_result(&r).status, 500);
}

#[test]
fn insert_payload_is_fixed() {
    let p = insert_payload();
    assert_eq!(p.name, "TestName");
    assert_eq!(p.number, 123567);
}

#[test]
fn list_outcome_renders_rows() {
    let rows = vec![PersonRecord { name: String::from("TestName"), number: 123567 }];
    let r = list_outcome(Ok(rows));
    let w = encode_result(&r);
    assert_eq!(w.status, 200);
    assert_eq!(w.kind, BodyKind::Json);
    assert_eq!(
        w.body,
        "[{\"message\": \"Retrieved persons: [Person { name: \\\"TestName\\\", number: 123567 }]\"}]"
    );
}

#[test]
fn list_outcome_empty_table() {
    let r = list_outcome(Ok(vec![]));
    let w = encode_result(&r);
    assert_eq!(w.status, 200);
    assert_eq!(w.body, "[{\"message\": \"Retrieved persons: []\"}]");
}

#[test]
fn list_outcome_maps_store_error_to_internal() {
    let r = list_outcome(Err(StoreError));
    assert!(matches!(r, Err(Failure::InternalError)));
    assert_eq!(encode_result(&r).status, 500);
}

#[test]
fn inserted_record_appears_verbatim_in_listing() {
    let mut table: Vec<PersonRecord> = Vec::new();
    let p = insert_payload();
    table.push(p);
    let r = list_outcome(Ok(table));
    let w = encode_result(&r);
    assert!(w.body.contains("TestName"));
    assert!(w.body.contains("123567"));
}

#[test]
fn listing_counts_every_inserted_row() {
    let n = 5;
    let mut table: Vec<PersonRecord> = Vec::new();
    for _ in 0..n {
        table.push(insert_payload());
    }
    let r = list_outcome(Ok(table));
    let w = encode_result(&r);
    assert_eq!(w.body.matches("Person {").count(), n);
}

#[test]
fn create_table_statement_is_idempotent_form() {
    let once = create_table_statement();
    let again = create_table_statement();
    assert_eq!(once, again);
    assert_eq!(once, "CREATE TABLE IF NOT EXISTS persons (name text, number integer)");
    assert!(once.contains("IF NOT EXISTS"));
}

#[test]
fn statements_are_parameterized() {
    assert_eq!(insert_statement(), "INSERT INTO persons (name, number) VALUES ($1, $2)");
    assert_eq!(select_statement(), "SELECT name, number FROM persons");
}

#[test]
fn greet_without_template_directory_is_internal_error() {
    // The test process runs where no `./templates` directory exists, so the
    // load fails and the handler must answer with an internal error, not
    // abort.
    let r = greet();
    assert!(matches!(r, Err(Failure::InternalError)));
    assert_eq!(encode_result(&r).status, 500);
}

#[test]
fn greet_context_is_fixed() {
    let c = greet_context();
    assert_eq!(c.title, "TestName");
    assert_eq!(c.number_data, 123);
}

#[test]
fn routes_match_the_table() {
    assert_eq!(route_of("/"), Some(Route::Greet));
    assert_eq!(route_of("/on_state"), Some(Route::StatefulMessage));
    assert_eq!(route_of("/insert"), Some(Route::InsertRecord));
    assert_eq!(route_of("/get"), Some(Route::ListRecords));
    assert_eq!(route_of("/missing"), None);
    assert_eq!(route_of(""), None);
}

#[test]
fn int_rendering_exact() {
    assert_eq!(int_string(0), "0");
    assert_eq!(int_string(123567), "123567");
    assert_eq!(int_string(-45), "-45");
    assert_eq!(int_string(i32::MAX), "2147483647");
    assert_eq!(int_string(i32::MIN), "-2147483648");
}

#[test]
fn json_escaping_in_message_bodies() {
    let r = Ok(Outcome::JsonPayload(vec![Message {
        message: String::from("a\"b\\c\nd"),
    }]));
    let w = encode_result(&r);
    assert_eq!(w.body, "[{\"message\": \"a\\\"b\\\\c\\u000ad\"}]");
}

#[test]
fn json_escape_control_boundary() {
    let r = Ok(Outcome::JsonPayload(vec![Message {
        message: String::from("\u{1f} \u{20}"),
    }]));
    let w = encode_result(&r);
    assert_eq!(w.body, "[{\"message\": \"\\u001f  \"}]");
}

#[test]
fn json_joins_several_messages() {
    let r = Ok(Outcome::JsonPayload(vec![
        Message { message: String::from("one") },
        Message { message: String::from("two") },
    ]));
    let w = encode_result(&r);
    assert_eq!(w.body, "[{\"message\": \"one\"},{\"message\": \"two\"}]");
}

#[test]
fn negative_numbers_render_in_listing() {
    let rows = vec![PersonRecord { name: String::from("n"), number: -7 }];
    let r = list_outcome(Ok(rows));
    let w = encode_result(&r);
    assert!(w.body.contains("number: -7"));
}
