//! The data model: messages, person records, template contexts, and the
//! typed outcome and failure values that every handler returns.

use vstd::prelude::*;

verus! {

/// A single JSON-serializable message, the payload of the JSON routes.
pub struct Message {
    pub message: String,
}

impl View for Message {
    type V = Seq<char>;

    open spec fn view(&self) -> Seq<char> {
        self.message@
    }
}

/// One row of the backing `persons` table: a name and a number.
pub struct PersonRecord {
    pub name: String,
    pub number: i32,
}

/// The mathematical value of a [`PersonRecord`]: its name as a character
/// sequence and its number as an unbounded integer.
pub struct PersonView {
    pub name: Seq<char>,
    pub number: int,
}

impl View for PersonRecord {
    type V = PersonView;

    open spec fn view(&self) -> PersonView {
        PersonView { name: self.name@, number: self.number as int }
    }
}

/// The field set handed to the template renderer: a title and a number,
/// substituted for the `{{title}}` and `{{number_data}}` placeholders.
pub struct TemplateContext {
    pub title: String,
    pub number_data: i32,
}

/// A handler's successful result; the variant determines the HTTP status
/// and the body encoding.
pub enum Outcome {
    Done,
    Created,
    JsonPayload(Vec<Message>),
    HtmlPayload(String),
}

/// A handler's error result; each variant maps to one fixed HTTP status
/// code with an empty body.
#[derive(Clone, Copy, PartialEq, Eq, Structural, Debug)]
pub enum Failure {
    BadRequest,
    Forbidden,
    Unauthorized,
    InternalError,
}

/// An opaque token for a failed store operation. The binary maps the store
/// client's error into this before handing control back to the library;
/// no handler distinguishes causes further.
#[derive(Clone, Copy, PartialEq, Eq, Structural, Debug)]
pub struct StoreError;

} // verus!
