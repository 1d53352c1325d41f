//! The persistence adapter's statements against the backing `persons`
//! table. All three are parameterized or constant texts, never built by
//! concatenating request data, so no request can inject into them. The
//! binary owns the connection pool and executes them; it hands the reply
//! back to the handler decisions as a plain `Result`.

use vstd::prelude::*;

verus! {

/// The idempotent schema statement, safe to run on every process start:
/// it creates the backing table only where it is missing, and leaves an
/// existing table untouched.
pub fn create_table_statement() -> (r: &'static str)
    ensures
        r@ == ("CREATE TABLE IF NOT EXISTS persons (name text, number integer)")@,
{
    "CREATE TABLE IF NOT EXISTS persons (name text, number integer)"
}

/// The parameterized insert statement; the two placeholders take the
/// record's name and number.
pub fn insert_statement() -> (r: &'static str)
    ensures
        r@ == ("INSERT INTO persons (name, number) VALUES ($1, $2)")@,
{
    "INSERT INTO persons (name, number) VALUES ($1, $2)"
}

/// The full-scan select statement behind the list-records route.
pub fn select_statement() -> (r: &'static str)
    ensures
        r@ == ("SELECT name, number FROM persons")@,
{
    "SELECT name, number FROM persons"
}

} // verus!
