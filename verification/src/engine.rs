//! Opening connections to shared in-memory databases.
//!
//! The engine is SQLite, reached through `rusqlite`. What it does with a
//! connection once it is open is its own affair: this module decides the URI
//! that is handed to it and reports which URI it refused.

use crate::counter::NameCounter;
use crate::names::{open_uri, open_uri_spec, shared_name_spec, uri_query, uri_scheme};
use rusqlite::Connection;
use vstd::prelude::*;

verus! {

/// `rusqlite::Connection`, an open connection to the engine. Nothing is
/// known of what it holds.
#[verifier::external_type_specification]
#[verifier::external_body]
pub struct ExConnection(rusqlite::Connection);

/// `rusqlite::Error`, the engine's account of a failure. Nothing is known of
/// what it holds.
#[verifier::external_type_specification]
#[verifier::external_body]
pub struct ExEngineError(rusqlite::Error);

/// The engine could not open a connection.
#[derive(Debug)]
pub struct OpenError {
    /// The URI that was handed to the engine.
    pub uri: String,
    /// What the engine reported.
    pub cause: rusqlite::Error,
}

/// Calls `rusqlite::Connection::open` on `uri`.
///
/// Whether the engine opens the database is its own decision, with one
/// exception that `rusqlite` documents: the URI is first turned into a C
/// string, and where that cannot be done the call fails. A C string cannot
/// hold a NUL character, so a URI with one is always refused.
#[verifier::external_body]
fn connect(uri: &str) -> (outcome: Result<Connection, rusqlite::Error>)
    ensures
        uri@.contains('\0') ==> outcome is Err,
{
    Connection::open(uri)
}

/// Turns the engine's answer to an attempt to open `uri` into this library's
/// result: the connection as it came, or the failure together with the URI
/// that was refused.
pub fn open_outcome(uri: String, outcome: Result<Connection, rusqlite::Error>) -> (r: Result<
    Connection,
    OpenError,
>)
    ensures
        match outcome {
            Ok(connection) => r matches Ok(c) && c == connection,
            Err(cause) => r matches Err(e) && e.uri == uri && e.cause == cause,
        },
{
    match outcome {
        Ok(connection) => Ok(connection),
        Err(cause) => Err(OpenError { uri, cause }),
    }
}

/// A character of a name is a character of its URI.
pub proof fn lemma_open_uri_keeps_chars(name: Seq<char>, c: char)
    requires
        name.contains(c),
    ensures
        open_uri_spec(name).contains(c),
{
    let i = choose|i: int| 0 <= i < name.len() && name[i] == c;
    assert(open_uri_spec(name)[uri_scheme().len() + i] == c);
}

/// Opens a connection of its own to the shared in-memory database called
/// `name`, without any caching.
///
/// The engine is handed the URI of `name` and decides. If it fails, the
/// error holds that URI. A name with a NUL character is always refused.
pub fn open_shared(name: &str) -> (r: Result<Connection, OpenError>)
    ensures
        r matches Err(e) ==> e.uri@ == open_uri_spec(name@),
        name@.contains('\0') ==> r is Err,
{
    let uri = open_uri(name);
    proof {
        if name@.contains('\0') {
            lemma_open_uri_keeps_chars(name@, '\0');
        }
    }
    let outcome = connect(uri.as_str());
    open_outcome(uri, outcome)
}

/// Opens a connection to a shared in-memory database under a fresh name
/// taken from `names`.
///
/// If the engine fails, the error holds the URI of a generated name.
pub fn new_shared(names: &NameCounter) -> (r: Result<Connection, OpenError>)
    ensures
        r matches Err(e) ==> exists|n: u64|
            e.uri@ == open_uri_spec(#[trigger] shared_name_spec(n)),
{
    let name = names.next_name();
    open_shared(name.as_str())
}

} // verus!
