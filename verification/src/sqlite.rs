//! The rules of the `sqlite` module: the state of a database handle, and
//! how values cross between JavaScript and SQLite.
//!
//! Floating-point numbers cross unchanged; they are carried here by their
//! IEEE-754 bits (`f64::to_bits`).

use vstd::prelude::*;
use vstd::utf8::*;

use crate::text::{owned, string_from_utf8};

verus! {

/// Failures that the `sqlite` module reports to scripts.
#[derive(Clone, Copy, PartialEq, Eq, Structural, Debug)]
pub enum SqliteError {
    /// The database is in use by another call.
    Busy,
    /// The database has been closed.
    Closed,
    /// `close` was called on a closed database.
    AlreadyClosed,
    /// A statement argument has a type that SQLite cannot take.
    UnsupportedParameter,
    /// A result column holds a blob.
    BlobUnsupported,
}

/// The message a script sees for each failure.
pub open spec fn error_text(e: SqliteError) -> Seq<char> {
    match e {
        SqliteError::Busy => "database busy"@,
        SqliteError::Closed => "database closed"@,
        SqliteError::AlreadyClosed => "database already closed"@,
        SqliteError::UnsupportedParameter => "unsupported parameter type"@,
        SqliteError::BlobUnsupported => "blob not supported"@,
    }
}

impl SqliteError {
    /// The message a script sees.
    pub fn message(&self) -> (res: String)
        ensures
            res@ == error_text(*self),
    {
        match self {
            SqliteError::Busy => owned("database busy"),
            SqliteError::Closed => owned("database closed"),
            SqliteError::AlreadyClosed => owned("database already closed"),
            SqliteError::UnsupportedParameter => owned("unsupported parameter type"),
            SqliteError::BlobUnsupported => owned("blob not supported"),
        }
    }
}

/// A database connection slot: open while it holds a connection.
#[derive(Debug)]
pub struct DbHandle<C> {
    conn: Option<C>,
}

impl<C> View for DbHandle<C> {
    type V = Option<C>;

    closed spec fn view(&self) -> Option<C> {
        self.conn
    }
}

/// What asking a handle in state `state` for its connection gives.
pub open spec fn connection_outcome<C>(state: Option<C>) -> Result<C, SqliteError> {
    match state {
        Some(c) => Ok(c),
        None => Err(SqliteError::Closed),
    }
}

/// What closing a handle in state `state` gives.
pub open spec fn close_outcome<C>(state: Option<C>) -> Result<C, SqliteError> {
    match state {
        Some(c) => Ok(c),
        None => Err(SqliteError::AlreadyClosed),
    }
}

impl<C> DbHandle<C> {
    /// An open handle for `conn`.
    pub fn open(conn: C) -> (res: DbHandle<C>)
        ensures
            res@ == Some(conn),
    {
        DbHandle { conn: Some(conn) }
    }

    /// The connection, or `Closed` once the handle is closed.
    pub fn connection(&self) -> (res: Result<&C, SqliteError>)
        ensures
            match connection_outcome(self@) {
                Ok(c) => res matches Ok(r) && *r == c,
                Err(e) => res == Err::<&C, SqliteError>(e),
            },
    {
        match &self.conn {
            Some(c) => Ok(c),
            None => Err(SqliteError::Closed),
        }
    }

    /// Takes the connection out to close it; `AlreadyClosed` when there is
    /// none. The handle is closed afterwards either way.
    pub fn close(&mut self) -> (res: Result<C, SqliteError>)
        ensures
            final(self)@ is None,
            res == close_outcome(old(self)@),
    {
        match self.conn.take() {
            Some(c) => Ok(c),
            None => Err(SqliteError::AlreadyClosed),
        }
    }
}

/// Closing is final.
///
/// Once a handle is closed, asking it for its connection fails with
/// "database closed" and closing it again fails with "database already
/// closed"; a handle that was open gives its connection back on close.
pub proof fn lemma_close_is_final<C>(state: Option<C>)
    ensures
        connection_outcome::<C>(None) == Err::<C, SqliteError>(SqliteError::Closed),
        close_outcome::<C>(None) == Err::<C, SqliteError>(SqliteError::AlreadyClosed),
        state matches Some(c) ==> close_outcome(state) == Ok::<C, SqliteError>(c),
{
}

/// A JavaScript argument of a statement.
#[derive(Debug)]
pub enum JsArg {
    Null,
    Undefined,
    /// A string; `None` when its text could not be read.
    Text(Option<String>),
    /// A number held as an integer.
    Int(i32),
    /// A number held as a float (its bits).
    Float(u64),
    Bool(bool),
    /// Any other value.
    Unsupported,
}

/// A value bound to a statement parameter.
#[derive(Debug)]
pub enum SqlParam {
    Null,
    Text(String),
    Integer(i64),
    /// A floating-point number (its bits).
    Real(u64),
    Bool(bool),
}

/// Why an argument cannot be bound.
#[derive(Clone, Copy, PartialEq, Eq, Structural, Debug)]
pub enum ParamError {
    /// The argument at this position has an unsupported type.
    Unsupported(usize),
    /// The text of the string argument at this position could not be read.
    UnreadableText(usize),
}

/// Mathematical form of a [`SqlParam`].
pub enum ParamView {
    Null,
    Text(Seq<char>),
    Integer(int),
    Real(u64),
    Bool(bool),
}

impl View for SqlParam {
    type V = ParamView;

    open spec fn view(&self) -> ParamView {
        match self {
            SqlParam::Null => ParamView::Null,
            SqlParam::Text(s) => ParamView::Text(s@),
            SqlParam::Integer(i) => ParamView::Integer(*i as int),
            SqlParam::Real(b) => ParamView::Real(*b),
            SqlParam::Bool(b) => ParamView::Bool(*b),
        }
    }
}

/// The parameter an argument binds as, if it can be bound: `null` and
/// `undefined` as SQL NULL, strings as text, integers widened to 64 bits,
/// floats as reals, booleans as booleans.
pub open spec fn param_of(arg: JsArg) -> Option<ParamView> {
    match arg {
        JsArg::Null => Some(ParamView::Null),
        JsArg::Undefined => Some(ParamView::Null),
        JsArg::Text(Some(s)) => Some(ParamView::Text(s@)),
        JsArg::Text(None) => None,
        JsArg::Int(i) => Some(ParamView::Integer(i as int)),
        JsArg::Float(b) => Some(ParamView::Real(b)),
        JsArg::Bool(b) => Some(ParamView::Bool(b)),
        JsArg::Unsupported => None,
    }
}

/// The failure for the argument at position `i`, which cannot be bound.
pub open spec fn param_error(arg: JsArg, i: int) -> ParamError {
    match arg {
        JsArg::Text(None) => ParamError::UnreadableText(i as usize),
        _ => ParamError::Unsupported(i as usize),
    }
}

/// Binds one argument.
fn js_value_to_param(arg: JsArg, index: usize) -> (res: Result<SqlParam, ParamError>)
    ensures
        param_of(arg) matches Some(p) ==> (res matches Ok(q) && q@ == p),
        param_of(arg) is None ==> res == Err::<SqlParam, ParamError>(param_error(arg, index as int)),
{
    match arg {
        JsArg::Null => Ok(SqlParam::Null),
        JsArg::Undefined => Ok(SqlParam::Null),
        JsArg::Text(Some(s)) => Ok(SqlParam::Text(s)),
        JsArg::Text(None) => Err(ParamError::UnreadableText(index)),
        JsArg::Int(i) => Ok(SqlParam::Integer(i as i64)),
        JsArg::Float(b) => Ok(SqlParam::Real(b)),
        JsArg::Bool(b) => Ok(SqlParam::Bool(b)),
        JsArg::Unsupported => Err(ParamError::Unsupported(index)),
    }
}

/// Binds the arguments of a statement in order; the first argument that
/// cannot be bound decides the failure.
pub fn js_values_to_params(args: Vec<JsArg>) -> (res: Result<Vec<SqlParam>, ParamError>)
    ensures
        res matches Ok(ps) ==> ps@.len() == args@.len() && forall|i: int|
            0 <= i < args@.len() ==> param_of(#[trigger] args@[i]) == Some(ps@[i]@),
        res matches Err(e) ==> exists|i: int|
            0 <= i < args@.len() && param_of(#[trigger] args@[i]) is None && e == param_error(
                args@[i],
                i,
            ) && forall|j: int| 0 <= j < i ==> param_of(#[trigger] args@[j]) is Some,
        (forall|i: int| 0 <= i < args@.len() ==> param_of(#[trigger] args@[i]) is Some) ==> res is Ok,
{
    let ghost all = args@;
    let n = args.len();
    assert(all.subrange(0, all.len() as int) =~= all);
    let mut params: Vec<SqlParam> = Vec::new();
    let mut rest = args;
    let mut i: usize = 0;
    while rest.len() > 0
        invariant
            i + rest@.len() == all.len(),
            all.len() == n,
            all == args@,
            params@.len() == i,
            rest@ == all.subrange(i as int, all.len() as int),
            forall|j: int| 0 <= j < i ==> param_of(#[trigger] all[j]) == Some(params@[j]@),
        decreases rest@.len(),
    {
        let ghost before = rest@;
        let arg = rest.remove(0);
        assert(arg == all[i as int]);
        match js_value_to_param(arg, i) {
            Ok(p) => {
                params.push(p);
                i += 1;
            },
            Err(e) => {
                assert(param_of(all[i as int]) is None && e == param_error(all[i as int], i as int));
                assert(forall|j: int| 0 <= j < i ==> param_of(#[trigger] all[j]) is Some);
                assert(exists|k: int|
                    0 <= k < all.len() && param_of(#[trigger] all[k]) is None && e == param_error(all[k], k)
                        && forall|j: int| 0 <= j < k ==> param_of(#[trigger] all[j]) is Some);
                return Err(e);
            },
        }
    }
    Ok(params)
}

/// A value read from a result column.
#[derive(Debug)]
pub enum SqlCell {
    Null,
    Integer(i64),
    /// A floating-point number (its bits).
    Real(u64),
    /// Text, as the bytes SQLite stores.
    Text(Vec<u8>),
    Blob,
}

/// The JavaScript value a column value becomes.
#[derive(Debug)]
pub enum JsCell {
    Null,
    /// A number, from an integer column.
    Integer(i64),
    /// A number, from a real column (its bits).
    Real(u64),
    Text(String),
}

/// Converts a column value: NULL to `null`, numbers to numbers, text to a
/// string (empty when it is not valid UTF-8); blobs are refused.
pub fn sqlite_to_js(cell: SqlCell) -> (res: Result<JsCell, SqliteError>)
    ensures
        cell is Null ==> res matches Ok(JsCell::Null),
        cell matches SqlCell::Integer(i) ==> (res matches Ok(JsCell::Integer(j)) && i == j),
        cell matches SqlCell::Real(b) ==> (res matches Ok(JsCell::Real(c)) && b == c),
        cell matches SqlCell::Text(bytes) ==> (res matches Ok(JsCell::Text(s)) && s@ == (if valid_utf8(
            bytes@,
        ) {
            decode_utf8(bytes@)
        } else {
            Seq::empty()
        })),
        cell is Blob ==> res == Err::<JsCell, SqliteError>(SqliteError::BlobUnsupported),
{
    match cell {
        SqlCell::Null => Ok(JsCell::Null),
        SqlCell::Integer(i) => Ok(JsCell::Integer(i)),
        SqlCell::Real(b) => Ok(JsCell::Real(b)),
        SqlCell::Text(bytes) => match string_from_utf8(bytes) {
            Ok(s) => Ok(JsCell::Text(s)),
            Err(_) => Ok(JsCell::Text(String::new())),
        },
        SqlCell::Blob => Err(SqliteError::BlobUnsupported),
    }
}

} // verus!

verus! {

/// Every supported argument binds as its own value.
///
/// `null` and `undefined` bind as SQL NULL, a string as its text, an integer
/// as the same integer, a float as the same bits, and a boolean as the same
/// boolean; an unreadable string and an unsupported value do not bind, and
/// their failure names their position.
pub proof fn lemma_param_values(s: String, i: i32, bits: u64, b: bool, at: int)
    ensures
        param_of(JsArg::Null) == Some(ParamView::Null),
        param_of(JsArg::Undefined) == Some(ParamView::Null),
        param_of(JsArg::Text(Some(s))) == Some(ParamView::Text(s@)),
        param_of(JsArg::Int(i)) == Some(ParamView::Integer(i as int)),
        param_of(JsArg::Float(bits)) == Some(ParamView::Real(bits)),
        param_of(JsArg::Bool(b)) == Some(ParamView::Bool(b)),
        param_of(JsArg::Text(None)) is None,
        param_of(JsArg::Unsupported) is None,
        param_error(JsArg::Text(None), at) == ParamError::UnreadableText(at as usize),
        param_error(JsArg::Unsupported, at) == ParamError::Unsupported(at as usize),
{
}

/// An open handle gives its connection; a closed one reports "database
/// closed".
pub proof fn lemma_connection_outcome<C>(c: C)
    ensures
        connection_outcome(Some(c)) == Ok::<C, SqliteError>(c),
        connection_outcome::<C>(None) == Err::<C, SqliteError>(SqliteError::Closed),
{
}

} // verus!

verus! {

/// The messages scripts see for the module's failures, all different.
pub proof fn lemma_error_texts()
    ensures
        error_text(SqliteError::Busy) == "database busy"@,
        error_text(SqliteError::Closed) == "database closed"@,
        error_text(SqliteError::AlreadyClosed) == "database already closed"@,
        error_text(SqliteError::UnsupportedParameter) == "unsupported parameter type"@,
        error_text(SqliteError::BlobUnsupported) == "blob not supported"@,
        error_text(SqliteError::Closed) != error_text(SqliteError::AlreadyClosed),
{
    reveal_strlit("database closed");
    reveal_strlit("database already closed");
}

} // verus!
