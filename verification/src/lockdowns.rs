//! What templates see of lockdowns: lockdown IDs, and the outcome of applying or removing a
//! lockdown, read field by field.
use vstd::prelude::*;
use crate::text::{append_str, str_eq};

verus! {

broadcast use vstd::string::group_string_axioms;

/// What the `uuid` crate reads from `text`: the UUID as a number, or its error's text.
pub uninterp spec fn uuid_parsed(text: Seq<char>) -> Result<u128, Seq<char>>;

/// Reads a UUID with `uuid::Uuid::parse_str` (taken as its 128-bit number); an error gives
/// its text. The result is named, not stated.
#[verifier::external_body]
fn parse_uuid(text: &str) -> (r: Result<u128, String>)
    ensures
        match r {
            Ok(n) => uuid_parsed(text@) == Ok::<u128, Seq<char>>(n),
            Err(s) => uuid_parsed(text@) == Err::<u128, Seq<char>>(s@),
        },
{
    uuid::Uuid::parse_str(text).map(|u| u.as_u128()).map_err(|e| e.to_string())
}

/// Why a lockdown ID was refused: the reader's error text.
#[derive(Debug)]
pub struct InvalidLockdownId {
    pub detail: String,
}

impl InvalidLockdownId {
    /// The error's message.
    pub fn message(&self) -> (r: String)
        ensures
            r@ == "Invalid UUID: "@ + self.detail@,
    {
        let mut s = "Invalid UUID: ".to_string();
        append_str(&mut s, self.detail.as_str());
        s
    }
}

/// Reads the ID of a lockdown to remove.
pub fn parse_lockdown_id(text: &str) -> (r: Result<u128, InvalidLockdownId>)
    ensures
        match uuid_parsed(text@) {
            Ok(n) => r matches Ok(m) && m == n,
            Err(s) => r matches Err(e) && e.detail@ == s,
        },
{
    match parse_uuid(text) {
        Ok(n) => Ok(n),
        Err(s) => Err(InvalidLockdownId { detail: s }),
    }
}

/// The outcome of applying a lockdown: its new ID, an error's text, or the result of a test
/// that the guild failed.
#[derive(Debug)]
pub enum LockdownAddStatus<T> {
    /// Applied; the new lockdown's ID.
    Applied(u128),
    Error(String),
    LockdownTestFailed(T),
}

/// The outcome of removing a lockdown.
#[derive(Debug)]
pub enum LockdownRemoveStatus<T> {
    /// Removed.
    Removed,
    Error(String),
    LockdownTestFailed(T),
}

/// A field of an outcome, as a template reads it.
#[derive(Debug)]
pub enum StatusField<'a, T> {
    Bool(bool),
    Text(&'static str),
    /// An error's text.
    Error(&'a str),
    /// A lockdown ID.
    Id(u128),
    /// The failed test's result.
    TestResult(&'a T),
    /// The failed test's error, as that result shows it.
    TestError(&'a T),
    Nil,
}

/// The fields an outcome has: `ok`, `type`, `id` (applying only), `test_result` and `error`.
pub open spec fn field_name(key: Seq<char>) -> int {
    if key == "ok"@ {
        0
    } else if key == "type"@ {
        1
    } else if key == "id"@ {
        2
    } else if key == "test_result"@ {
        3
    } else if key == "error"@ {
        4
    } else {
        5
    }
}

fn field_index(key: &str) -> (r: u8)
    ensures
        r as int == field_name(key@),
{
    if str_eq(key, "ok") {
        0
    } else if str_eq(key, "type") {
        1
    } else if str_eq(key, "id") {
        2
    } else if str_eq(key, "test_result") {
        3
    } else if str_eq(key, "error") {
        4
    } else {
        5
    }
}

impl<T> LockdownAddStatus<T> {
    /// The field `key` of the outcome: `ok` whether it succeeded, `type` its kind, `id` the new
    /// lockdown's ID, `test_result` the failed test, `error` the error (or the failed test's);
    /// absent fields, and any other key, read as nil.
    pub fn field<'a>(&'a self, key: &str) -> (r: StatusField<'a, T>)
        ensures
            field_name(key@) == 0 ==> r == StatusField::<'a, T>::Bool(self is Applied),
            field_name(key@) == 1 ==> (r matches StatusField::Text(t) && t@ == (match self {
                LockdownAddStatus::Applied(_) => "Ok"@,
                LockdownAddStatus::Error(_) => "Error"@,
                LockdownAddStatus::LockdownTestFailed(_) => "LockdownTestFailed"@,
            })),
            field_name(key@) == 2 ==> r == (match self {
                LockdownAddStatus::Applied(id) => StatusField::<'a, T>::Id(*id),
                _ => StatusField::<'a, T>::Nil,
            }),
            field_name(key@) == 3 ==> r == (match self {
                LockdownAddStatus::LockdownTestFailed(t) => StatusField::<'a, T>::TestResult(t),
                _ => StatusField::<'a, T>::Nil,
            }),
            field_name(key@) == 4 ==> match self {
                LockdownAddStatus::Applied(_) => r == StatusField::<'a, T>::Nil,
                LockdownAddStatus::Error(e) => r matches StatusField::Error(s) && s@ == e@,
                LockdownAddStatus::LockdownTestFailed(t) => r == StatusField::<'a, T>::TestError(t),
            },
            field_name(key@) == 5 ==> r == StatusField::<'a, T>::Nil,
    {
        let k = field_index(key);
        if k == 0 {
            StatusField::Bool(matches!(self, LockdownAddStatus::Applied(_)))
        } else if k == 1 {
            match self {
                LockdownAddStatus::Applied(_) => StatusField::Text("Ok"),
                LockdownAddStatus::Error(_) => StatusField::Text("Error"),
                LockdownAddStatus::LockdownTestFailed(_) => StatusField::Text("LockdownTestFailed"),
            }
        } else if k == 2 {
            match self {
                LockdownAddStatus::Applied(id) => StatusField::Id(*id),
                _ => StatusField::Nil,
            }
        } else if k == 3 {
            match self {
                LockdownAddStatus::LockdownTestFailed(t) => StatusField::TestResult(t),
                _ => StatusField::Nil,
            }
        } else if k == 4 {
            match self {
                LockdownAddStatus::Applied(_) => StatusField::Nil,
                LockdownAddStatus::Error(e) => StatusField::Error(e.as_str()),
                LockdownAddStatus::LockdownTestFailed(t) => StatusField::TestError(t),
            }
        } else {
            StatusField::Nil
        }
    }
}

impl<T> LockdownRemoveStatus<T> {
    /// The field `key` of the outcome: `ok`, `type`, `test_result` and `error` as for applying;
    /// a removal has no `id`, which reads as nil like any other key.
    pub fn field<'a>(&'a self, key: &str) -> (r: StatusField<'a, T>)
        ensures
            field_name(key@) == 0 ==> r == StatusField::<'a, T>::Bool(self is Removed),
            field_name(key@) == 1 ==> (r matches StatusField::Text(t) && t@ == (match self {
                LockdownRemoveStatus::Removed => "Ok"@,
                LockdownRemoveStatus::Error(_) => "Error"@,
                LockdownRemoveStatus::LockdownTestFailed(_) => "LockdownTestFailed"@,
            })),
            field_name(key@) == 3 ==> r == (match self {
                LockdownRemoveStatus::LockdownTestFailed(t) => StatusField::<'a, T>::TestResult(t),
                _ => StatusField::<'a, T>::Nil,
            }),
            field_name(key@) == 4 ==> match self {
                LockdownRemoveStatus::Removed => r == StatusField::<'a, T>::Nil,
                LockdownRemoveStatus::Error(e) => r matches StatusField::Error(s) && s@ == e@,
                LockdownRemoveStatus::LockdownTestFailed(t) => r == StatusField::<'a, T>::TestError(t),
            },
            (field_name(key@) == 2 || field_name(key@) == 5) ==> r == StatusField::<'a, T>::Nil,
    {
        let k = field_index(key);
        if k == 0 {
            StatusField::Bool(matches!(self, LockdownRemoveStatus::Removed))
        } else if k == 1 {
            match self {
                LockdownRemoveStatus::Removed => StatusField::Text("Ok"),
                LockdownRemoveStatus::Error(_) => StatusField::Text("Error"),
                LockdownRemoveStatus::LockdownTestFailed(_) => StatusField::Text("LockdownTestFailed"),
            }
        } else if k == 3 {
            match self {
                LockdownRemoveStatus::LockdownTestFailed(t) => StatusField::TestResult(t),
                _ => StatusField::Nil,
            }
        } else if k == 4 {
            match self {
                LockdownRemoveStatus::Removed => StatusField::Nil,
                LockdownRemoveStatus::Error(e) => StatusField::Error(e.as_str()),
                LockdownRemoveStatus::LockdownTestFailed(t) => StatusField::TestError(t),
            }
        } else {
            StatusField::Nil
        }
    }
}

} // verus!
