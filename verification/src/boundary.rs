//! The entry points of the boundary, on plain values.
//!
//! A pointer of the C surface is an `Option` here: `None` is the null
//! pointer. A handle is lent for one call and is the caller's again when the
//! call returns, whether it failed or not.

use crate::component::{CPy, CPyModule, DoubleCodec};
use crate::engine::exception_text;
use crate::flat::{as_c_ports, flatten, from_c_ports, records, unflatten, CPyPort};
use crate::ports::distinct_names;
use crate::text::{c_name, c_string, read_c_text};
use crate::value::Value;
use pyo3::Python;
use vstd::prelude::*;
use vstd::string::*;

verus! {

/// The status of a call that succeeded.
pub const STATUS_OK: i32 = 0;

/// The status of a call that failed.
pub const STATUS_FAILED: i32 = 1;

/// How a call ended: the status code for the caller, and the text for the
/// diagnostic stream where the component reported a failure.
#[derive(Clone, Debug, PartialEq, Eq)]
pub struct Outcome {
    pub status: i32,
    pub diagnostic: Option<String>,
}

impl Outcome {
    /// The call succeeded: status 0, and nothing to print.
    pub open spec fn is_success(&self) -> bool {
        self.status == 0 && self.diagnostic is None
    }

    /// The call was refused before the component was touched: status 1, and
    /// nothing to print.
    pub open spec fn is_refusal(&self) -> bool {
        self.status == 1 && self.diagnostic is None
    }

    /// The component failed: status 1, and what it reported.
    pub open spec fn is_failure(&self) -> bool {
        self.status == 1 && self.diagnostic is Some
    }

    /// The outcome of an operation that ended in `result`.
    pub open spec fn is_outcome_of<T>(&self, result: Result<T, String>) -> bool {
        match result {
            Ok(_) => self.is_success(),
            Err(e) => self.is_failure() && self.diagnostic->0@ == e@,
        }
    }

    /// The outcome of a call that is refused: a required pointer was null, or
    /// a name was not text.
    pub fn refused() -> (r: Outcome)
        ensures
            r.is_refusal(),
    {
        Outcome { status: STATUS_FAILED, diagnostic: None }
    }

    /// The outcome of an operation that returns nothing.
    pub fn of_result(result: Result<(), String>) -> (r: Outcome)
        ensures
            r.is_outcome_of(result),
    {
        match result {
            Ok(()) => Outcome { status: STATUS_OK, diagnostic: None },
            Err(e) => Outcome { status: STATUS_FAILED, diagnostic: Some(e) },
        }
    }
}

/// Creates a component from the text of its module.
///
/// `content` is what was read from the file that `file_name` names, `None`
/// if the file could not be read. The result is `None`, the null handle,
/// when one of the three names is null or is not UTF-8, when there is no
/// content, when a name or the content has a NUL inside, and when the
/// interpreter does not load the module or construct the class. The
/// interpreter lock is held while it does. The component that comes back
/// passes its doubles through `doubles`.
pub fn cpy_new<C: DoubleCodec>(
    file_name: Option<&[u8]>,
    module_name: Option<&[u8]>,
    class_name: Option<&[u8]>,
    content: Option<String>,
    doubles: C,
) -> (r: Option<CPy<C>>)
    ensures
        c_name(file_name) is None ==> r is None,
        c_name(module_name) is None ==> r is None,
        c_name(class_name) is None ==> r is None,
        content is None ==> r is None,
        content matches Some(text) ==> c_string(text@) is None ==> r is None,
        r matches Some(cpy) ==> cpy.codec() == doubles,
{
    let file_name = match read_c_text(file_name) {
        Some(s) => s,
        None => {
            return None;
        },
    };
    let module_name = match read_c_text(module_name) {
        Some(s) => s,
        None => {
            return None;
        },
    };
    let class_name = match read_c_text(class_name) {
        Some(s) => s,
        None => {
            return None;
        },
    };
    let content = match content {
        Some(s) => s,
        None => {
            return None;
        },
    };
    let module = CPyModule {
        content,
        module_name: String::from_str(module_name),
        file_name: String::from_str(file_name),
    };
    let create = |py: Python| -> (r: Result<CPy<C>, String>)
        ensures
            !module.free_of_nul() || c_string(class_name@) is None ==> r is Err,
            r is Ok ==> r->Ok_0.codec() == doubles,
        { CPy::new(py, module, class_name, doubles) };
    let res = Python::with_gil(create);
    match res {
        Ok(cpy) => Some(cpy),
        Err(_) => None,
    }
}

/// Calls `configure` on the component. Without a handle the call is refused;
/// with one it succeeds or reports what the component raised.
pub fn cpy_configure<C: DoubleCodec>(c_cpy: Option<&CPy<C>>) -> (r: Outcome)
    ensures
        c_cpy is None ==> r.is_refusal(),
        c_cpy is Some ==> r.is_success() || r.is_failure(),
        r.is_failure() ==> exception_text(r.diagnostic->0@),
{
    match c_cpy {
        None => Outcome::refused(),
        Some(cpy) => Outcome::of_result(cpy.configure()),
    }
}

/// Calls `run` on the component. Without a handle the call is refused; with
/// one it succeeds or reports what the component raised.
pub fn cpy_run<C: DoubleCodec>(c_cpy: Option<&CPy<C>>) -> (r: Outcome)
    ensures
        c_cpy is None ==> r.is_refusal(),
        c_cpy is Some ==> r.is_success() || r.is_failure(),
        r.is_failure() ==> exception_text(r.diagnostic->0@),
{
    match c_cpy {
        None => Outcome::refused(),
        Some(cpy) => Outcome::of_result(cpy.run()),
    }
}

/// Reads the component's ports into a buffer of flat records.
///
/// On success the buffer is written to `c_ports` and its length to `c_num`,
/// and both are the caller's: the buffer is to be handed to `cpy_free_ports`
/// once. The buffer is the flat form of a mapping: no name is in it twice.
/// On a refusal and on a failure neither is touched, so the caller never sees
/// a part of a result. (In the contract, `*buffer` and `*num` are what the two
/// held when the call began.)
pub fn cpy_get<C: DoubleCodec>(
    c_cpy: Option<&CPy<C>>,
    c_ports: Option<&mut Vec<CPyPort>>,
    c_num: Option<&mut usize>,
) -> (r: Outcome)
    ensures
        c_cpy is None || c_ports is None || c_num is None ==> r.is_refusal(),
        c_cpy is Some && c_ports is Some && c_num is Some ==> r.is_success() || r.is_failure(),
        r.is_failure() ==> exception_text(r.diagnostic->0@),
        c_ports matches Some(buffer) ==> if r.is_success() {
            exists|entries: Seq<(Seq<char>, Value)>|
                distinct_names(entries) && records(final(buffer)@) == flatten(entries)
        } else {
            *final(buffer) == *buffer
        },
        c_num matches Some(num) ==> if r.is_success() {
            c_ports matches Some(buffer) && *final(num) == final(buffer)@.len()
        } else {
            *final(num) == *num
        },
{
    let cpy = match c_cpy {
        Some(cpy) => cpy,
        None => {
            return Outcome::refused();
        },
    };
    let buffer = match c_ports {
        Some(buffer) => buffer,
        None => {
            return Outcome::refused();
        },
    };
    let num = match c_num {
        Some(num) => num,
        None => {
            return Outcome::refused();
        },
    };
    match cpy.get() {
        Ok(ports) => {
            let flat = as_c_ports(&ports);
            *num = flat.len();
            *buffer = flat;
            Outcome { status: STATUS_OK, diagnostic: None }
        },
        Err(e) => Outcome { status: STATUS_FAILED, diagnostic: Some(e) },
    }
}

/// Takes a buffer that `cpy_get` handed out and lets go of it, records and
/// names. Without a buffer there is nothing to do.
pub fn cpy_free_ports(c_ports: Option<Vec<CPyPort>>) {
    match c_ports {
        Some(_buffer) => {},
        None => {},
    }
}

/// Writes the ports of a buffer of flat records into the component.
///
/// The buffer is used up, whatever the outcome. The call is refused, before
/// the component is touched, when the handle or the buffer is null and when
/// one of the names is null or is not UTF-8. Otherwise it succeeds or reports
/// what the component raised.
pub fn cpy_set<C: DoubleCodec>(c_cpy: Option<&CPy<C>>, c_ports: Option<Vec<CPyPort>>) -> (r:
    Outcome)
    ensures
        c_cpy is None || c_ports is None ==> r.is_refusal(),
        c_ports matches Some(buffer) ==> unflatten(records(buffer@)) is None ==> r.is_refusal(),
        c_cpy is Some && c_ports is Some && unflatten(records(c_ports->0@)) is Some
            ==> r.is_success() || r.is_failure(),
        r.is_failure() ==> exception_text(r.diagnostic->0@),
{
    let cpy = match c_cpy {
        Some(cpy) => cpy,
        None => {
            return Outcome::refused();
        },
    };
    let buffer = match c_ports {
        Some(buffer) => buffer,
        None => {
            return Outcome::refused();
        },
    };
    let ports = match from_c_ports(buffer) {
        Some(ports) => ports,
        None => {
            return Outcome::refused();
        },
    };
    Outcome::of_result(cpy.set(ports))
}

} // verus!
