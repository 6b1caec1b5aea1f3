//! The embedded interpreter, as far as this crate calls it.
//!
//! Nothing in this file is proved. Each item either declares a type of `pyo3`
//! so that it can be carried through verified code, or makes one function of
//! `pyo3` available to it. What the interpreter answers depends on the
//! component's own code, so these functions promise nothing about what it
//! answers. Four of them have a contract that rests on `pyo3` alone:
//! `Python::with_gil` runs what it is given, `PyModule::from_code` and
//! `Python::eval` turn down a text with a NUL inside before the interpreter
//! sees it, and the `Display` form of a `PyErr` has a fixed shape.
//!
//! What the interpreter refuses comes back as a `PyErr`, or as `None`, and
//! no argument by itself makes a call here panic. Two things remain that no
//! caller can rule out. `pyo3` gives up where the interpreter cannot allocate
//! an object. And where the exception that `pyo3` fetches is its own
//! `PanicException`, which a component can reach among the subclasses of
//! `BaseException` and raise, `pyo3` resumes the unwinding instead of
//! returning the exception. A host that must not unwind has to catch that at
//! its own boundary.

use crate::text::c_string;
use pyo3::exceptions::PyIndexError;
use pyo3::types::{IntoPyDict, PyDict, PyModule};
use pyo3::{IntoPy, Py, PyAny, PyErr, PyObject, Python};
use std::fmt::Write;
use vstd::prelude::*;

verus! {

/// The shape of the text of an exception: the name of its type, a colon and
/// a space, and what the exception says of itself; or nothing at all, where
/// the interpreter could not name the type.
pub open spec fn exception_text(text: Seq<char>) -> bool {
    text.len() == 0 || exists|i: int|
        0 <= i && i + 1 < text.len() && #[trigger] text[i] == ':' && text[i + 1] == ' '
}

/// `pyo3::Python`, the token that shows that the global interpreter lock is
/// held.
#[verifier::external_type_specification]
#[verifier::external_body]
pub struct ExPython<'py>(Python<'py>);

/// `pyo3::PyAny`, an object of the interpreter.
#[verifier::external_type_specification]
#[verifier::external_body]
pub struct ExPyAny(PyAny);

/// `pyo3::types::PyDict`, a `dict` of the interpreter.
#[verifier::external_type_specification]
#[verifier::external_body]
pub struct ExPyDict(PyDict);

/// `pyo3::types::PyModule`, a module of the interpreter.
#[verifier::external_type_specification]
#[verifier::external_body]
pub struct ExPyModule(PyModule);

/// `pyo3::Py`, an owned reference to an object of the interpreter.
#[verifier::external_type_specification]
#[verifier::external_body]
#[verifier::reject_recursive_types(T)]
pub struct ExPy<T>(Py<T>);

/// `pyo3::PyErr`, an exception of the interpreter.
#[verifier::external_type_specification]
#[verifier::external_body]
pub struct ExPyErr(PyErr);

/// `Python::with_gil` takes the global interpreter lock, calls `f` once with
/// the token and hands back what `f` returned. The lock is held for the whole
/// call of `f` and for nothing else. With the feature `auto-initialize`, which
/// this crate switches on, the interpreter is started if it is not running.
pub assume_specification<'a, F, R>[ Python::<'a>::with_gil ](f: F) -> (r: R) where
    F: for <'py>FnOnce(Python<'py>) -> R,

    requires
        forall|py: Python| call_requires(f, (py,)),
    ensures
        exists|py: Python| call_ensures(f, (py,), r),
;

/// `PyModule::from_code`: compiles `content` and runs it as the module
/// `module_name`. It first makes a C string of each of the three texts, and
/// returns the error of that where one of them has a NUL inside. Whether it
/// succeeds on other texts is for the interpreter to say.
#[verifier::external_body]
pub(crate) fn load_module(
    py: Python<'_>,
    content: &str,
    file_name: &str,
    module_name: &str,
) -> (module: Result<Py<PyModule>, PyErr>)
    ensures
        c_string(content@) is None || c_string(file_name@) is None || c_string(module_name@)
            is None ==> module is Err,
{
    match PyModule::from_code(py, content, file_name, module_name) {
        Ok(module) => Ok(module.into()),
        Err(e) => Err(e),
    }
}

/// `Python::import`: imports the module `name`.
#[verifier::external_body]
pub(crate) fn import_module(py: Python<'_>, name: &str) -> (module: Result<
    Py<PyModule>,
    PyErr,
>) {
    match py.import(name) {
        Ok(module) => Ok(module.into()),
        Err(e) => Err(e),
    }
}

/// `IntoPyDict::into_py_dict` on two pairs: a new `dict` that binds two names
/// to two modules. It inserts under string keys into a fresh `dict`, which
/// fails only when the interpreter is out of memory.
#[verifier::external_body]
pub(crate) fn module_locals(
    py: Python<'_>,
    first_name: &str,
    first: &Py<PyModule>,
    second_name: &str,
    second: &Py<PyModule>,
) -> (locals: Py<PyDict>) {
    [(first_name, first.as_ref(py)), (second_name, second.as_ref(py))].into_py_dict(py).into()
}

/// `Python::eval`: evaluates the expression `code` with `locals` as its local
/// names and `__main__` as its globals. It first makes a C string of `code`,
/// and returns the error of that where `code` has a NUL inside. Whether it
/// succeeds on another text is for the interpreter to say.
#[verifier::external_body]
pub(crate) fn eval_with_locals(
    py: Python<'_>,
    code: &str,
    locals: &Py<PyDict>,
) -> (value: Result<PyObject, PyErr>)
    ensures
        c_string(code@) is None ==> value is Err,
{
    match py.eval(code, None, Some(locals.as_ref(py))) {
        Ok(object) => Ok(object.into()),
        Err(e) => Err(e),
    }
}

/// `Py::call_method0`: calls the method `name` of `object` without arguments.
#[verifier::external_body]
pub(crate) fn call_method0(py: Python<'_>, object: &PyObject, name: &str) -> (returned: Result<
    PyObject,
    PyErr,
>) {
    object.call_method0(py, name)
}

/// `Py::getattr`: reads the attribute `name` of `object`.
#[verifier::external_body]
pub(crate) fn getattr(py: Python<'_>, object: &PyObject, name: &str) -> (attribute: Result<
    PyObject,
    PyErr,
>) {
    object.getattr(py, name)
}

/// `PyAny::downcast` to `PyDict`: `object` as a `dict`, or the `TypeError`
/// that the failed downcast converts to.
#[verifier::external_body]
pub(crate) fn as_dict(py: Python<'_>, object: &PyObject) -> (dict: Result<Py<PyDict>, PyErr>) {
    match object.as_ref(py).downcast::<PyDict>() {
        Ok(dict) => Ok(dict.into()),
        Err(e) => Err(e.into()),
    }
}

/// `PyDict::iter`: the pairs of `dict`, each key with its value, in the order
/// of the `dict`. Nothing of the interpreter runs between two steps, so the
/// `dict` does not change under the iterator.
#[verifier::external_body]
pub(crate) fn dict_items(py: Python<'_>, dict: &Py<PyDict>) -> (items: Vec<(PyObject, PyObject)>) {
    dict.as_ref(py).iter().map(|(key, value)| (key.into(), value.into())).collect()
}

/// `PyDict::get_item`: the value under `key`, or `None` if there is none or
/// the lookup raised.
#[verifier::external_body]
pub(crate) fn dict_get_item(py: Python<'_>, dict: &Py<PyDict>, key: &str) -> (found: Option<
    PyObject,
>) {
    match dict.as_ref(py).get_item(key) {
        Some(value) => Some(value.into()),
        None => None,
    }
}

/// `PyDict::set_item`: binds `key` to `value` in `dict`.
#[verifier::external_body]
pub(crate) fn dict_set_item(
    py: Python<'_>,
    dict: &Py<PyDict>,
    key: &str,
    value: PyObject,
) -> (written: Result<(), PyErr>) {
    dict.as_ref(py).set_item(key, value)
}

/// `Py::extract` to `String`: the text of a `str` of the interpreter.
#[verifier::external_body]
pub(crate) fn extract_string(py: Python<'_>, object: &PyObject) -> (text: Result<String, PyErr>) {
    object.extract::<String>(py)
}

/// `Py::extract` to `isize`: the integer that `object` converts to through
/// `__index__`, if it fits the machine word.
#[verifier::external_body]
pub(crate) fn extract_int(py: Python<'_>, object: &PyObject) -> (i: Result<isize, PyErr>) {
    object.extract::<isize>(py)
}

/// `Py::extract` to `bool`: the truth value of a `bool` of the interpreter.
#[verifier::external_body]
pub(crate) fn extract_bool(py: Python<'_>, object: &PyObject) -> (b: Result<bool, PyErr>) {
    object.extract::<bool>(py)
}

/// `IntoPy::into_py` for `isize`: an `int` of the interpreter.
#[verifier::external_body]
pub(crate) fn int_object(py: Python<'_>, i: isize) -> (object: PyObject) {
    i.into_py(py)
}

/// `IntoPy::into_py` for `bool`: `True` or `False`.
#[verifier::external_body]
pub(crate) fn bool_object(py: Python<'_>, b: bool) -> (object: PyObject) {
    b.into_py(py)
}

/// `PyIndexError::new_err`: an `IndexError` that carries `message`.
#[verifier::external_body]
pub(crate) fn index_error(message: &str) -> (e: PyErr) {
    PyIndexError::new_err(message.to_owned())
}

/// The `Display` form of a `PyErr`. `pyo3` writes the name of the
/// exception's type, then a colon and a space, then the text of the
/// exception or a fixed phrase where that cannot be had. Where the
/// interpreter cannot name the type it fails before it has written anything,
/// and the text is empty.
#[verifier::external_body]
pub(crate) fn error_text(e: &PyErr) -> (text: String)
    ensures
        exception_text(text@),
{
    let mut text = String::new();
    let _ = write!(text, "{}", e);
    text
}

} // verus!
