//! The embedded Python interpreter, as far as the runtime calls it.
//!
//! Nothing in this file is proved. It declares the types of `pyo3` that pass through the
//! runtime and gives each `pyo3` call a function of its own. What a guest object holds is
//! decided by the interpreter, so none of them promises anything of its result. Every one
//! of them takes the token that stands for the exclusive right to run guest code in one
//! interpreter instance; whoever holds such a token has that right.

use pyo3::types::{PyModule, PyTuple};
use pyo3::{IntoPy, Py, PyAny, PyErr, PyObject, Python};
use vstd::prelude::*;

verus! {

#[verifier::external_type_specification]
#[verifier::external_body]
pub struct ExPython<'py>(Python<'py>);

#[verifier::external_type_specification]
#[verifier::external_body]
pub struct ExPyAny(PyAny);

#[verifier::external_type_specification]
#[verifier::external_body]
#[verifier::reject_recursive_types(T)]
pub struct ExPy<T>(Py<T>);

#[verifier::external_type_specification]
#[verifier::external_body]
pub struct ExPyErr(PyErr);

/// `Python::None`: the guest's "no value" object.
#[verifier::external_body]
pub(crate) fn no_value<'py>(py: Python<'py>) -> (object: PyObject) {
    py.None()
}

/// `IntoPy::into_py` of a `bool`: a guest boolean.
#[verifier::external_body]
pub(crate) fn from_bool<'py>(py: Python<'py>, value: bool) -> (object: PyObject) {
    value.into_py(py)
}

/// `IntoPy::into_py` of an `i64`: a guest integer.
#[verifier::external_body]
pub(crate) fn from_int<'py>(py: Python<'py>, value: i64) -> (object: PyObject) {
    value.into_py(py)
}

/// `IntoPy::into_py` of a `&str`: a guest text.
#[verifier::external_body]
pub(crate) fn from_text<'py>(py: Python<'py>, value: &str) -> (object: PyObject) {
    value.into_py(py)
}

/// `IntoPy::into_py` of a `&[u8]`: a guest byte string.
#[verifier::external_body]
pub(crate) fn from_bytes<'py>(py: Python<'py>, value: &[u8]) -> (object: PyObject) {
    value.into_py(py)
}

/// `Py::is_none`: whether the object is the guest's "no value" object.
#[verifier::external_body]
pub(crate) fn is_none<'py>(py: Python<'py>, object: &PyObject) -> (none: bool) {
    object.is_none(py)
}

/// `Py::extract` to `bool`, which succeeds on a guest boolean only.
#[verifier::external_body]
pub(crate) fn as_bool<'py>(py: Python<'py>, object: &PyObject) -> (value: Option<bool>) {
    object.extract::<bool>(py).ok()
}

/// `Py::extract` to `i64`, which succeeds on what the guest can use as an index, a guest
/// boolean too, where the integer fits 64 bits.
#[verifier::external_body]
pub(crate) fn as_int<'py>(py: Python<'py>, object: &PyObject) -> (value: Option<i64>) {
    object.extract::<i64>(py).ok()
}

/// `Py::extract` to `String`, which succeeds on a guest text that UTF-8 can encode.
#[verifier::external_body]
pub(crate) fn as_text<'py>(py: Python<'py>, object: &PyObject) -> (value: Option<String>) {
    object.extract::<String>(py).ok()
}

/// `Py::extract` to `&[u8]`, which succeeds on a guest byte string only; the bytes are
/// copied.
#[verifier::external_body]
pub(crate) fn as_bytes<'py>(py: Python<'py>, object: &PyObject) -> (value: Option<Vec<u8>>) {
    object.extract::<&[u8]>(py).ok().map(|bytes| bytes.to_vec())
}

/// `Py::call1` on a tuple that `PyTuple::new` makes of the arguments: the guest callable's
/// result, or the exception that it raised.
#[verifier::external_body]
pub(crate) fn call<'py>(
    py: Python<'py>,
    callable: &PyObject,
    arguments: Vec<PyObject>,
) -> (result: Result<PyObject, PyErr>) {
    callable.call1(py, PyTuple::new(py, arguments))
}

/// `PyModule::new`: a new guest module of the given name, which no other code has seen,
/// or the exception raised for a name that cannot be one. It begins by making a C string
/// of the name with `CString::new`, which fails on a NUL character, whatever the
/// interpreter holds.
#[verifier::external_body]
pub(crate) fn new_module<'py>(py: Python<'py>, name: &str) -> (module: Result<PyObject, PyErr>)
    ensures
        name@.contains('\0') ==> module is Err,
{
    PyModule::new(py, name).map(|module| module.into())
}

/// `Python::run` with the dictionary of the module, which `Py::downcast` and
/// `PyModule::dict` give, as globals and locals: runs the statements in the module, or
/// gives the exception raised, also for an object that is no module. `Python::run`
/// begins by making a C string of the code with `CString::new`, which fails on a NUL
/// character, whatever the interpreter holds.
#[verifier::external_body]
pub(crate) fn run_in<'py>(
    py: Python<'py>,
    code: &str,
    module: &PyObject,
) -> (done: Result<(), PyErr>)
    ensures
        code@.contains('\0') ==> done is Err,
{
    py.run(code, Some(module.downcast::<PyModule>(py)?.dict()), None)
}

/// `Py::getattr`: the attribute of that name, or the exception raised for its absence.
#[verifier::external_body]
pub(crate) fn attribute<'py>(
    py: Python<'py>,
    object: &PyObject,
    name: &str,
) -> (found: Result<PyObject, PyErr>) {
    object.getattr(py, name)
}

/// `PyAny::is_callable`: whether the guest can call the object.
#[verifier::external_body]
pub(crate) fn is_callable<'py>(py: Python<'py>, object: &PyObject) -> (callable: bool) {
    object.as_ref(py).is_callable()
}

/// `Python::run` with the interpreter's own globals and locals: runs the statements, or
/// gives the exception raised.
#[verifier::external_body]
pub(crate) fn run<'py>(py: Python<'py>, code: &str) -> (done: Result<(), PyErr>) {
    py.run(code, None, None)
}

/// `PyErr::value` and the `Display` of the exception object: the exception's message.
#[verifier::external_body]
pub(crate) fn error_text<'py>(py: Python<'py>, error: &PyErr) -> (text: String) {
    error.value(py).to_string()
}

} // verus!
