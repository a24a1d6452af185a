//! Guest values on their way into the interpreter and out of it.

use crate::python::{
    as_bool, as_bytes, as_int, as_text, call, error_text, from_bool, from_bytes, from_int,
    from_text, is_none, no_value,
};
use crate::value::{GuestValue, Value};
use pyo3::{PyObject, Python};
use vstd::prelude::*;

verus! {

/// Makes the guest object that stands for `value`.
pub(crate) fn to_python<'py>(py: Python<'py>, value: &GuestValue) -> (object: PyObject)
    requires
        value@ != Value::Other,
{
    match value {
        GuestValue::NoValue => no_value(py),
        GuestValue::Bool(b) => from_bool(py, *b),
        GuestValue::Int(i) => from_int(py, *i),
        GuestValue::Text(t) => from_text(py, t.as_str()),
        GuestValue::Bytes(b) => from_bytes(py, b.as_slice()),
        GuestValue::Other => no_value(py),
    }
}

/// Brings a guest object to the host side: looks at it in every way that a column value
/// can be looked at and lets `GuestValue::classify` decide.
pub(crate) fn from_python<'py>(py: Python<'py>, object: &PyObject) -> (value: GuestValue) {
    GuestValue::classify(
        is_none(py, object),
        as_bool(py, object),
        as_int(py, object),
        as_text(py, object),
        as_bytes(py, object),
    )
}

/// Calls the guest callable on the arguments, in their order, and brings back its result
/// or the text of the exception that it raised.
pub(crate) fn invoke<'py>(
    py: Python<'py>,
    callable: &PyObject,
    arguments: &Vec<GuestValue>,
) -> (result: Result<GuestValue, String>)
    requires
        forall|i: int| 0 <= i < arguments@.len() ==> (#[trigger] arguments@[i])@ != Value::Other,
{
    let mut objects: Vec<PyObject> = Vec::new();
    let mut i: usize = 0;
    while i < arguments.len()
        invariant
            i <= arguments@.len(),
            forall|i: int| 0 <= i < arguments@.len() ==> (#[trigger] arguments@[i])@ != Value::Other,
        decreases arguments@.len() - i,
    {
        objects.push(to_python(py, &arguments[i]));
        i = i + 1;
    }
    match call(py, callable, objects) {
        Ok(object) => Ok(from_python(py, &object)),
        Err(error) => Err(error_text(py, &error)),
    }
}

} // verus!
