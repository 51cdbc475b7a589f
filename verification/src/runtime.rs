//! The door to the Python runtime.
//!
//! Everything in this file is taken on trust: the PyO3 types are declared as
//! opaque, and each function is one PyO3 call with nothing proved about it.
//! What a call returns depends on the state of the interpreter, so none of
//! them promises a result. Holding a [`Python`] token means the caller is
//! attached to the interpreter for as long as the token lives.

use vstd::prelude::*;
use pyo3::types::PyAnyMethods;
use pyo3::types::PyBytes;
use pyo3::types::PyDict;
use pyo3::types::PyDictMethods;
use pyo3::types::PyString;
use pyo3::Bound;
use pyo3::Py;
use pyo3::PyAny;
use pyo3::PyErr;
use pyo3::Python;

verus! {

/// `pyo3::Python`: the token that proves the interpreter lock is held.
#[verifier::external_type_specification]
#[verifier::external_body]
pub struct ExPython<'py>(Python<'py>);

/// `pyo3::Bound`: a reference to a Python object, tied to a token.
#[verifier::external_type_specification]
#[verifier::external_body]
#[verifier::reject_recursive_types(T)]
pub struct ExBound<'py, T>(Bound<'py, T>);

/// `pyo3::Py`: a reference to a Python object that outlives the token.
#[verifier::external_type_specification]
#[verifier::external_body]
#[verifier::reject_recursive_types(T)]
pub struct ExPy<T>(Py<T>);

/// `pyo3::PyAny`: a Python object of any type.
#[verifier::external_type_specification]
#[verifier::external_body]
pub struct ExPyAny(PyAny);

/// `pyo3::types::PyDict`: a Python dictionary.
#[verifier::external_type_specification]
#[verifier::external_body]
pub struct ExPyDict(PyDict);

/// `pyo3::PyErr`: a Python exception.
#[verifier::external_type_specification]
#[verifier::external_body]
pub struct ExPyErr(PyErr);

/// `Python::import`: imports the module called `name`, as the statement
/// `import name` does. Fails with the exception the import raised.
#[verifier::external_body]
pub(crate) fn import_module<'py>(py: Python<'py>, name: &str) -> Result<Bound<'py, PyAny>, PyErr> {
    py.import(name).map(Bound::into_any)
}

/// `PyAnyMethods::getattr`: looks up `object.name`. Fails with the exception
/// the lookup raised.
#[verifier::external_body]
pub(crate) fn attribute<'py>(object: &Bound<'py, PyAny>, name: &str) -> Result<
    Bound<'py, PyAny>,
    PyErr,
> {
    object.getattr(name)
}

/// `PyDict::new`: a new empty dictionary.
#[verifier::external_body]
pub(crate) fn new_dict<'py>(py: Python<'py>) -> Bound<'py, PyDict> {
    PyDict::new(py)
}

/// `PyDictMethods::set_item`: performs `dict[key] = value`. Fails with the
/// exception the assignment raised.
#[verifier::external_body]
pub(crate) fn set_item<'py>(dict: &Bound<'py, PyDict>, key: &str, value: Bound<'py, PyAny>) -> Result<
    (),
    PyErr,
> {
    dict.set_item(key, value)
}

/// `PyString::new`: a new Python `str` holding a copy of `text`.
#[verifier::external_body]
pub(crate) fn new_string<'py>(py: Python<'py>, text: &str) -> Bound<'py, PyAny> {
    PyString::new(py, text).into_any()
}

/// `PyBytes::new`: a new Python `bytes` holding a copy of `bytes`. The call
/// hands the length over as a signed size, so the length has to fit one.
#[verifier::external_body]
pub(crate) fn new_bytes<'py>(py: Python<'py>, bytes: &[u8]) -> Bound<'py, PyAny>
    requires
        bytes@.len() <= isize::MAX,
{
    PyBytes::new(py, bytes).into_any()
}

/// `PyAnyMethods::call`: performs `callable(argument, **keywords)`. Fails
/// with the exception the call raised.
#[verifier::external_body]
pub(crate) fn call<'py>(
    callable: &Bound<'py, PyAny>,
    argument: Bound<'py, PyAny>,
    keywords: &Bound<'py, PyDict>,
) -> Result<Bound<'py, PyAny>, PyErr> {
    callable.call((argument,), Some(keywords))
}

/// `Bound::unbind`: the same object, no longer tied to the token.
#[verifier::external_body]
pub(crate) fn unbind<'py>(object: Bound<'py, PyAny>) -> Py<PyAny> {
    object.unbind()
}

} // verus!
