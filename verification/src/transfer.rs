//! The transfer itself: from a host buffer to an array in the Python runtime.
//!
//! A transfer first settles, with no help from the runtime, what will cross
//! the boundary: the dtype name and the flat byte sequence. It then looks up
//! `numpy.frombuffer` and calls it. The bytes are copied into a `bytes` object
//! that the runtime owns, so the array never points into the host buffer and
//! the caller may drop or change the buffer as soon as the call returns.

use vstd::prelude::*;
use pyo3::Py;
use pyo3::PyAny;
use pyo3::PyErr;
use pyo3::Python;
use crate::dtype::identifier;
use crate::dtype::width;
use crate::dtype::width_of;
use crate::dtype::NumpyDtype;
use crate::encoding::addressable;
use crate::encoding::byte_image;
use crate::encoding::byte_length;
use crate::encoding::byte_view;
use crate::encoding::elements_of;
use crate::encoding::ByteOrder;
use crate::runtime::attribute;
use crate::runtime::call;
use crate::runtime::import_module;
use crate::runtime::new_bytes;
use crate::runtime::new_dict;
use crate::runtime::new_string;
use crate::runtime::set_item;
use crate::runtime::unbind;

verus! {

/// The module that holds the array-construction entry point.
pub const MODULE: &'static str = "numpy";

/// The name of the entry point within [`MODULE`].
pub const ENTRY_POINT: &'static str = "frombuffer";

/// The keyword under which the entry point takes the dtype name.
pub const DTYPE_KEYWORD: &'static str = "dtype";

/// Why a transfer produced no array.
#[derive(Debug)]
pub enum BoundaryFailure {
    /// The buffer's byte length, `count` elements of `width` bytes, is more
    /// than the runtime's length type can hold.
    ByteLength { count: usize, width: usize },
    /// The runtime could not supply `numpy.frombuffer`; the exception says
    /// whether the module or the function was missing.
    Resolution(PyErr),
    /// `numpy.frombuffer` was found, but preparing or making the call raised
    /// the exception.
    Construction(PyErr),
}

/// What crosses the boundary: the dtype name and the bytes of the buffer.
#[derive(Debug)]
pub struct Payload {
    pub dtype: &'static str,
    pub bytes: Vec<u8>,
}

impl Payload {
    /// Reads `buffer` into a payload: the registered name of its element
    /// type, and its elements as bytes in the byte order `order`, from which
    /// a reader gets the elements back. There is no payload exactly when the
    /// byte length is not addressable.
    pub fn of<T: NumpyDtype>(buffer: &Vec<T>, order: ByteOrder) -> (payload: Option<Payload>)
        ensures
            payload is Some <==> addressable(buffer@.len(), width(T::kind())),
            payload matches Some(p) ==> p.dtype@ == identifier(T::kind()),
            payload matches Some(p) ==> p.bytes@ == byte_image(buffer@, order),
            payload matches Some(p) ==> p.bytes@.len() == buffer@.len() * width(T::kind()),
            payload matches Some(p) ==> elements_of::<T>(p.bytes@, order) == buffer@,
    {
        if byte_length(buffer.len(), width_of(T::element_kind())).is_none() {
            return None;
        }
        proof {
            T::dtype_is_registered();
        }
        Some(Payload { dtype: T::DTYPE, bytes: byte_view(buffer, order) })
    }
}

/// Reports the outcome of a lookup in the runtime: what was found is passed
/// on, and an exception becomes a resolution failure that carries it.
pub fn resolved<T>(outcome: Result<T, PyErr>) -> (r: Result<T, BoundaryFailure>)
    ensures
        outcome matches Ok(found) ==> r == Ok::<T, BoundaryFailure>(found),
        outcome matches Err(raised) ==> r == Err::<T, BoundaryFailure>(
            BoundaryFailure::Resolution(raised),
        ),
{
    match outcome {
        Ok(found) => Ok(found),
        Err(raised) => Err(BoundaryFailure::Resolution(raised)),
    }
}

/// Reports the outcome of a step of the construction call: what was made is
/// passed on, and an exception becomes a construction failure that carries
/// it, so that a failed call never yields an array.
pub fn constructed<T>(outcome: Result<T, PyErr>) -> (r: Result<T, BoundaryFailure>)
    ensures
        outcome matches Ok(made) ==> r == Ok::<T, BoundaryFailure>(made),
        outcome matches Err(raised) ==> r == Err::<T, BoundaryFailure>(
            BoundaryFailure::Construction(raised),
        ),
{
    match outcome {
        Ok(made) => Ok(made),
        Err(raised) => Err(BoundaryFailure::Construction(raised)),
    }
}

/// Builds the array for `payload`: resolves `numpy.frombuffer` and calls it
/// with a copy of the payload's bytes and `dtype` set to the payload's name.
/// The array is one-dimensional. A payload whose length the runtime cannot
/// address is refused before the runtime is asked. Otherwise the runtime
/// decides: a failure is a resolution or a construction failure and carries
/// the runtime's exception.
pub fn frombuffer<'py>(py: Python<'py>, payload: &Payload) -> (r: Result<Py<PyAny>, BoundaryFailure>)
    ensures
        !addressable(payload.bytes@.len(), 1) ==> r == Err::<Py<PyAny>, BoundaryFailure>(
            BoundaryFailure::ByteLength { count: payload.bytes.len(), width: 1 },
        ),
        addressable(payload.bytes@.len(), 1) ==> (r matches Err(failure) ==> failure is Resolution
            || failure is Construction),
{
    if byte_length(payload.bytes.len(), 1).is_none() {
        return Err(BoundaryFailure::ByteLength { count: payload.bytes.len(), width: 1 });
    }
    let module = resolved(import_module(py, MODULE))?;
    let entry = resolved(attribute(&module, ENTRY_POINT))?;
    let keywords = new_dict(py);
    constructed(set_item(&keywords, DTYPE_KEYWORD, new_string(py, payload.dtype)))?;
    let bytes = new_bytes(py, payload.bytes.as_slice());
    let array = constructed(call(&entry, bytes, &keywords))?;
    Ok(unbind(array))
}

/// Conversion of a host buffer into a NumPy array.
pub trait ToNumpy {
    /// Hands the buffer to NumPy and returns the array made from it. The
    /// token `py` shows that the caller holds the interpreter lock, and holds
    /// it until after the call has returned.
    fn to_numpy<'py>(self, py: Python<'py>) -> Result<Py<PyAny>, BoundaryFailure>;
}

impl<'a, T: NumpyDtype> ToNumpy for &'a mut Vec<T> {
    /// The array holds the buffer's elements in order, under the dtype
    /// registered for `T`, in this machine's byte order. The buffer is left
    /// as it was, whether or not the transfer succeeds, and a byte length
    /// that cannot be addressed is refused before the runtime is asked.
    fn to_numpy<'py>(self, py: Python<'py>) -> (r: Result<Py<PyAny>, BoundaryFailure>)
        ensures
            final(self)@ == old(self)@,
            !addressable(old(self)@.len(), width(T::kind())) ==> (r matches Err(
                BoundaryFailure::ByteLength { count, width: w },
            ) && count == old(self)@.len() && w == width(T::kind())),
            addressable(old(self)@.len(), width(T::kind())) ==> (r matches Err(failure)
                ==> failure is Resolution || failure is Construction),
    {
        match Payload::of(self, ByteOrder::native()) {
            Some(payload) => frombuffer(py, &payload),
            None => Err(
                BoundaryFailure::ByteLength {
                    count: self.len(),
                    width: width_of(T::element_kind()),
                },
            ),
        }
    }
}

} // verus!
