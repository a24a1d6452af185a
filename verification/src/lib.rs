//! User-defined functions written in Python, called on Arrow record batches.
//!
//! A [`Runtime`] holds the functions that were registered in one instance of the Python
//! interpreter. [`Runtime::call`] runs one of them on every row of a [`Batch`] and gives
//! the results as a batch of one column. On the way in, [`to_guest_object`] turns each
//! cell into a [`GuestValue`]; on the way out, [`build_array`] turns the results into a
//! [`Column`] of the function's return type, or names the row whose result does not fit.
//!
//! Every function that touches the interpreter takes a `pyo3::Python` token. The token
//! stands for the exclusive right to run guest code in one interpreter instance, for as
//! long as the scope lasts that handed it out. The runtime makes no instance and enters
//! none: whoever calls it holds the instance, and uses one runtime with one instance
//! only.
//!
//! Contracts are stated over [`Value`], the mathematical model of a cell and of a guest
//! object. What an Arrow array or record batch holds is named by the functions of
//! [`column`]; what the interpreter does with guest code is not modelled, so of the
//! results of guest code the contracts say what holds whatever the guest returned.

pub mod column;
pub mod error;
mod guest;
pub mod marshal;
mod python;
pub mod runtime;
pub mod value;

pub use column::{Batch, Column};
pub use error::Error;
pub use marshal::{build_array, guest_object_at, to_guest_object};
pub use runtime::{sandbox, sandbox_script, CallMode, Function, Loaded, Runtime};
pub use value::{ColumnType, GuestValue, Value};
