//! Typed, shape-checked extraction of the quantities that describe a tokamak
//! equilibrium from the variables of a netCDF dataset.
//!
//! Every number is carried as the bit pattern of an IEEE 754 double-precision
//! value (a `u64`), so that all of the library can be reasoned about with
//! integers; [`ieee`] gives the few facts about such patterns that are needed.
pub mod array;
pub mod equilibrium;
pub mod error;
pub mod extract;
pub mod file;
pub mod ieee;
pub mod ncdata;
pub mod scalars;
pub mod variable_names;

pub use array::{Field, Profile};
pub use equilibrium::Equilibrium;
pub use error::{LibraryError, NcError};
pub use extract::{
    check_if_empty, extract_1d_var, extract_2d_var, extract_scalar, extract_var_with_axis_value,
    extract_var_with_first_axis_value, extract_variable,
};
pub use file::{File, Opened, Variable};
pub use ncdata::NcData;
pub use scalars::Scalars;
