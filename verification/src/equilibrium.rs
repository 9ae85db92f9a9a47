//! A tokamak equilibrium: an opened dataset and where it came from.
use crate::array::{Field, Profile};
use crate::error::{Failure, NcError};
use crate::extract::{
    extract_1d_var, extract_2d_var, extract_scalar, outcome, read_1d, read_2d, read_scalar,
};
use crate::file::{File, Opened};
use crate::variable_names::{
    is_1d_name, is_2d_name, is_scalar_name, same_name, B_AXIS, B_FIELD, CURRENT_G, CURRENT_I,
    D2B_DPSI2, DB_DPSI, DB_DTHETA, PHI_TOR_EDGE, PSI_COORD, PSI_POL_AXIS, PSI_POL_EDGE, Q_FACTOR,
    R_AXIS, THETA_COORD, Z_AXIS,
};
use std::path::PathBuf;
use vstd::prelude::*;

verus! {

/// The reason given with the failure of the netCDF library to open a file.
pub const OPEN_FAILED: &'static str = "Error opening NetCDF file.";

/// The failure that stands for an attempt to open the file at `path` that gave
/// no dataset, if `opened` is one.
pub open spec fn open_failure(path: PathBuf, opened: Opened) -> Option<Failure> {
    match opened {
        Opened::Missing => Some(Failure::FileNotFound(path)),
        Opened::Failed(cause) => Some(Failure::NetCDF { source: cause@, reason: OPEN_FAILED@ }),
        Opened::Ready(_) => None,
    }
}

/// The dataset that an attempt to open a file gave, or the failure that
/// stands for the attempt.
pub fn opened_file(path: &PathBuf, opened: Opened) -> (r: Result<File, NcError>)
    ensures
        match r {
            Ok(file) => opened == Opened::Ready(file),
            Err(e) => open_failure(*path, opened) == Some(e@),
        },
{
    match opened {
        Opened::Missing => Err(NcError::FileNotFound(path.clone())),
        Opened::Failed(cause) => Err(
            NcError::NetCDF { source: cause, reason: OPEN_FAILED.to_owned() },
        ),
        Opened::Ready(file) => Ok(file),
    }
}

/// Tokamak Equilibrium Representation.
///
/// Provides methods for extracting the needed fields from the dataset.
#[derive(Debug)]
pub struct Equilibrium {
    /// Path to the netCDF file.
    pub path: PathBuf,
    /// The dataset that the file holds.
    pub file: File,
}

impl Equilibrium {
    /// Creates an equilibrium representation from what opening the netCDF file
    /// at `path` gave.
    pub fn from_file(path: &PathBuf, opened: Opened) -> (r: Result<Equilibrium, NcError>)
        ensures
            match r {
                Ok(equilibrium) => {
                    &&& opened == Opened::Ready(equilibrium.file)
                    &&& equilibrium.path == *path
                },
                Err(e) => open_failure(*path, opened) == Some(e@),
            },
    {
        match opened_file(path, opened) {
            Ok(file) => Ok(Equilibrium { path: path.clone(), file }),
            Err(e) => Err(e),
        }
    }

    /// Returns a scalar variable from the dataset.
    ///
    /// Available fields are [`B_AXIS`], [`R_AXIS`], [`Z_AXIS`], [`PSI_POL_AXIS`],
    /// [`PSI_POL_EDGE`] and [`PHI_TOR_EDGE`], which are defined in
    /// [`crate::variable_names`]. Any other name is reported as not found,
    /// whatever the dataset holds.
    pub fn get_scalar(&self, name: &str) -> (r: Result<u64, NcError>)
        ensures
            outcome(r) == if is_scalar_name(name@) {
                read_scalar(self.file@, name@)
            } else {
                Err(Failure::VariableNotFound(name@))
            },
    {
        if same_name(name, B_AXIS) || same_name(name, R_AXIS) || same_name(name, Z_AXIS)
            || same_name(name, PSI_POL_AXIS) || same_name(name, PSI_POL_EDGE) || same_name(
            name,
            PHI_TOR_EDGE,
        ) {
            extract_scalar(&self.file, name)
        } else {
            Err(NcError::VariableNotFound(name.to_owned()))
        }
    }

    /// Returns a 1-dimensional variable from the dataset.
    ///
    /// Available fields are [`PSI_COORD`], [`THETA_COORD`], [`Q_FACTOR`],
    /// [`CURRENT_G`] and [`CURRENT_I`], which are defined in
    /// [`crate::variable_names`]. Any other name is reported as not found,
    /// whatever the dataset holds.
    pub fn get_1d(&self, name: &str) -> (r: Result<Profile, NcError>)
        ensures
            outcome(r) == if is_1d_name(name@) {
                read_1d(self.file@, name@)
            } else {
                Err(Failure::VariableNotFound(name@))
            },
    {
        if same_name(name, PSI_COORD) || same_name(name, THETA_COORD) || same_name(name, Q_FACTOR)
            || same_name(name, CURRENT_G) || same_name(name, CURRENT_I) {
            extract_1d_var(&self.file, name)
        } else {
            Err(NcError::VariableNotFound(name.to_owned()))
        }
    }

    /// Returns a 2-dimensional variable from the dataset.
    ///
    /// Available fields are [`B_FIELD`], [`DB_DTHETA`], [`DB_DPSI`] and
    /// [`D2B_DPSI2`], which are defined in [`crate::variable_names`]. Any other
    /// name is reported as not found, whatever the dataset holds.
    pub fn get_2d(&self, name: &str) -> (r: Result<Field, NcError>)
        ensures
            outcome(r) == if is_2d_name(name@) {
                read_2d(self.file@, name@)
            } else {
                Err(Failure::VariableNotFound(name@))
            },
    {
        if same_name(name, B_FIELD) || same_name(name, DB_DTHETA) || same_name(name, DB_DPSI)
            || same_name(name, D2B_DPSI2) {
            extract_2d_var(&self.file, name)
        } else {
            Err(NcError::VariableNotFound(name.to_owned()))
        }
    }
}

} // verus!
