//! The scalars of an equilibrium, read once when its file is opened.
use crate::equilibrium::{open_failure, opened_file};
use crate::error::NcError;
use crate::file::Opened;
use crate::scalars::{scalars_of, Scalars};
use std::path::PathBuf;
use vstd::prelude::*;

verus! {

/// netCDF equilibrium data.
#[non_exhaustive]
#[derive(Debug)]
pub struct NcData {
    /// Path to the netCDF file.
    pub path: PathBuf,
    /// Equilibrium's scalar values.
    pub scalars: Scalars,
}

impl NcData {
    /// Creates an [`NcData`] from what opening the netCDF file at `path` gave:
    /// the scalars of the dataset, if there is one and it holds them all.
    pub fn from_file(path: &PathBuf, opened: Opened) -> (r: Result<NcData, NcError>)
        ensures
            match opened {
                Opened::Ready(file) => match scalars_of(file@) {
                    Ok(scalars) => r matches Ok(data) && data.scalars == scalars && data.path
                        == *path,
                    Err(failure) => r matches Err(e) && e@ == failure,
                },
                _ => r matches Err(e) && open_failure(*path, opened) == Some(e@),
            },
    {
        let nc_file = match opened_file(path, opened) {
            Ok(nc_file) => nc_file,
            Err(e) => {
                return Err(e);
            },
        };
        match Scalars::from_file(&nc_file) {
            Ok(scalars) => Ok(NcData { path: path.clone(), scalars }),
            Err(e) => Err(e),
        }
    }
}

} // verus!
