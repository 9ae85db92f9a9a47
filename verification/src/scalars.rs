//! The scalar quantities of an equilibrium, gathered in one read of a dataset.
use crate::error::{Failure, NcError};
use crate::extract::{
    extract_1d_var, extract_scalar, lemma_1d_length, lemma_rank_one, lemma_rank_zero, outcome,
    read_1d, read_scalar,
};
use crate::file::{
    all_wf, element_count, find, lemma_count_of_one, lemma_find, File, Reading, VariableView,
};
use crate::variable_names::{
    B_AXIS, PHI_TOR_EDGE, PSI_COORD, PSI_POL_AXIS, PSI_POL_EDGE, R_AXIS, Z_AXIS,
};
use vstd::prelude::*;

verus! {

/// Equilibrium scalar values, each the bit pattern of a number.
#[non_exhaustive]
#[derive(Debug, Clone, Copy, PartialEq, Eq)]
pub struct Scalars {
    /// Magnetic field strength on the axis **in \[T\]**.
    pub baxis: u64,
    /// The tokamak's major radius **in \[m\]**.
    pub raxis: u64,
    /// Last closed surface **in Normalized Units**.
    pub psi_wall: u64,
    /// The tokamak's Z coordinate on the axis **in \[m\]**.
    pub zaxis: u64,
    /// Poloidal flux at the axis **in \[Tm²\]**.
    pub psi_pol_axis: u64,
    /// Poloidal flux at the edge **in \[Tm²\]**.
    pub psi_pol_edge: u64,
    /// Toroidal flux at the edge **in \[Tm²\]**.
    pub phi_tor_edge: u64,
}

impl View for Scalars {
    type V = Scalars;

    open spec fn view(&self) -> Scalars {
        *self
    }
}

/// What gathering the scalars of a dataset gives: the six scalar variables and
/// the last element of the flux coordinate, or the failure of the first read
/// that fails. The flux coordinate is read first, then the scalars in the order
/// of the names below.
pub open spec fn scalars_of(vars: Seq<VariableView>) -> Result<Scalars, Failure> {
    match read_1d(vars, PSI_COORD@) {
        Err(e) => Err(e),
        Ok(psi) => match read_scalar(vars, B_AXIS@) {
            Err(e) => Err(e),
            Ok(baxis) => match read_scalar(vars, R_AXIS@) {
                Err(e) => Err(e),
                Ok(raxis) => match read_scalar(vars, Z_AXIS@) {
                    Err(e) => Err(e),
                    Ok(zaxis) => match read_scalar(vars, PSI_POL_AXIS@) {
                        Err(e) => Err(e),
                        Ok(psi_pol_axis) => match read_scalar(vars, PSI_POL_EDGE@) {
                            Err(e) => Err(e),
                            Ok(psi_pol_edge) => match read_scalar(vars, PHI_TOR_EDGE@) {
                                Err(e) => Err(e),
                                Ok(phi_tor_edge) => if psi.len() == 0 {
                                    Err(Failure::EmptyVariable(PSI_COORD@))
                                } else {
                                    Ok(
                                        Scalars {
                                            baxis,
                                            raxis,
                                            psi_wall: psi.last(),
                                            zaxis,
                                            psi_pol_axis,
                                            psi_pol_edge,
                                            phi_tor_edge,
                                        },
                                    )
                                },
                            },
                        },
                    },
                },
            },
        },
    }
}

impl Scalars {
    /// Creates a [`Scalars`] containing the needed scalar values from the
    /// dataset. Nothing is returned unless all seven reads succeed.
    pub fn from_file(f: &File) -> (r: Result<Scalars, NcError>)
        ensures
            outcome(r) == scalars_of(f@),
    {
        let psi = match extract_1d_var(f, PSI_COORD) {
            Ok(psi) => psi,
            Err(e) => {
                return Err(e);
            },
        };
        let baxis: u64 = match extract_scalar(f, B_AXIS) {
            Ok(value) => value,
            Err(e) => {
                return Err(e);
            },
        };
        let raxis: u64 = match extract_scalar(f, R_AXIS) {
            Ok(value) => value,
            Err(e) => {
                return Err(e);
            },
        };
        let zaxis: u64 = match extract_scalar(f, Z_AXIS) {
            Ok(value) => value,
            Err(e) => {
                return Err(e);
            },
        };
        let psi_pol_axis: u64 = match extract_scalar(f, PSI_POL_AXIS) {
            Ok(value) => value,
            Err(e) => {
                return Err(e);
            },
        };
        let psi_pol_edge: u64 = match extract_scalar(f, PSI_POL_EDGE) {
            Ok(value) => value,
            Err(e) => {
                return Err(e);
            },
        };
        let phi_tor_edge: u64 = match extract_scalar(f, PHI_TOR_EDGE) {
            Ok(value) => value,
            Err(e) => {
                return Err(e);
            },
        };
        let psi_wall: u64 = match psi.last() {
            Some(value) => value,
            None => {
                return Err(NcError::EmptyVariable(PSI_COORD.to_owned()));
            },
        };
        Ok(Scalars { baxis, raxis, psi_wall, zaxis, psi_pol_axis, psi_pol_edge, phi_tor_edge })
    }
}

/// The scalars are gathered exactly when the flux coordinate and the six
/// scalar variables can all be read. The bundle then holds the six values as
/// they were read, and the last element of the flux coordinate as the value at
/// the wall.
pub proof fn lemma_scalars_complete(vars: Seq<VariableView>)
    requires
        all_wf(vars),
    ensures
        scalars_of(vars) is Ok <==> {
            &&& read_1d(vars, PSI_COORD@) is Ok
            &&& read_scalar(vars, B_AXIS@) is Ok
            &&& read_scalar(vars, R_AXIS@) is Ok
            &&& read_scalar(vars, Z_AXIS@) is Ok
            &&& read_scalar(vars, PSI_POL_AXIS@) is Ok
            &&& read_scalar(vars, PSI_POL_EDGE@) is Ok
            &&& read_scalar(vars, PHI_TOR_EDGE@) is Ok
        },
        scalars_of(vars) matches Ok(scalars) ==> {
            &&& read_1d(vars, PSI_COORD@) matches Ok(psi)
            &&& psi.len() >= 1
            &&& scalars.psi_wall == psi.last()
            &&& read_scalar(vars, B_AXIS@) == Ok::<u64, Failure>(scalars.baxis)
            &&& read_scalar(vars, R_AXIS@) == Ok::<u64, Failure>(scalars.raxis)
            &&& read_scalar(vars, Z_AXIS@) == Ok::<u64, Failure>(scalars.zaxis)
            &&& read_scalar(vars, PSI_POL_AXIS@) == Ok::<u64, Failure>(scalars.psi_pol_axis)
            &&& read_scalar(vars, PSI_POL_EDGE@) == Ok::<u64, Failure>(scalars.psi_pol_edge)
            &&& read_scalar(vars, PHI_TOR_EDGE@) == Ok::<u64, Failure>(scalars.phi_tor_edge)
        },
{
    lemma_1d_length(vars, PSI_COORD@);
}

/// A dataset whose flux coordinate holds no element gives no scalars: the
/// failure names the flux coordinate as empty.
pub proof fn lemma_scalars_empty_flux(vars: Seq<VariableView>, i: int)
    requires
        find(vars, PSI_COORD@) == Some(i),
        element_count(vars[i].dims) == 0,
    ensures
        scalars_of(vars) == Err::<Scalars, Failure>(Failure::EmptyVariable(PSI_COORD@)),
{
}

/// Whether the variable of that name has no dimensions and holds the value.
pub open spec fn holds_scalar(vars: Seq<VariableView>, name: Seq<char>, value: u64) -> bool {
    &&& find(vars, name) matches Some(i)
    &&& vars[i].dims.len() == 0
    &&& vars[i].reading matches Reading::Values(values)
    &&& values[0] == value
}

/// A dataset that holds the six scalars, and a flux coordinate of at least one
/// element, gives those six values and the last element of the flux
/// coordinate, whether or not the flux coordinate is in ascending order.
pub proof fn lemma_scalars_of_complete_dataset(
    vars: Seq<VariableView>,
    psi: Seq<u64>,
    scalars: Scalars,
)
    requires
        all_wf(vars),
        psi.len() >= 1,
        find(vars, PSI_COORD@) matches Some(i) && vars[i].dims.len() == 1 && vars[i].reading
            == Reading::Values(psi),
        holds_scalar(vars, B_AXIS@, scalars.baxis),
        holds_scalar(vars, R_AXIS@, scalars.raxis),
        holds_scalar(vars, Z_AXIS@, scalars.zaxis),
        holds_scalar(vars, PSI_POL_AXIS@, scalars.psi_pol_axis),
        holds_scalar(vars, PSI_POL_EDGE@, scalars.psi_pol_edge),
        holds_scalar(vars, PHI_TOR_EDGE@, scalars.phi_tor_edge),
        scalars.psi_wall == psi.last(),
    ensures
        scalars_of(vars) == Ok::<Scalars, Failure>(scalars),
{
    let i = find(vars, PSI_COORD@)->0;
    lemma_find(vars, PSI_COORD@);
    assert(vars[i].wf());
    lemma_count_of_one(vars[i].dims);
    lemma_rank_one(vars, PSI_COORD@, i);
    lemma_rank_zero(vars, B_AXIS@, find(vars, B_AXIS@)->0);
    lemma_rank_zero(vars, R_AXIS@, find(vars, R_AXIS@)->0);
    lemma_rank_zero(vars, Z_AXIS@, find(vars, Z_AXIS@)->0);
    lemma_rank_zero(vars, PSI_POL_AXIS@, find(vars, PSI_POL_AXIS@)->0);
    lemma_rank_zero(vars, PSI_POL_EDGE@, find(vars, PSI_POL_EDGE@)->0);
    lemma_rank_zero(vars, PHI_TOR_EDGE@, find(vars, PHI_TOR_EDGE@)->0);
}

} // verus!
