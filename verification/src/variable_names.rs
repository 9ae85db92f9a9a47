//! The names under which each variable is expected to appear in the dataset.
use vstd::prelude::*;

verus! {

// ================== Scalars ==================
/// Magnetic field strength on the axis **in \[T\]**.
pub const B_AXIS: &'static str = "Baxis";

/// The tokamak's major radius **in \[m\]**.
pub const R_AXIS: &'static str = "raxis";

/// The tokamak's `Z` coordinate of the axis **in \[m\]**.
pub const Z_AXIS: &'static str = "zaxis";

/// Poloidal flux at the axis **in \[Tm²\]**.
pub const PSI_POL_AXIS: &'static str = "psi_pol_axis";

/// Poloidal flux at the edge **in \[Tm²\]**.
pub const PSI_POL_EDGE: &'static str = "psi_pol_edge";

/// Toroidal flux at the edge **in \[Tm²\]**.
pub const PHI_TOR_EDGE: &'static str = "phi_tor_edge";

// ================= Coordinates =================
/// The toroidal flux coordinate **in Normalized Units**.
pub const PSI_COORD: &'static str = "psi";

/// The boozer poloidal angle **in \[rads\]**.
pub const THETA_COORD: &'static str = "boozer_theta";

// ================ 1D Variables ================
/// q(ψ): The safety factor.
pub const Q_FACTOR: &'static str = "q";

/// g(ψ): The covariant toroidal B field component (plasma current) **in Normalized Units**.
pub const CURRENT_G: &'static str = "g_norm";

/// I(ψ): The covariant poloidal B field component (plasma current) **in Normalized Units**.
pub const CURRENT_I: &'static str = "I_norm";

// ================ 2D Variables ================
/// B(ψ, θ): The magnetic field strength **in Normalized Units**.
pub const B_FIELD: &'static str = "b_field_norm";

/// dB(ψ, θ)/dθ: The first derivative of `B` with respect to boozer theta.
pub const DB_DTHETA: &'static str = "db_dtheta_norm";

/// dB(ψ, θ)/dψ: The first derivative of `B` with respect to psi.
pub const DB_DPSI: &'static str = "db_dpsi_norm";

/// d²B(ψ, θ)/dψ²: The second derivative of `B` with respect to psi.
pub const D2B_DPSI2: &'static str = "d2b_dpsi2_norm";

/// R(ψ, θ): The `R` coordinate with respect to boozer coordinates **in \[m\]**.
pub const R: &'static str = "R";

/// Z(ψ, θ): The `Z` coordinate with respect to boozer coordinates **in \[m\]**.
pub const Z: &'static str = "Z";

/// Whether two names are the same text.
pub fn same_name(a: &str, b: &str) -> (same: bool)
    ensures
        same == (a@ == b@),
{
    a.to_owned() == b.to_owned()
}

/// The names of the scalar quantities.
pub open spec fn is_scalar_name(name: Seq<char>) -> bool {
    ||| name == B_AXIS@
    ||| name == R_AXIS@
    ||| name == Z_AXIS@
    ||| name == PSI_POL_AXIS@
    ||| name == PSI_POL_EDGE@
    ||| name == PHI_TOR_EDGE@
}

/// The names of the coordinates and of the profiles over the flux coordinate.
pub open spec fn is_1d_name(name: Seq<char>) -> bool {
    ||| name == PSI_COORD@
    ||| name == THETA_COORD@
    ||| name == Q_FACTOR@
    ||| name == CURRENT_G@
    ||| name == CURRENT_I@
}

/// The names of the fields over flux and angle.
pub open spec fn is_2d_name(name: Seq<char>) -> bool {
    ||| name == B_FIELD@
    ||| name == DB_DTHETA@
    ||| name == DB_DPSI@
    ||| name == D2B_DPSI2@
}

} // verus!
