use std::path::PathBuf;
use tokamak_netcdf::variable_names::{
    B_AXIS, B_FIELD, CURRENT_G, CURRENT_I, D2B_DPSI2, DB_DPSI, DB_DTHETA, PHI_TOR_EDGE, PSI_COORD,
    PSI_POL_AXIS, PSI_POL_EDGE, Q_FACTOR, R, R_AXIS, THETA_COORD, Z, Z_AXIS,
};
use tokamak_netcdf::{Equilibrium, File, LibraryError, NcError, Opened, Variable};

const SCALAR_NAMES: [&str; 6] = [B_AXIS, R_AXIS, Z_AXIS, PSI_POL_AXIS, PSI_POL_EDGE, PHI_TOR_EDGE];

const PROFILE_NAMES: [&str; 5] = [PSI_COORD, THETA_COORD, Q_FACTOR, CURRENT_G, CURRENT_I];

const FIELD_NAMES: [&str; 4] = [B_FIELD, DB_DTHETA, DB_DPSI, D2B_DPSI2];

/// A dataset that holds every variable of the catalogue, each with values that
/// tell it from the others, and one variable that the catalogue does not name.
fn dataset() -> File {
    let mut f = File::new();
    for (k, name) in SCALAR_NAMES.iter().enumerate() {
        f.add_variable(Variable::new(name, vec![], vec![100 + k as u64]).unwrap());
    }
    for (k, name) in PROFILE_NAMES.iter().enumerate() {
        let base = 200 + 10 * k as u64;
        f.add_variable(Variable::new(name, vec![3], vec![base, base + 1, base + 2]).unwrap());
    }
    for (k, name) in FIELD_NAMES.iter().enumerate() {
        let base = 300 + 10 * k as u64;
        f.add_variable(
            Variable::new(name, vec![2, 2], vec![base, base + 1, base + 2, base + 3]).unwrap(),
        );
    }
    f.add_variable(Variable::new("extra", vec![], vec![1]).unwrap());
    f.add_variable(Variable::new("extra_profile", vec![2], vec![1, 2]).unwrap());
    f.add_variable(Variable::new("extra_field", vec![1, 2], vec![1, 2]).unwrap());
    f
}

fn equilibrium() -> Equilibrium {
    Equilibrium::from_file(&PathBuf::from("./data.nc"), Opened::Ready(dataset())).unwrap()
}

fn not_found(name: &str) -> NcError {
    NcError::VariableNotFound(name.to_string())
}

#[test]
fn names_of_the_catalogue() {
    assert_eq!(B_AXIS, "Baxis");
    assert_eq!(R_AXIS, "raxis");
    assert_eq!(Z_AXIS, "zaxis");
    assert_eq!(PSI_POL_AXIS, "psi_pol_axis");
    assert_eq!(PSI_POL_EDGE, "psi_pol_edge");
    assert_eq!(PHI_TOR_EDGE, "phi_tor_edge");
    assert_eq!(PSI_COORD, "psi");
    assert_eq!(THETA_COORD, "boozer_theta");
    assert_eq!(Q_FACTOR, "q");
    assert_eq!(CURRENT_G, "g_norm");
    assert_eq!(CURRENT_I, "I_norm");
    assert_eq!(B_FIELD, "b_field_norm");
    assert_eq!(DB_DTHETA, "db_dtheta_norm");
    assert_eq!(DB_DPSI, "db_dpsi_norm");
    assert_eq!(D2B_DPSI2, "d2b_dpsi2_norm");
    assert_ne!(R, Z);
}

#[test]
fn equilibrium_of_a_file_that_is_missing() {
    let path = PathBuf::from("./reconstructed/nowhere.nc");
    assert_eq!(
        Equilibrium::from_file(&path, Opened::Missing).unwrap_err(),
        NcError::FileNotFound(path)
    );
}

#[test]
fn equilibrium_of_a_file_that_could_not_be_opened() {
    let path = PathBuf::from("./reconstructed/broken.nc");
    let cause = LibraryError::new("NetCDF: Unknown file format");
    assert_eq!(
        Equilibrium::from_file(&path, Opened::Failed(cause.clone())).unwrap_err(),
        NcError::NetCDF { source: cause, reason: "Error opening NetCDF file.".to_string() }
    );
}

#[test]
fn equilibrium_of_an_opened_file_keeps_path_and_dataset() {
    let path = PathBuf::from("./reconstructed/smart_positive.nc");
    let eq = Equilibrium::from_file(&path, Opened::Ready(dataset())).unwrap();
    assert_eq!(eq.path, path);
    assert_eq!(eq.file.variable("extra").unwrap().len(), 1);
    assert!(eq.file.variable("nowhere").is_none());
}

#[test]
fn every_scalar_of_the_catalogue_is_read() {
    let eq = equilibrium();
    for (k, name) in SCALAR_NAMES.iter().enumerate() {
        assert_eq!(eq.get_scalar(name).unwrap(), 100 + k as u64);
    }
}

#[test]
fn every_profile_of_the_catalogue_is_read() {
    let eq = equilibrium();
    for (k, name) in PROFILE_NAMES.iter().enumerate() {
        let base = 200 + 10 * k as u64;
        assert_eq!(eq.get_1d(name).unwrap().to_vec(), vec![base, base + 1, base + 2]);
    }
}

#[test]
fn every_field_of_the_catalogue_is_read() {
    let eq = equilibrium();
    for (k, name) in FIELD_NAMES.iter().enumerate() {
        let base = 300 + 10 * k as u64;
        let field = eq.get_2d(name).unwrap();
        assert_eq!(field.shape(), (2, 2));
        assert_eq!(field.get(0, 0), Some(base));
        assert_eq!(field.get(0, 1), Some(base + 1));
        assert_eq!(field.get(1, 0), Some(base + 2));
        assert_eq!(field.get(1, 1), Some(base + 3));
    }
}

#[test]
fn names_outside_the_catalogue_are_not_found_though_the_dataset_holds_them() {
    let eq = equilibrium();
    assert_eq!(eq.get_scalar("extra").unwrap_err(), not_found("extra"));
    assert_eq!(eq.get_1d("extra_profile").unwrap_err(), not_found("extra_profile"));
    assert_eq!(eq.get_2d("extra_field").unwrap_err(), not_found("extra_field"));
    assert_eq!(eq.get_scalar("").unwrap_err(), not_found(""));
}

#[test]
fn names_of_another_rank_are_not_found() {
    let eq = equilibrium();
    for name in SCALAR_NAMES {
        assert_eq!(eq.get_1d(name).unwrap_err(), not_found(name));
        assert_eq!(eq.get_2d(name).unwrap_err(), not_found(name));
    }
    for name in PROFILE_NAMES {
        assert_eq!(eq.get_scalar(name).unwrap_err(), not_found(name));
        assert_eq!(eq.get_2d(name).unwrap_err(), not_found(name));
    }
    for name in FIELD_NAMES {
        assert_eq!(eq.get_scalar(name).unwrap_err(), not_found(name));
        assert_eq!(eq.get_1d(name).unwrap_err(), not_found(name));
    }
}

#[test]
fn a_name_of_the_catalogue_is_read_as_the_dataset_has_it() {
    let mut f = File::new();
    f.add_variable(Variable::new(B_AXIS, vec![2], vec![1, 2]).unwrap());
    f.add_variable(Variable::new(PSI_COORD, vec![0], vec![]).unwrap());
    f.add_variable(Variable::new(B_FIELD, vec![4], vec![1, 2, 3, 4]).unwrap());
    let eq = Equilibrium::from_file(&PathBuf::from("./data.nc"), Opened::Ready(f)).unwrap();
    assert_eq!(eq.get_scalar(B_AXIS).unwrap_err(), NcError::NotScalar(B_AXIS.to_string()));
    assert_eq!(eq.get_1d(PSI_COORD).unwrap_err(), NcError::EmptyVariable(PSI_COORD.to_string()));
    assert_eq!(eq.get_2d(B_FIELD).unwrap_err(), NcError::Not2D(B_FIELD.to_string()));
    assert_eq!(eq.get_scalar(R_AXIS).unwrap_err(), not_found(R_AXIS));
    assert_eq!(eq.get_1d(Q_FACTOR).unwrap_err(), not_found(Q_FACTOR));
    assert_eq!(eq.get_2d(DB_DPSI).unwrap_err(), not_found(DB_DPSI));
}
