use std::path::PathBuf;
use tokamak_netcdf::{File, LibraryError, NcData, NcError, Opened, Scalars, Variable};

fn bits(numbers: &[f64]) -> Vec<u64> {
    numbers.iter().map(|x| x.to_bits()).collect()
}

fn scalar(name: &str, value: f64) -> Variable {
    Variable::new(name, vec![], bits(&[value])).unwrap()
}

fn profile(name: &str, values: &[f64]) -> Variable {
    Variable::new(name, vec![values.len()], bits(values)).unwrap()
}

const SCALARS: [(&str, f64); 6] = [
    ("Baxis", 2.1),
    ("raxis", 1.7),
    ("zaxis", 0.0),
    ("psi_pol_axis", 0.0),
    ("psi_pol_edge", 3.4),
    ("phi_tor_edge", 5.6),
];

/// A dataset with the flux coordinate and every scalar but the one left out.
fn dataset(psi: &[f64], left_out: Option<&str>) -> File {
    let mut f = File::new();
    f.add_variable(profile("psi", psi));
    for (name, value) in SCALARS {
        if Some(name) != left_out {
            f.add_variable(scalar(name, value));
        }
    }
    f
}

#[test]
fn scalars_of_the_example_dataset() {
    let f = dataset(&[0.0, 0.2, 0.5, 1.0], None);
    let scalars = Scalars::from_file(&f).unwrap();
    assert_eq!(f64::from_bits(scalars.psi_wall), 1.0);
    assert_eq!(f64::from_bits(scalars.baxis), 2.1);
    assert_eq!(f64::from_bits(scalars.raxis), 1.7);
    assert_eq!(f64::from_bits(scalars.zaxis), 0.0);
    assert_eq!(f64::from_bits(scalars.psi_pol_axis), 0.0);
    assert_eq!(f64::from_bits(scalars.psi_pol_edge), 3.4);
    assert_eq!(f64::from_bits(scalars.phi_tor_edge), 5.6);
}

#[test]
fn the_value_at_the_wall_is_the_last_of_the_flux_coordinate() {
    for psi in [vec![0.75], vec![0.0, 0.1], vec![0.0, 0.25, 0.5, 0.75, 0.9, 0.99]] {
        let scalars = Scalars::from_file(&dataset(&psi, None)).unwrap();
        assert_eq!(f64::from_bits(scalars.psi_wall), *psi.last().unwrap());
    }
}

#[test]
fn the_order_of_the_variables_in_the_dataset_does_not_matter() {
    let mut f = File::new();
    for (name, value) in SCALARS.iter().rev() {
        f.add_variable(scalar(name, *value));
    }
    f.add_variable(profile("boozer_theta", &[0.0, 3.14]));
    f.add_variable(profile("psi", &[0.0, 0.2, 0.5, 1.0]));
    assert_eq!(
        Scalars::from_file(&f).unwrap(),
        Scalars::from_file(&dataset(&[0.0, 0.2, 0.5, 1.0], None)).unwrap()
    );
}

#[test]
fn empty_flux_coordinate_gives_no_scalars() {
    let f = dataset(&[], None);
    assert_eq!(
        Scalars::from_file(&f).unwrap_err(),
        NcError::EmptyVariable("psi".to_string())
    );
}

#[test]
fn missing_flux_coordinate_gives_no_scalars() {
    let mut f = File::new();
    for (name, value) in SCALARS {
        f.add_variable(scalar(name, value));
    }
    assert_eq!(
        Scalars::from_file(&f).unwrap_err(),
        NcError::VariableNotFound("psi".to_string())
    );
}

#[test]
fn each_missing_scalar_is_named() {
    for (name, _) in SCALARS {
        let f = dataset(&[0.0, 1.0], Some(name));
        assert_eq!(
            Scalars::from_file(&f).unwrap_err(),
            NcError::VariableNotFound(name.to_string())
        );
    }
}

#[test]
fn the_flux_coordinate_is_read_before_the_scalars() {
    let mut f = File::new();
    f.add_variable(scalar("psi", 1.0));
    assert_eq!(Scalars::from_file(&f).unwrap_err(), NcError::Not1D("psi".to_string()));
    assert_eq!(
        Scalars::from_file(&File::new()).unwrap_err(),
        NcError::VariableNotFound("psi".to_string())
    );
}

#[test]
fn the_first_scalar_that_fails_decides() {
    let mut f = File::new();
    f.add_variable(profile("psi", &[0.0, 1.0]));
    f.add_variable(scalar("Baxis", 2.1));
    f.add_variable(profile("raxis", &[1.7, 1.8]));
    f.add_variable(profile("zaxis", &[]));
    assert_eq!(Scalars::from_file(&f).unwrap_err(), NcError::NotScalar("raxis".to_string()));
}

#[test]
fn a_scalar_that_cannot_be_read_gives_no_scalars() {
    let mut f = dataset(&[0.0, 1.0], Some("psi_pol_edge"));
    let cause = LibraryError::new("NetCDF: HDF error");
    f.add_variable(Variable::unreadable("psi_pol_edge", vec![], cause.clone()).unwrap());
    assert_eq!(
        Scalars::from_file(&f).unwrap_err(),
        NcError::GetValuesError { source: cause, name: "psi_pol_edge".to_string() }
    );
}

#[test]
fn an_unsorted_flux_coordinate_still_ends_at_its_last_element() {
    let f = dataset(&[0.0, 0.9, 0.3], None);
    assert_eq!(f64::from_bits(Scalars::from_file(&f).unwrap().psi_wall), 0.3);
}

#[test]
fn data_of_a_file_that_is_missing() {
    let path = PathBuf::from("./reconstructed/nowhere.nc");
    assert_eq!(
        NcData::from_file(&path, Opened::Missing).unwrap_err(),
        NcError::FileNotFound(path)
    );
}

#[test]
fn data_of_a_file_that_could_not_be_opened() {
    let path = PathBuf::from("./reconstructed/broken.nc");
    let cause = LibraryError::new("NetCDF: Unknown file format");
    assert_eq!(
        NcData::from_file(&path, Opened::Failed(cause.clone())).unwrap_err(),
        NcError::NetCDF { source: cause, reason: "Error opening NetCDF file.".to_string() }
    );
}

#[test]
fn data_of_an_opened_file() {
    let path = PathBuf::from("./reconstructed/smart_positive.nc");
    let data =
        NcData::from_file(&path, Opened::Ready(dataset(&[0.0, 0.2, 0.5, 1.0], None))).unwrap();
    assert_eq!(data.path, path);
    assert_eq!(f64::from_bits(data.scalars.psi_wall), 1.0);
    assert_eq!(f64::from_bits(data.scalars.psi_pol_edge), 3.4);
}

#[test]
fn data_of_an_opened_file_without_its_scalars() {
    let path = PathBuf::from("./data.nc");
    assert_eq!(
        NcData::from_file(&path, Opened::Ready(dataset(&[0.0, 1.0], Some("zaxis")))).unwrap_err(),
        NcError::VariableNotFound("zaxis".to_string())
    );
}
