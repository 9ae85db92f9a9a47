//! Functions for extracting and checking data from a dataset.
//!
//! Every typed read looks the variable up, checks that it holds at least one
//! element, checks its rank, and only then copies its values, in that order:
//! the first check that fails decides the error.
use crate::array::{fits, has_shape, Field, Profile};
use crate::error::{Failure, NcError};
use crate::file::{
    all_wf, element_count, find, lemma_count_of_one, lemma_count_of_two, lemma_find, rows_of,
    File, Reading, Variable, VariableView,
};
use crate::ieee;
use vstd::prelude::*;

verus! {

/// A result as the contracts see it: what was extracted, or the failure.
pub open spec fn outcome<T: View>(r: Result<T, NcError>) -> Result<T::V, Failure> {
    match r {
        Ok(value) => Ok(value@),
        Err(e) => Err(e@),
    }
}

/// The variable that a typed read of `name` works on: the first of that name,
/// which must hold at least one element.
pub open spec fn checked_variable(vars: Seq<VariableView>, name: Seq<char>) -> Result<
    VariableView,
    Failure,
> {
    match find(vars, name) {
        None => Err(Failure::VariableNotFound(name)),
        Some(i) => if element_count(vars[i].dims) == 0 {
            Err(Failure::EmptyVariable(name))
        } else {
            Ok(vars[i])
        },
    }
}

/// What copying the values of a variable gives.
pub open spec fn values_of(var: VariableView, name: Seq<char>) -> Result<Seq<u64>, Failure> {
    match var.reading {
        Reading::Values(values) => Ok(values),
        Reading::Unreadable(cause) => Err(Failure::GetValuesError { source: cause, name }),
    }
}

/// What reading `name` as a scalar gives.
pub open spec fn read_scalar(vars: Seq<VariableView>, name: Seq<char>) -> Result<u64, Failure> {
    match checked_variable(vars, name) {
        Err(e) => Err(e),
        Ok(var) => if var.dims.len() != 0 {
            Err(Failure::NotScalar(name))
        } else {
            match values_of(var, name) {
                Ok(values) => Ok(values[0]),
                Err(e) => Err(e),
            }
        },
    }
}

/// What reading `name` as a one-dimensional variable gives.
pub open spec fn read_1d(vars: Seq<VariableView>, name: Seq<char>) -> Result<Seq<u64>, Failure> {
    match checked_variable(vars, name) {
        Err(e) => Err(e),
        Ok(var) => if var.dims.len() != 1 {
            Err(Failure::Not1D(name))
        } else {
            values_of(var, name)
        },
    }
}

/// What reading `name` as a two-dimensional variable gives: its rows, the
/// first dimension counting the rows and the second the columns.
pub open spec fn read_2d(vars: Seq<VariableView>, name: Seq<char>) -> Result<
    Seq<Seq<u64>>,
    Failure,
> {
    match checked_variable(vars, name) {
        Err(e) => Err(e),
        Ok(var) => if var.dims.len() != 2 {
            Err(Failure::Not2D(name))
        } else {
            match values_of(var, name) {
                Ok(values) => Ok(rows_of(values, var.dims[0] as nat, var.dims[1] as nat)),
                Err(e) => Err(e),
            }
        },
    }
}

/// What reading `name` as a one-dimensional variable and putting `element` in
/// front of it gives.
pub open spec fn read_with_axis_value(
    vars: Seq<VariableView>,
    name: Seq<char>,
    element: u64,
) -> Result<Seq<u64>, Failure> {
    match read_1d(vars, name) {
        Ok(values) => Ok(seq![element] + values),
        Err(e) => Err(e),
    }
}

/// What reading `name` as a one-dimensional variable and putting its own first
/// element in front of it gives.
pub open spec fn read_with_first_axis_value(vars: Seq<VariableView>, name: Seq<char>) -> Result<
    Seq<u64>,
    Failure,
> {
    match read_1d(vars, name) {
        Ok(values) => Ok(seq![values[0]] + values),
        Err(e) => Err(e),
    }
}

/// Extracts a [`Variable`] from a dataset.
///
/// # Error
///
/// Returns an [`NcError`] if the variable is not found.
pub fn extract_variable<'f>(f: &'f File, name: &str) -> (r: Result<&'f Variable, NcError>)
    ensures
        match find(f@, name@) {
            Some(i) => r matches Ok(var) && var@ == f@[i],
            None => r matches Err(e) && e@ == Failure::VariableNotFound(name@),
        },
        f.wf(),
{
    match f.variable(name) {
        Some(var) => Ok(var),
        None => Err(NcError::VariableNotFound(name.to_owned())),
    }
}

/// Checks if a [`Variable`] is empty.
///
/// # Error
///
/// Returns an [`NcError`] if the variable is empty.
pub fn check_if_empty(var: &Variable) -> (r: Result<(), NcError>)
    ensures
        match r {
            Ok(_) => element_count(var@.dims) > 0,
            Err(e) => element_count(var@.dims) == 0 && e@ == Failure::EmptyVariable(var@.name),
        },
{
    if var.len() == 0 {
        Err(NcError::EmptyVariable(var.name()))
    } else {
        Ok(())
    }
}

/// The variable of that name, after the checks that every typed read makes.
fn extract_checked<'f>(f: &'f File, name: &str) -> (r: Result<&'f Variable, NcError>)
    ensures
        match checked_variable(f@, name@) {
            Ok(view) => r matches Ok(var) && var@ == view && var.wf() && view.name == name@,
            Err(failure) => r matches Err(e) && e@ == failure,
        },
        f.wf(),
{
    proof {
        lemma_find(f@, name@);
    }
    let var = match extract_variable(f, name) {
        Ok(var) => var,
        Err(e) => {
            return Err(e);
        },
    };
    match check_if_empty(var) {
        Ok(_) => Ok(var),
        Err(e) => Err(e),
    }
}

/// Extracts a scalar value from the dataset.
///
/// # Error
///
/// Returns an [`NcError`] if the variable:
///
/// - is not found,
/// - is empty,
/// - is not scalar (has dimensions),
/// - cannot be read.
pub fn extract_scalar(f: &File, name: &str) -> (r: Result<u64, NcError>)
    ensures
        outcome(r) == read_scalar(f@, name@),
{
    let var = match extract_checked(f, name) {
        Ok(var) => var,
        Err(e) => {
            return Err(e);
        },
    };
    if var.dimensions().len() != 0 {
        return Err(NcError::NotScalar(name.to_owned()));
    }
    match var.get_value() {
        Ok(value) => Ok(value),
        Err(err) => Err(NcError::GetValuesError { source: err, name: var.name() }),
    }
}

/// Extracts a 1D [`Variable`].
///
/// # Error
///
/// Returns an [`NcError`] if the variable:
///
/// - is not found,
/// - is empty,
/// - is not 1-dimensional,
/// - cannot be read.
pub fn extract_1d_var(f: &File, name: &str) -> (r: Result<Profile, NcError>)
    ensures
        outcome(r) == read_1d(f@, name@),
        r matches Ok(data) ==> fits(data@.len() + 1),
{
    let var = match extract_checked(f, name) {
        Ok(var) => var,
        Err(e) => {
            return Err(e);
        },
    };
    if var.dimensions().len() != 1 {
        return Err(NcError::Not1D(name.to_owned()));
    }
    let mut data = Profile::from_elem(var.len(), ieee::NAN);
    match var.get_into(&mut data) {
        Err(err) => Err(NcError::GetValuesError { source: err, name: name.to_owned() }),
        Ok(_) => Ok(data),
    }
}

/// Extracts a 2D [`Variable`]: a field with as many rows as the first
/// dimension is long and as many columns as the second.
///
/// # Error
///
/// Returns an [`NcError`] if the variable:
///
/// - is not found,
/// - is empty,
/// - is not 2-dimensional,
/// - cannot be read.
pub fn extract_2d_var(f: &File, name: &str) -> (r: Result<Field, NcError>)
    ensures
        outcome(r) == read_2d(f@, name@),
{
    let var = match extract_checked(f, name) {
        Ok(var) => var,
        Err(e) => {
            return Err(e);
        },
    };
    if var.dimensions().len() != 2 {
        return Err(NcError::Not2D(var.name()));
    }
    // Dimension order is (ψ, θ).
    let dims = var.dimensions();
    let rows: usize = dims[0];
    let cols: usize = dims[1];
    proof {
        lemma_count_of_two(var@.dims);
        assert(rows <= rows * cols && cols <= rows * cols) by (nonlinear_arith)
            requires
                rows * cols > 0,
        ;
    }
    let mut data = Field::from_elem(rows, cols, ieee::NAN);
    match var.get_into_field(&mut data) {
        Err(err) => Err(NcError::GetValuesError { source: err, name: var.name() }),
        Ok(_) => Ok(data),
    }
}

/// Extracts a variable from the dataset and prepends the first value.
///
/// The first value is the closest to the magnetic axis at index 0.
pub fn extract_var_with_first_axis_value(f: &File, name: &str) -> (r: Result<Profile, NcError>)
    ensures
        outcome(r) == read_with_first_axis_value(f@, name@),
{
    let arr = match extract_1d_var(f, name) {
        Ok(arr) => arr,
        Err(e) => {
            return Err(e);
        },
    };
    proof {
        use_type_invariant(f);
        lemma_1d_length(f@, name@);
    }
    extract_var_with_axis_value(f, name, arr.at(0))
}

/// Extracts a variable from the dataset and prepends `element` at index 0.
pub fn extract_var_with_axis_value(f: &File, name: &str, element: u64) -> (r: Result<
    Profile,
    NcError,
>)
    ensures
        outcome(r) == read_with_axis_value(f@, name@, element),
{
    let arr = match extract_1d_var(f, name) {
        Ok(arr) => arr,
        Err(e) => {
            return Err(e);
        },
    };
    Ok(arr.prepend(element))
}

/// A one-dimensional read that succeeds gives as many elements as the one
/// dimension of the variable is long, and at least one.
pub proof fn lemma_1d_length(vars: Seq<VariableView>, name: Seq<char>)
    requires
        all_wf(vars),
    ensures
        read_1d(vars, name) matches Ok(values) ==> {
            &&& find(vars, name) matches Some(i)
            &&& vars[i].dims.len() == 1
            &&& values.len() == vars[i].dims[0]
            &&& values.len() >= 1
        },
{
    lemma_find(vars, name);
    if let Some(i) = find(vars, name) {
        if vars[i].dims.len() == 1 {
            lemma_count_of_one(vars[i].dims);
        }
    }
}

/// A name that no variable of the dataset bears is reported as not found by
/// every typed read.
pub proof fn lemma_unknown_name(vars: Seq<VariableView>, name: Seq<char>, element: u64)
    requires
        forall|i: int| 0 <= i < vars.len() ==> (#[trigger] vars[i]).name != name,
    ensures
        read_scalar(vars, name) == Err::<u64, Failure>(Failure::VariableNotFound(name)),
        read_1d(vars, name) == Err::<Seq<u64>, Failure>(Failure::VariableNotFound(name)),
        read_2d(vars, name) == Err::<Seq<Seq<u64>>, Failure>(Failure::VariableNotFound(name)),
        read_with_axis_value(vars, name, element) == Err::<Seq<u64>, Failure>(
            Failure::VariableNotFound(name),
        ),
        read_with_first_axis_value(vars, name) == Err::<Seq<u64>, Failure>(
            Failure::VariableNotFound(name),
        ),
{
    lemma_find(vars, name);
}

/// A variable without elements is reported as empty by every typed read,
/// whatever its rank.
pub proof fn lemma_empty_variable(vars: Seq<VariableView>, name: Seq<char>, i: int, element: u64)
    requires
        find(vars, name) == Some(i),
        element_count(vars[i].dims) == 0,
    ensures
        read_scalar(vars, name) == Err::<u64, Failure>(Failure::EmptyVariable(name)),
        read_1d(vars, name) == Err::<Seq<u64>, Failure>(Failure::EmptyVariable(name)),
        read_2d(vars, name) == Err::<Seq<Seq<u64>>, Failure>(Failure::EmptyVariable(name)),
        read_with_axis_value(vars, name, element) == Err::<Seq<u64>, Failure>(
            Failure::EmptyVariable(name),
        ),
        read_with_first_axis_value(vars, name) == Err::<Seq<u64>, Failure>(
            Failure::EmptyVariable(name),
        ),
{
}

/// A variable without dimensions holds one element. Read as a scalar it gives
/// that element, unless the netCDF library could not deliver it; read as a
/// one- or two-dimensional variable it is refused for its rank.
pub proof fn lemma_rank_zero(vars: Seq<VariableView>, name: Seq<char>, i: int)
    requires
        all_wf(vars),
        find(vars, name) == Some(i),
        vars[i].dims.len() == 0,
    ensures
        read_scalar(vars, name) == match vars[i].reading {
            Reading::Values(values) => Ok::<u64, Failure>(values[0]),
            Reading::Unreadable(cause) => Err(Failure::GetValuesError { source: cause, name }),
        },
        vars[i].reading matches Reading::Values(values) ==> values.len() == 1,
        read_1d(vars, name) == Err::<Seq<u64>, Failure>(Failure::Not1D(name)),
        read_2d(vars, name) == Err::<Seq<Seq<u64>>, Failure>(Failure::Not2D(name)),
{
    lemma_find(vars, name);
}

/// A variable with one dimension of length `n`, at least 1, whose values the
/// netCDF library delivers is read as exactly those `n` values; read as a
/// scalar or as a two-dimensional variable it is refused for its rank.
pub proof fn lemma_rank_one(vars: Seq<VariableView>, name: Seq<char>, i: int)
    requires
        all_wf(vars),
        find(vars, name) == Some(i),
        vars[i].dims.len() == 1,
        vars[i].dims[0] >= 1,
    ensures
        read_1d(vars, name) == match vars[i].reading {
            Reading::Values(values) => Ok::<Seq<u64>, Failure>(values),
            Reading::Unreadable(cause) => Err(Failure::GetValuesError { source: cause, name }),
        },
        vars[i].reading matches Reading::Values(values) ==> values.len() == vars[i].dims[0],
        read_scalar(vars, name) == Err::<u64, Failure>(Failure::NotScalar(name)),
        read_2d(vars, name) == Err::<Seq<Seq<u64>>, Failure>(Failure::Not2D(name)),
{
    lemma_find(vars, name);
    lemma_count_of_one(vars[i].dims);
}

/// A variable with two dimensions of lengths `rows` and `cols`, both at least
/// 1, whose values the netCDF library delivers is read as `rows` rows of `cols`
/// elements: the element of row `a` in column `b` is the value at
/// `a * cols + b`, so the first dimension counts the rows and nothing is
/// transposed. Read as a scalar or as a one-dimensional variable it is refused
/// for its rank.
pub proof fn lemma_rank_two(vars: Seq<VariableView>, name: Seq<char>, i: int)
    requires
        all_wf(vars),
        find(vars, name) == Some(i),
        vars[i].dims.len() == 2,
        vars[i].dims[0] >= 1,
        vars[i].dims[1] >= 1,
    ensures
        vars[i].reading matches Reading::Values(values) ==> {
            &&& values.len() == vars[i].dims[0] * vars[i].dims[1]
            &&& read_2d(vars, name) matches Ok(rows)
            &&& has_shape(rows, vars[i].dims[0] as int, vars[i].dims[1] as int)
            &&& forall|a: int, b: int|
                0 <= a < vars[i].dims[0] && 0 <= b < vars[i].dims[1] ==> #[trigger] rows[a][b]
                    == values[a * vars[i].dims[1] + b]
        },
        vars[i].reading matches Reading::Unreadable(cause) ==> read_2d(vars, name) == Err::<
            Seq<Seq<u64>>,
            Failure,
        >(Failure::GetValuesError { source: cause, name }),
        read_scalar(vars, name) == Err::<u64, Failure>(Failure::NotScalar(name)),
        read_1d(vars, name) == Err::<Seq<u64>, Failure>(Failure::Not1D(name)),
{
    lemma_find(vars, name);
    lemma_count_of_two(vars[i].dims);
    assert(vars[i].dims[0] * vars[i].dims[1] >= 1) by (nonlinear_arith)
        requires
            vars[i].dims[0] >= 1,
            vars[i].dims[1] >= 1,
    ;
}

/// Putting an element in front of a variable that is read gives one element
/// more: the new one first, then those of the variable, unchanged and in their
/// order. It fails exactly as the one-dimensional read fails.
pub proof fn lemma_axis_value(vars: Seq<VariableView>, name: Seq<char>, element: u64)
    ensures
        match read_1d(vars, name) {
            Ok(values) => {
                &&& read_with_axis_value(vars, name, element) matches Ok(padded)
                &&& padded.len() == values.len() + 1
                &&& padded[0] == element
                &&& forall|k: int| 0 <= k < values.len() ==> padded[k + 1] == values[k]
            },
            Err(e) => read_with_axis_value(vars, name, element) == Err::<Seq<u64>, Failure>(e),
        },
{
}

/// Putting its own first element in front of a variable that is read gives
/// that element twice, then the others, unchanged and in their order. It fails
/// exactly as the one-dimensional read fails, so for a variable without
/// elements it reports the variable as empty.
pub proof fn lemma_first_axis_value(vars: Seq<VariableView>, name: Seq<char>)
    requires
        all_wf(vars),
    ensures
        match read_1d(vars, name) {
            Ok(values) => {
                &&& values.len() >= 1
                &&& read_with_first_axis_value(vars, name) matches Ok(padded)
                &&& padded.len() == values.len() + 1
                &&& padded[0] == values[0]
                &&& forall|k: int| 0 <= k < values.len() ==> padded[k + 1] == values[k]
            },
            Err(e) => read_with_first_axis_value(vars, name) == Err::<Seq<u64>, Failure>(e),
        },
{
    lemma_1d_length(vars, name);
}

} // verus!
