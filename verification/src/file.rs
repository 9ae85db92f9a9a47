//! An image of a netCDF dataset: its variables, each with its name, the
//! lengths of its dimensions in the order the dataset declares them, and what
//! reading its values gives.
//!
//! The values of a variable are the bit patterns of its elements, the last
//! dimension varying fastest. A variable whose values the netCDF library could
//! not deliver holds the library's report instead.
use crate::array::{fits, has_shape, Field, Profile};
use crate::error::LibraryError;
use vstd::prelude::*;

verus! {

/// The number of elements of a variable with the given dimension lengths:
/// their product. A variable without dimensions holds one element.
pub open spec fn element_count(dims: Seq<usize>) -> nat
    decreases dims.len(),
{
    if dims.len() == 0 {
        1
    } else {
        element_count(dims.drop_last()) * (dims.last() as nat)
    }
}

/// The values of a variable of `rows` times `cols` elements laid out as rows:
/// the element of row `i` in column `j` is the one at `i * cols + j`.
pub open spec fn rows_of(values: Seq<u64>, rows: nat, cols: nat) -> Seq<Seq<u64>> {
    Seq::new(rows, |i: int| Seq::new(cols, |j: int| values[i * cols + j]))
}

/// What reading the values of a variable gives.
pub enum Reading {
    /// The elements.
    Values(Seq<u64>),
    /// The report of the netCDF library, which could not deliver them.
    Unreadable(Seq<char>),
}

/// A variable as the contracts see it.
pub struct VariableView {
    pub name: Seq<char>,
    pub dims: Seq<usize>,
    pub reading: Reading,
}

impl VariableView {
    /// The elements of a variable are few enough that an array one element
    /// longer can still be addressed, and its values, where it has them, are as
    /// many as its dimensions say.
    pub open spec fn wf(self) -> bool {
        &&& fits(element_count(self.dims) + 1)
        &&& self.reading matches Reading::Values(values) ==> values.len() == element_count(
            self.dims,
        )
    }
}

/// Whether every variable of a dataset is well formed.
pub open spec fn all_wf(vars: Seq<VariableView>) -> bool {
    forall|i: int| 0 <= i < vars.len() ==> (#[trigger] vars[i]).wf()
}

/// The index of the first variable of that name, if there is one.
pub open spec fn find(vars: Seq<VariableView>, name: Seq<char>) -> Option<int>
    decreases vars.len(),
{
    if vars.len() == 0 {
        None
    } else if vars.first().name == name {
        Some(0)
    } else {
        match find(vars.drop_first(), name) {
            Some(i) => Some(i + 1),
            None => None,
        }
    }
}

/// `find` gives the least index at which the name stands, and `None` exactly
/// when it stands nowhere.
pub proof fn lemma_find(vars: Seq<VariableView>, name: Seq<char>)
    ensures
        match find(vars, name) {
            Some(i) => {
                &&& 0 <= i < vars.len()
                &&& vars[i].name == name
                &&& forall|j: int| 0 <= j < i ==> (#[trigger] vars[j]).name != name
            },
            None => forall|j: int| 0 <= j < vars.len() ==> (#[trigger] vars[j]).name != name,
        },
    decreases vars.len(),
{
    if vars.len() > 0 && vars.first().name != name {
        let rest = vars.drop_first();
        lemma_find(rest, name);
        assert(forall|j: int| 0 <= j < rest.len() ==> rest[j] == vars[j + 1]);
        match find(rest, name) {
            Some(i) => {
                assert forall|j: int| 0 <= j < i + 1 implies (#[trigger] vars[j]).name != name by {
                    if j > 0 {
                        assert(rest[j - 1].name != name);
                    }
                }
            },
            None => {
                assert forall|j: int| 0 <= j < vars.len() implies (#[trigger] vars[j]).name
                    != name by {
                    if j > 0 {
                        assert(rest[j - 1].name != name);
                    }
                }
            },
        }
    }
}

/// The product of the lengths is zero exactly when one of them is.
pub proof fn lemma_empty_iff_zero_dim(dims: Seq<usize>)
    ensures
        element_count(dims) == 0 <==> exists|i: int| 0 <= i < dims.len() && dims[i] == 0,
    decreases dims.len(),
{
    if dims.len() > 0 {
        let front = dims.drop_last();
        lemma_empty_iff_zero_dim(front);
        let n = element_count(front);
        let d = dims.last() as nat;
        assert(n * d == 0 <==> n == 0 || d == 0) by (nonlinear_arith);
        if element_count(dims) == 0 {
            if d == 0 {
                assert(dims[dims.len() - 1] == 0);
            } else {
                let i = choose|i: int| 0 <= i < front.len() && front[i] == 0;
                assert(dims[i] == 0);
            }
        } else {
            assert forall|i: int| 0 <= i < dims.len() implies dims[i] != 0 by {
                if i < front.len() {
                    assert(front[i] == dims[i]);
                }
            }
        }
    }
}

#[derive(Debug)]
enum Stored {
    Values(Vec<u64>),
    Unreadable(LibraryError),
}

/// A variable of a dataset.
#[derive(Debug)]
pub struct Variable {
    name: String,
    dims: Vec<usize>,
    stored: Stored,
}

impl View for Variable {
    type V = VariableView;

    closed spec fn view(&self) -> VariableView {
        VariableView {
            name: self.name@,
            dims: self.dims@,
            reading: match self.stored {
                Stored::Values(values) => Reading::Values(values@),
                Stored::Unreadable(cause) => Reading::Unreadable(cause@),
            },
        }
    }
}

/// A variable with two dimensions holds as many elements as the product of the
/// two lengths.
pub proof fn lemma_count_of_two(dims: Seq<usize>)
    requires
        dims.len() == 2,
    ensures
        element_count(dims) == dims[0] * dims[1],
{
    let front = dims.drop_last();
    lemma_count_of_one(front);
}

/// A variable with one dimension holds as many elements as the dimension is
/// long.
pub proof fn lemma_count_of_one(dims: Seq<usize>)
    requires
        dims.len() == 1,
    ensures
        element_count(dims) == dims[0],
{
    assert(element_count(dims.drop_last()) == 1);
    assert(1 * (dims.last() as nat) == dims[0] as nat) by (nonlinear_arith)
        requires
            dims.last() == dims[0],
    ;
}

/// Cutting a product off at `usize::MAX` after each factor gives the same as
/// cutting it off at the end.
proof fn lemma_saturation(p: nat, n: usize, d: usize)
    requires
        n == if p <= usize::MAX {
            p
        } else {
            usize::MAX as nat
        },
    ensures
        p * d <= usize::MAX ==> n * d == p * d,
        p * d > usize::MAX ==> n * d > usize::MAX || (d == 1 && n == usize::MAX),
{
    if p > usize::MAX {
        if d == 0 {
            assert(p * d == 0 && n * d == 0) by (nonlinear_arith)
                requires
                    d == 0,
            ;
        } else if d == 1 {
            assert(p * d == p && n * d == n) by (nonlinear_arith)
                requires
                    d == 1,
            ;
        } else {
            assert(p * d > p && n * d > n) by (nonlinear_arith)
                requires
                    d >= 2,
                    p > 0,
                    n > 0,
            ;
        }
    }
}

/// The number of elements that the dimension lengths give, or `usize::MAX`
/// where the product is larger than that.
fn count_elements(dims: &Vec<usize>) -> (n: usize)
    ensures
        n == if element_count(dims@) <= usize::MAX {
            element_count(dims@)
        } else {
            usize::MAX as nat
        },
{
    let mut n: usize = 1;
    let mut i: usize = 0;
    assert(dims@.take(0) =~= Seq::<usize>::empty());
    while i < dims.len()
        invariant
            i <= dims.len(),
            n == if element_count(dims@.take(i as int)) <= usize::MAX {
                element_count(dims@.take(i as int))
            } else {
                usize::MAX as nat
            },
        decreases dims.len() - i,
    {
        let d: usize = dims[i];
        proof {
            let before = dims@.take(i as int);
            let after = dims@.take(i + 1);
            assert(after.drop_last() =~= before);
            assert(after.last() == d);
            lemma_saturation(element_count(before), n, d);
        }
        n = match n.checked_mul(d) {
            Some(product) => product,
            None => usize::MAX,
        };
        i += 1;
    }
    assert(dims@.take(dims.len() as int) =~= dims@);
    n
}

impl Variable {
    /// Whether the variable is well formed: see [`VariableView::wf`]. Every
    /// variable is.
    pub open spec fn wf(&self) -> bool {
        self@.wf()
    }

    /// What holds of every variable.
    #[verifier::type_invariant]
    pub(crate) open spec fn well_formed(&self) -> bool {
        self.wf()
    }

    /// The variable of that name, with those dimension lengths and those
    /// values. There is none unless the values are as many as the dimensions
    /// say, and few enough that an array one element longer can still be
    /// addressed.
    pub fn new(name: &str, dims: Vec<usize>, values: Vec<u64>) -> (var: Option<Variable>)
        ensures
            match var {
                Some(v) => {
                    &&& v@ == (VariableView {
                        name: name@,
                        dims: dims@,
                        reading: Reading::Values(values@),
                    })
                    &&& v.wf()
                },
                None => !(values@.len() == element_count(dims@) && fits(values@.len() + 1)),
            },
    {
        let n: usize = count_elements(&dims);
        if values.len() == n && n < (isize::MAX as usize) / 8 {
            Some(Variable { name: name.to_owned(), dims, stored: Stored::Values(values) })
        } else {
            None
        }
    }

    /// The variable of that name and with those dimension lengths of which the
    /// netCDF library could not deliver the values, with the library's report.
    /// There is none if the dimensions give so many elements that an array one
    /// element longer could not be addressed.
    pub fn unreadable(name: &str, dims: Vec<usize>, cause: LibraryError) -> (var: Option<
        Variable,
    >)
        ensures
            match var {
                Some(v) => {
                    &&& v@ == (VariableView {
                        name: name@,
                        dims: dims@,
                        reading: Reading::Unreadable(cause@),
                    })
                    &&& v.wf()
                },
                None => !fits(element_count(dims@) + 1),
            },
    {
        let n: usize = count_elements(&dims);
        if n < (isize::MAX as usize) / 8 {
            Some(Variable { name: name.to_owned(), dims, stored: Stored::Unreadable(cause) })
        } else {
            None
        }
    }

    /// The name of the variable.
    pub fn name(&self) -> (name: String)
        ensures
            name@ == self@.name,
    {
        self.name.clone()
    }

    /// The lengths of the dimensions, in the order of their declaration.
    pub fn dimensions(&self) -> (dims: &[usize])
        ensures
            dims@ == self@.dims,
    {
        self.dims.as_slice()
    }

    /// The number of elements.
    pub fn len(&self) -> (n: usize)
        ensures
            n == element_count(self@.dims),
            self.wf(),
    {
        proof {
            use_type_invariant(self);
        }
        count_elements(&self.dims)
    }

    /// The single value of a variable without dimensions, or the report of the
    /// library that could not deliver it.
    pub(crate) fn get_value(&self) -> (value: Result<u64, LibraryError>)
        requires
            self@.dims.len() == 0,
        ensures
            match self@.reading {
                Reading::Values(values) => value == Ok::<u64, LibraryError>(values[0]),
                Reading::Unreadable(cause) => value matches Err(e) && e@ == cause,
            },
    {
        proof {
            use_type_invariant(self);
        }
        match &self.stored {
            Stored::Values(values) => Ok(values[0]),
            Stored::Unreadable(cause) => Err(cause.clone()),
        }
    }

    /// Copies the values into a profile of the variable's size, or gives the
    /// report of the library that could not deliver them and leaves the profile
    /// as it was.
    pub(crate) fn get_into(&self, out: &mut Profile) -> (done: Result<(), LibraryError>)
        requires
            old(out)@.len() == element_count(self@.dims),
        ensures
            match self@.reading {
                Reading::Values(values) => done is Ok && final(out)@ == values,
                Reading::Unreadable(cause) => {
                    &&& done matches Err(e)
                    &&& e@ == cause
                    &&& final(out)@ == old(out)@
                },
            },
    {
        proof {
            use_type_invariant(self);
        }
        match &self.stored {
            Stored::Values(values) => {
                let n: usize = values.len();
                let mut i: usize = 0;
                while i < n
                    invariant
                        i <= n,
                        n == values@.len(),
                        out@.len() == n,
                        out@.take(i as int) == values@.take(i as int),
                    decreases n - i,
                {
                    out.set(i, values[i]);
                    i += 1;
                    assert(out@.take(i as int) =~= values@.take(i as int)) by {
                        assert forall|k: int| 0 <= k < i implies out@[k] == values@[k] by {
                            if k < i - 1 {
                                assert(out@.take(i - 1)[k] == values@.take(i - 1)[k]);
                            }
                        }
                    }
                }
                assert(out@ =~= out@.take(n as int));
                assert(values@ =~= values@.take(n as int));
                Ok(())
            },
            Stored::Unreadable(cause) => Err(cause.clone()),
        }
    }

    /// Copies the values into a field of the variable's shape, row by row, or
    /// gives the report of the library that could not deliver them and leaves
    /// the field as it was.
    pub(crate) fn get_into_field(&self, out: &mut Field) -> (done: Result<(), LibraryError>)
        requires
            self@.dims.len() == 2,
            has_shape(old(out)@, self@.dims[0] as int, self@.dims[1] as int),
        ensures
            match self@.reading {
                Reading::Values(values) => {
                    &&& done is Ok
                    &&& final(out)@ == rows_of(
                        values,
                        self@.dims[0] as nat,
                        self@.dims[1] as nat,
                    )
                },
                Reading::Unreadable(cause) => {
                    &&& done matches Err(e)
                    &&& e@ == cause
                    &&& final(out)@ == old(out)@
                },
            },
    {
        proof {
            use_type_invariant(self);
        }
        match &self.stored {
            Stored::Values(values) => {
                let rows: usize = self.dims[0];
                let cols: usize = self.dims[1];
                proof {
                    lemma_count_of_two(self.dims@);
                }
                let total: usize = values.len();
                let mut i: usize = 0;
                let mut k: usize = 0;
                while i < rows
                    invariant
                        i <= rows,
                        k == i * cols,
                        total == values@.len() == rows * cols,
                        has_shape(out@, rows as int, cols as int),
                        forall|a: int, b: int|
                            0 <= a < i && 0 <= b < cols ==> #[trigger] out@[a][b] == values@[a
                                * cols + b],
                    decreases rows - i,
                {
                    let mut j: usize = 0;
                    while j < cols
                        invariant
                            i < rows,
                            j <= cols,
                            k == i * cols + j,
                            total == values@.len() == rows * cols,
                            has_shape(out@, rows as int, cols as int),
                            forall|a: int, b: int|
                                0 <= a < i && 0 <= b < cols ==> #[trigger] out@[a][b] == values@[a
                                    * cols + b],
                            forall|b: int|
                                0 <= b < j ==> #[trigger] out@[i as int][b] == values@[i * cols
                                    + b],
                        decreases cols - j,
                    {
                        assert(i * cols + j < rows * cols) by (nonlinear_arith)
                            requires
                                i < rows,
                                j < cols,
                        ;
                        let item: u64 = values[k];
                        out.set(i, j, item);
                        j += 1;
                        k += 1;
                    }
                    i += 1;
                    assert(k == i * cols) by (nonlinear_arith)
                        requires
                            k == (i - 1) * cols + cols,
                    ;
                }
                assert(out@ =~= rows_of(values@, rows as nat, cols as nat)) by {
                    assert forall|a: int| 0 <= a < rows implies #[trigger] out@[a] =~= Seq::new(
                        cols as nat,
                        |j: int| values@[a * cols + j],
                    ) by {
                        assert forall|b: int| 0 <= b < cols implies out@[a][b] == values@[a * cols
                            + b] by {}
                    }
                }
                Ok(())
            },
            Stored::Unreadable(cause) => Err(cause.clone()),
        }
    }
}

/// A dataset: its variables, in the order in which they were added.
#[derive(Debug)]
pub struct File {
    vars: Vec<Variable>,
}

impl View for File {
    type V = Seq<VariableView>;

    closed spec fn view(&self) -> Seq<VariableView> {
        Seq::new(self.vars@.len(), |i: int| self.vars@[i]@)
    }
}

impl File {
    /// Whether every variable of the dataset is well formed. Those of every
    /// dataset are.
    pub open spec fn wf(&self) -> bool {
        all_wf(self@)
    }

    /// What holds of every dataset.
    #[verifier::type_invariant]
    pub(crate) open spec fn well_formed(&self) -> bool {
        self.wf()
    }

    /// The dataset without variables.
    pub fn new() -> (file: File)
        ensures
            file@ == Seq::<VariableView>::empty(),
            file.wf(),
    {
        let file = File { vars: Vec::new() };
        assert(file@ =~= Seq::<VariableView>::empty());
        file
    }

    /// Adds a variable behind those already there. One whose name the dataset
    /// already holds is never found: a lookup gives the first of a name.
    pub fn add_variable(&mut self, var: Variable)
        ensures
            final(self)@ == old(self)@.push(var@),
            final(self).wf(),
    {
        proof {
            use_type_invariant(&*self);
            use_type_invariant(&var);
        }
        let mut taken = File { vars: Vec::new() };
        std::mem::swap(self, &mut taken);
        let mut vars = taken.vars;
        vars.push(var);
        proof {
            let views = Seq::new(vars@.len(), |i: int| vars@[i]@);
            assert(views =~= old(self)@.push(var@));
            assert forall|i: int| 0 <= i < views.len() implies (#[trigger] views[i]).wf() by {
                if i < old(self)@.len() {
                    assert(old(self)@[i].wf());
                }
            }
        }
        *self = File { vars };
    }

    /// The first variable of that name, if there is one.
    pub fn variable(&self, name: &str) -> (var: Option<&Variable>)
        ensures
            match find(self@, name@) {
                Some(i) => var matches Some(v) && v@ == self@[i],
                None => var is None,
            },
            self.wf(),
    {
        proof {
            use_type_invariant(self);
        }
        let wanted: String = name.to_owned();
        let mut i: usize = 0;
        while i < self.vars.len()
            invariant
                self.wf(),
                wanted@ == name@,
                i <= self.vars.len(),
                forall|j: int| 0 <= j < i ==> (#[trigger] self@[j]).name != name@,
            decreases self.vars.len() - i,
        {
            if self.vars[i].name == wanted {
                proof {
                    lemma_find(self@, name@);
                    assert(self@[i as int].name == name@);
                }
                return Some(&self.vars[i]);
            }
            i += 1;
        }
        proof {
            lemma_find(self@, name@);
        }
        None
    }
}

/// What an attempt to open a netCDF file gave.
#[derive(Debug)]
pub enum Opened {
    /// Nothing exists at the path.
    Missing,
    /// The netCDF library could not open what is at the path.
    Failed(LibraryError),
    /// The dataset that the file holds.
    Ready(File),
}

} // verus!
