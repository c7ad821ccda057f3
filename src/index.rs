//! Resolution of a column index (a position or a name) to a column slot.

use vstd::prelude::*;

verus! {

/// Restricts [`RowIndex`] to the index kinds that this crate defines.
pub trait Sealed {
}

/// A column description that has a name.
pub trait AsName {
    /// The name of the column.
    spec fn name_view(&self) -> Seq<char>;

    fn as_name(&self) -> (r: &str)
        ensures
            r@ == self.name_view(),
    ;
}

/// What an index asks for: a position, or a column name.
pub enum IndexView {
    Position(nat),
    Name(Seq<char>),
}

/// An index as it was given, kept for the error that reports it.
#[derive(Clone, Debug, PartialEq, Eq)]
pub enum ColumnIndex {
    Position(usize),
    Name(String),
}

impl ColumnIndex {
    pub open spec fn view(&self) -> IndexView {
        match self {
            ColumnIndex::Position(p) => IndexView::Position(*p as nat),
            ColumnIndex::Name(n) => IndexView::Name(n@),
        }
    }
}

/// Two characters are equal once ASCII upper case is mapped to lower case.
pub open spec fn char_eq_ignore_ascii_case(a: char, b: char) -> bool {
    a == b || (65 <= (a as u32) <= 90 && (b as u32) == (a as u32) + 32) || (65 <= (b as u32)
        <= 90 && (a as u32) == (b as u32) + 32)
}

/// Two strings match character by character, ignoring ASCII case.
pub open spec fn eq_ignore_ascii_case_spec(a: Seq<char>, b: Seq<char>) -> bool {
    a.len() == b.len() && forall|i: int|
        0 <= i < a.len() ==> char_eq_ignore_ascii_case(#[trigger] a[i], b[i])
}

/// Whether a column name matches the requested name, exactly or ignoring ASCII case.
pub open spec fn name_matches(column: Seq<char>, name: Seq<char>, fold: bool) -> bool {
    if fold {
        eq_ignore_ascii_case_spec(column, name)
    } else {
        column == name
    }
}

/// The first slot at or after `k` whose name matches.
pub open spec fn find_from(names: Seq<Seq<char>>, name: Seq<char>, fold: bool, k: int) -> Option<
    int,
>
    decreases names.len() - k,
{
    if k < 0 || k >= names.len() {
        None
    } else if name_matches(names[k], name, fold) {
        Some(k)
    } else {
        find_from(names, name, fold, k + 1)
    }
}

/// Name lookup: the first exact match, else the first ASCII case-insensitive match.
pub open spec fn resolve_name(names: Seq<Seq<char>>, name: Seq<char>) -> Option<int> {
    match find_from(names, name, false, 0) {
        Some(i) => Some(i),
        None => find_from(names, name, true, 0),
    }
}

/// The slot that an index designates among columns with the given names.
pub open spec fn resolve(index: IndexView, names: Seq<Seq<char>>) -> Option<int> {
    match index {
        IndexView::Position(p) => if p < names.len() {
            Some(p as int)
        } else {
            None
        },
        IndexView::Name(n) => resolve_name(names, n),
    }
}

/// The names of a sequence of columns.
pub open spec fn column_names<T: AsName>(columns: Seq<T>) -> Seq<Seq<char>> {
    columns.map_values(|c: T| c.name_view())
}

/// A slot as an integer, for comparison with [`resolve`].
pub open spec fn slot_view(r: Option<usize>) -> Option<int> {
    match r {
        Some(i) => Some(i as int),
        None => None,
    }
}

/// A type that can index into the columns of a row.
pub trait RowIndex: Sealed {
    /// What this index asks for.
    spec fn index_view(&self) -> IndexView;

    /// The slot among `columns` that this index designates, if any.
    fn __idx<T: AsName>(&self, columns: &[T]) -> (r: Option<usize>)
        ensures
            slot_view(r) == resolve(self.index_view(), column_names(columns@)),
            r matches Some(i) ==> i < columns@.len(),
    ;

    /// This index as it was given.
    fn to_column_index(&self) -> (r: ColumnIndex)
        ensures
            r.view() == self.index_view(),
    ;
}

/// Relies on `str`'s `==`: two strings are equal when they hold the same characters.
#[verifier::external_body]
fn str_equals(a: &str, b: &str) -> (r: bool)
    ensures
        r == (a@ == b@),
{
    a == b
}

/// Relies on `str::eq_ignore_ascii_case`: equal after mapping ASCII upper case to lower case.
#[verifier::external_body]
fn str_eq_ignore_ascii_case(a: &str, b: &str) -> (r: bool)
    ensures
        r == eq_ignore_ascii_case_spec(a@, b@),
{
    a.eq_ignore_ascii_case(b)
}

/// The first slot whose name matches `name`, scanning in column order.
fn position_of<T: AsName>(columns: &[T], name: &str, fold: bool) -> (r: Option<usize>)
    ensures
        slot_view(r) == find_from(column_names(columns@), name@, fold, 0),
        r matches Some(i) ==> i < columns@.len(),
{
    let ghost names = column_names(columns@);
    let mut i: usize = 0;
    while i < columns.len()
        invariant
            i <= columns@.len(),
            names == column_names(columns@),
            find_from(names, name@, fold, 0) == find_from(names, name@, fold, i as int),
        decreases columns@.len() - i,
    {
        let column = columns[i].as_name();
        let hit = if fold {
            str_eq_ignore_ascii_case(column, name)
        } else {
            str_equals(column, name)
        };
        if hit {
            return Some(i);
        }
        i = i + 1;
    }
    None
}

impl Sealed for usize {
}

impl RowIndex for usize {
    open spec fn index_view(&self) -> IndexView {
        IndexView::Position(*self as nat)
    }

    fn __idx<T: AsName>(&self, columns: &[T]) -> (r: Option<usize>) {
        if *self >= columns.len() {
            None
        } else {
            Some(*self)
        }
    }

    fn to_column_index(&self) -> (r: ColumnIndex) {
        ColumnIndex::Position(*self)
    }
}

impl Sealed for str {
}

impl RowIndex for str {
    open spec fn index_view(&self) -> IndexView {
        IndexView::Name(self@)
    }

    fn __idx<T: AsName>(&self, columns: &[T]) -> (r: Option<usize>) {
        let exact = position_of(columns, self, false);
        if exact.is_some() {
            return exact;
        }
        position_of(columns, self, true)
    }

    fn to_column_index(&self) -> (r: ColumnIndex) {
        ColumnIndex::Name(self.to_string())
    }
}

impl<'a, U: ?Sized + Sealed> Sealed for &'a U {
}

impl<'a, U: ?Sized + RowIndex> RowIndex for &'a U {
    open spec fn index_view(&self) -> IndexView {
        (**self).index_view()
    }

    fn __idx<T: AsName>(&self, columns: &[T]) -> (r: Option<usize>) {
        (**self).__idx(columns)
    }

    fn to_column_index(&self) -> (r: ColumnIndex) {
        (**self).to_column_index()
    }
}

/// Scanning from `k` finds the same slot as scanning from `i` when no slot in
/// between matches.
proof fn lemma_find_skips(names: Seq<Seq<char>>, name: Seq<char>, fold: bool, k: int, i: int)
    requires
        0 <= k <= i,
        forall|j: int| k <= j < i && j < names.len() ==> !name_matches(names[j], name, fold),
    ensures
        find_from(names, name, fold, k) == find_from(names, name, fold, i),
    decreases i - k,
{
    if k < i {
        lemma_find_skips(names, name, fold, k + 1, i);
    }
}

/// Where some slot at or after `k` matches, the scan from `k` finds a matching
/// slot no later than it.
proof fn lemma_find_reaches(names: Seq<Seq<char>>, name: Seq<char>, fold: bool, k: int, j: int)
    requires
        0 <= k <= j < names.len(),
        name_matches(names[j], name, fold),
    ensures
        find_from(names, name, fold, k) matches Some(m) && k <= m <= j && name_matches(
            names[m],
            name,
            fold,
        ),
    decreases j - k,
{
    if k < j && !name_matches(names[k], name, fold) {
        lemma_find_reaches(names, name, fold, k + 1, j);
    }
}

/// Looking a column up by its exact name gives the same slot as looking it up
/// by its position, when no earlier column carries exactly that name.
pub proof fn lemma_name_and_position_agree(names: Seq<Seq<char>>, i: int)
    requires
        0 <= i < names.len(),
        forall|j: int| 0 <= j < i ==> names[j] != names[i],
    ensures
        resolve(IndexView::Name(names[i]), names) == Some(i),
        resolve(IndexView::Position(i as nat), names) == Some(i),
{
    lemma_find_skips(names, names[i], false, 0, i);
}

/// An exact match wins over a case-insensitive one: when some column carries
/// the requested name exactly, the lookup returns the first such column, and
/// never a column that matches only when ASCII case is ignored.
pub proof fn lemma_exact_match_first(names: Seq<Seq<char>>, name: Seq<char>, j: int)
    requires
        0 <= j < names.len(),
        names[j] == name,
    ensures
        resolve_name(names, name) matches Some(k) && k <= j && names[k] == name && forall|
            m: int,
        |
            0 <= m < k ==> names[m] != name,
{
    lemma_find_reaches(names, name, false, 0, j);
    let k = find_from(names, name, false, 0)->Some_0;
    assert forall|m: int| 0 <= m < k implies names[m] != name by {
        if names[m] == name {
            lemma_find_reaches(names, name, false, 0, m);
        }
    }
}

} // verus!
