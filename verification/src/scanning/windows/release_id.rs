//! The Windows release mapper: Windows 10 build numbers and the release
//! labels they belong to.

use vstd::prelude::*;
use vstd::string::*;

verus! {

/// One row of the release table: every build from the first preview build up
/// to the release build carries the same label.
pub struct ReleaseRange {
    pub preview_start: u64,
    pub release_build: u64,
    pub label: &'static str,
}

impl ReleaseRange {
    /// The row as plain values.
    pub open spec fn view(&self) -> (int, int, Seq<char>) {
        (self.preview_start as int, self.release_build as int, self.label@)
    }

    /// Whether `build` lies inside the row, bounds included.
    pub open spec fn spec_contains(&self, build: u64) -> bool {
        row_contains(self@, build as int)
    }

    /// Whether `build` lies inside the row, bounds included.
    #[verifier::when_used_as_spec(spec_contains)]
    pub fn contains(&self, build: u64) -> (inside: bool)
        ensures
            inside == self.spec_contains(build),
    {
        self.preview_start <= build && build <= self.release_build
    }
}

/// Whether `build` lies between the two bounds of `row`, bounds included.
pub open spec fn row_contains(row: (int, int, Seq<char>), build: int) -> bool {
    row.0 <= build <= row.1
}

/// The release table, in the order in which it is searched.
pub open spec fn release_table() -> Seq<(int, int, Seq<char>)> {
    seq![
        (9841int, 10240int, "1507"@),
        (10525int, 10586int, "1511"@),
        (11082int, 14393int, "1607"@),
        (14901int, 15063int, "1703"@),
        (16170int, 16299int, "1709"@),
        (16353int, 17134int, "1803"@),
        (17604int, 17763int, "1809"@),
        (18204int, 18362int, "1903"@),
        (18836int, 18908int, "20H1"@),
    ]
}

/// The label of the first row of `table`, from row `from` on, that contains
/// `build`; `None` where no such row is left.
pub open spec fn first_match(table: Seq<(int, int, Seq<char>)>, build: int, from: int) -> Option<
    Seq<char>,
>
    decreases table.len() - from,
{
    if from < 0 || from >= table.len() {
        None
    } else if row_contains(table[from], build) {
        Some(table[from].2)
    } else {
        first_match(table, build, from + 1)
    }
}

/// The release label of a build number: that of the first row of the release
/// table that contains it.
pub open spec fn release_label(build: int) -> Option<Seq<char>> {
    first_match(release_table(), build, 0)
}

/// The release table as executable rows.
pub fn windows_10_release_map() -> (table: Vec<ReleaseRange>)
    ensures
        table@.map_values(|row: ReleaseRange| row@) == release_table(),
{
    let mut table: Vec<ReleaseRange> = Vec::new();
    table.push(ReleaseRange { preview_start: 9841, release_build: 10240, label: "1507" });
    table.push(ReleaseRange { preview_start: 10525, release_build: 10586, label: "1511" });
    table.push(ReleaseRange { preview_start: 11082, release_build: 14393, label: "1607" });
    table.push(ReleaseRange { preview_start: 14901, release_build: 15063, label: "1703" });
    table.push(ReleaseRange { preview_start: 16170, release_build: 16299, label: "1709" });
    table.push(ReleaseRange { preview_start: 16353, release_build: 17134, label: "1803" });
    table.push(ReleaseRange { preview_start: 17604, release_build: 17763, label: "1809" });
    table.push(ReleaseRange { preview_start: 18204, release_build: 18362, label: "1903" });
    table.push(ReleaseRange { preview_start: 18836, release_build: 18908, label: "20H1" });
    table
}

/// Converts a build number to its release label.
///
/// Returns the label of the first row of the release table whose range
/// contains `build`, and `None` where no row does.
pub fn get_release_id(build: &u64) -> (release_id: Option<String>)
    ensures
        match release_id {
            Some(label) => release_label(*build as int) == Some(label@),
            None => release_label(*build as int) is None,
        },
{
    let table = windows_10_release_map();
    let ghost rows = table@.map_values(|row: ReleaseRange| row@);
    let mut i: usize = 0;
    while i < table.len()
        invariant
            i <= table.len(),
            rows == table@.map_values(|row: ReleaseRange| row@),
            rows == release_table(),
            release_label(*build as int) == first_match(rows, *build as int, i as int),
        decreases table.len() - i,
    {
        if table[i].contains(*build) {
            return Some(table[i].label.to_owned());
        }
        i += 1;
    }
    None
}

/// The rows of the release table lie apart, each wholly below the one after
/// it: no build number lies in two rows.
pub proof fn lemma_release_ranges_are_disjoint()
    ensures
        forall|i: int|
            0 <= i < release_table().len() ==> (#[trigger] release_table()[i]).0
                <= release_table()[i].1,
        forall|i: int, j: int|
            0 <= i < j < release_table().len() ==> (#[trigger] release_table()[i]).1 < (
            #[trigger] release_table()[j]).0,
{
}

/// A build number that lies in a row of the release table has the label of
/// that row.
pub proof fn lemma_release_label_is_that_of_the_row(build: int, row: int)
    requires
        0 <= row < release_table().len(),
        row_contains(release_table()[row], build),
    ensures
        release_label(build) == Some(release_table()[row].2),
{
    reveal_with_fuel(first_match, 10);
}

} // verus!
