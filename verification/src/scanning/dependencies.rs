//! The dependency scanner: classifies a source tree by the languages of the
//! files found in it.

use itertools::Itertools;
use vstd::prelude::*;
use vstd::string::*;
use crate::scanning::platform::PlatformScanner;
use crate::text::{lowercase, str_eq, to_lowercase};

verus! {

/// The languages that a source tree can be found to depend on.
#[derive(Clone, Copy, Debug, PartialEq, Eq, Hash, Structural)]
pub enum LangDependencyName {
    Go,
    NodeJS,
    Python,
    Rust,
}

/// A language together with the version of it that is wanted.
#[derive(Clone, Debug, PartialEq)]
pub struct LangDependency {
    pub name: LangDependencyName,
    pub version: String,
}

/// One entry that a walk over a directory tree came upon.
#[derive(Clone, Debug)]
pub enum WalkEntry {
    /// An entry that could not be read.
    Unreadable,
    /// An entry that was read: whether it is a regular file, and the
    /// extension of its name where it has one.
    Found { is_file: bool, extension: Option<String> },
}

impl LangDependencyName {
    /// A small number for each language, different for each.
    spec fn spec_code(self) -> u8 {
        match self {
            LangDependencyName::Go => 0,
            LangDependencyName::NodeJS => 1,
            LangDependencyName::Python => 2,
            LangDependencyName::Rust => 3,
        }
    }

    #[verifier::when_used_as_spec(spec_code)]
    fn code(self) -> (code: u8)
        ensures
            code == self.spec_code(),
    {
        match self {
            LangDependencyName::Go => 0,
            LangDependencyName::NodeJS => 1,
            LangDependencyName::Python => 2,
            LangDependencyName::Rust => 3,
        }
    }

    fn from_code(code: u8) -> (name: LangDependencyName)
        requires
            code < 4,
        ensures
            name.spec_code() == code,
    {
        if code == 0 {
            LangDependencyName::Go
        } else if code == 1 {
            LangDependencyName::NodeJS
        } else if code == 2 {
            LangDependencyName::Python
        } else {
            LangDependencyName::Rust
        }
    }
}

/// The function that gives each language its number.
spec fn code() -> spec_fn(LangDependencyName) -> u8 {
    |name: LangDependencyName| name.spec_code()
}

/// The language that a file extension stands for, the extension given in
/// lower case: `go`, `rs`, `js` or `ts`, and `py`; every other extension
/// stands for none.
pub open spec fn classify(extension: Seq<char>) -> Option<LangDependencyName> {
    if extension == "go"@ {
        Some(LangDependencyName::Go)
    } else if extension == "rs"@ {
        Some(LangDependencyName::Rust)
    } else if extension == "js"@ || extension == "ts"@ {
        Some(LangDependencyName::NodeJS)
    } else if extension == "py"@ {
        Some(LangDependencyName::Python)
    } else {
        None
    }
}

/// The language of one entry of a walk: that of the lower-cased extension of
/// a regular file; none for what is no regular file, has no extension or
/// could not be read.
pub open spec fn entry_language(entry: WalkEntry) -> Option<LangDependencyName> {
    match entry {
        WalkEntry::Found { is_file: true, extension: Some(extension) } => classify(
            lowercase(extension@),
        ),
        _ => None,
    }
}

/// The languages of the entries of a walk, one for each entry that has one,
/// in the order of the walk.
pub open spec fn languages(entries: Seq<WalkEntry>) -> Seq<LangDependencyName>
    decreases entries.len(),
{
    if entries.len() == 0 {
        seq![]
    } else {
        let earlier = languages(entries.drop_last());
        match entry_language(entries.last()) {
            Some(language) => earlier.push(language),
            None => earlier,
        }
    }
}

/// A sequence without its repetitions: each item stays where it first
/// occurs, and every later occurrence of it is left out.
pub open spec fn first_occurrences<T>(items: Seq<T>) -> Seq<T>
    decreases items.len(),
{
    if items.len() == 0 {
        seq![]
    } else {
        let earlier = first_occurrences(items.drop_last());
        if earlier.contains(items.last()) {
            earlier
        } else {
            earlier.push(items.last())
        }
    }
}

/// What is left of a sequence without its repetitions holds the items of the
/// sequence, each of them once.
pub proof fn lemma_first_occurrences_is_a_set<T>(items: Seq<T>)
    ensures
        first_occurrences(items).no_duplicates(),
        forall|item: T|
            #![trigger first_occurrences(items).contains(item)]
            #![trigger items.contains(item)]
            first_occurrences(items).contains(item) <==> items.contains(item),
        first_occurrences(items).len() <= items.len(),
        items.len() > 0 ==> first_occurrences(items).len() > 0,
    decreases items.len(),
{
    if items.len() > 0 {
        let earlier = items.drop_last();
        lemma_first_occurrences_is_a_set(earlier);
        let kept = first_occurrences(earlier);
        let all = first_occurrences(items);
        assert forall|item: T| items.contains(item) implies all.contains(item) by {
            if items.index_of(item) < items.len() - 1 {
                assert(earlier[items.index_of(item)] == item);
                assert(earlier.contains(item));
                assert(all[kept.index_of(item)] == item);
            } else if kept.contains(item) {
                assert(all[kept.index_of(item)] == item);
            } else {
                assert(all[kept.len() as int] == item);
            }
        }
        assert forall|item: T| all.contains(item) implies items.contains(item) by {
            if all.index_of(item) < kept.len() {
                assert(kept.contains(item));
                assert(items[earlier.index_of(item)] == item);
            } else {
                assert(items.last() == item);
            }
        }
    }
}

/// Leaving out repetitions and renaming the items one for one can be done
/// in either order.
proof fn lemma_first_occurrences_map<A, B>(items: Seq<A>, f: spec_fn(A) -> B)
    requires
        forall|x: A, y: A| #[trigger] f(x) == #[trigger] f(y) ==> x == y,
    ensures
        first_occurrences(items.map_values(f)) == first_occurrences(items).map_values(f),
    decreases items.len(),
{
    if items.len() > 0 {
        let earlier = items.drop_last();
        let kept = first_occurrences(earlier);
        lemma_first_occurrences_map(earlier, f);
        assert(items.map_values(f).drop_last() =~= earlier.map_values(f));
        if kept.contains(items.last()) {
            assert(kept.map_values(f)[kept.index_of(items.last())] == f(items.last()));
        } else if kept.map_values(f).contains(f(items.last())) {
            let k = kept.map_values(f).index_of(f(items.last()));
            assert(f(kept[k]) == f(items.last()));
        }
    }
}

/// `Itertools::unique` on the items of a vector, collected again: each item
/// comes out once, at the place of its first occurrence, as the adaptor's
/// `next` skips whatever its set of seen items already holds.
#[verifier::external_body]
fn unique(codes: Vec<u8>) -> (kept: Vec<u8>)
    ensures
        kept@ == first_occurrences(codes@),
{
    codes.into_iter().unique().collect()
}

/// The language that a file extension stands for, the extension given in
/// lower case.
pub fn classify_extension(extension: &str) -> (language: Option<LangDependencyName>)
    ensures
        language == classify(extension@),
{
    if str_eq(extension, "go") {
        Some(LangDependencyName::Go)
    } else if str_eq(extension, "rs") {
        Some(LangDependencyName::Rust)
    } else if str_eq(extension, "js") || str_eq(extension, "ts") {
        Some(LangDependencyName::NodeJS)
    } else if str_eq(extension, "py") {
        Some(LangDependencyName::Python)
    } else {
        None
    }
}

/// The language of one entry of a walk.
pub fn language_of_entry(entry: &WalkEntry) -> (language: Option<LangDependencyName>)
    ensures
        language == entry_language(*entry),
{
    match entry {
        WalkEntry::Found { is_file: true, extension: Some(extension) } => {
            let lowered = to_lowercase(extension.as_str());
            classify_extension(lowered.as_str())
        },
        _ => None,
    }
}

impl PlatformScanner {
    /// Lists the languages that a directory tree depends on, given the
    /// entries that a walk over the tree came upon.
    ///
    /// Each language of an entry is listed once, in the order in which the
    /// walk first met it. Returns `None`, not an empty list, where no entry
    /// has a language.
    pub fn get_project_language_dependencies(entries: &Vec<WalkEntry>) -> (found: Option<
        Vec<LangDependencyName>,
    >)
        ensures
            match found {
                Some(names) => names@.len() > 0 && names@ == first_occurrences(
                    languages(entries@),
                ),
                None => languages(entries@).len() == 0,
            },
    {
        let mut codes: Vec<u8> = Vec::new();
        let mut i: usize = 0;
        while i < entries.len()
            invariant
                i <= entries.len(),
                codes@ == languages(entries@.take(i as int)).map_values(code()),
            decreases entries.len() - i,
        {
            assert(entries@.take(i + 1).drop_last() =~= entries@.take(i as int));
            match language_of_entry(&entries[i]) {
                Some(language) => {
                    codes.push(language.code());
                },
                None => {},
            }
            i += 1;
        }
        assert(entries@.take(i as int) =~= entries@);
        let ghost all = languages(entries@);
        let ghost kept = first_occurrences(all);
        proof {
            lemma_first_occurrences_map(all, code());
            lemma_first_occurrences_is_a_set(all);
        }
        let unique_codes = unique(codes);
        let mut names: Vec<LangDependencyName> = Vec::new();
        let mut k: usize = 0;
        while k < unique_codes.len()
            invariant
                k <= unique_codes.len(),
                unique_codes@ == kept.map_values(code()),
                names@ == kept.take(k as int),
            decreases unique_codes.len() - k,
        {
            let name = LangDependencyName::from_code(unique_codes[k]);
            names.push(name);
            k += 1;
        }
        if names.is_empty() {
            None
        } else {
            Some(names)
        }
    }
}

/// A language is among those of a walk exactly where one of the walk's
/// entries has it.
pub proof fn lemma_languages_are_those_of_the_entries(
    entries: Seq<WalkEntry>,
    language: LangDependencyName,
)
    ensures
        languages(entries).contains(language) <==> exists|i: int|
            0 <= i < entries.len() && entry_language(#[trigger] entries[i]) == Some(language),
    decreases entries.len(),
{
    if entries.len() > 0 {
        let earlier = entries.drop_last();
        let found = languages(earlier);
        lemma_languages_are_those_of_the_entries(earlier, language);
        if languages(entries).contains(language) {
            if languages(entries).index_of(language) < found.len() {
                let i = choose|i: int|
                    0 <= i < earlier.len() && entry_language(#[trigger] earlier[i]) == Some(
                        language,
                    );
                assert(entry_language(entries[i]) == Some(language));
            } else {
                assert(entry_language(entries[entries.len() - 1]) == Some(language));
            }
        }
        if exists|i: int|
            0 <= i < entries.len() && entry_language(#[trigger] entries[i]) == Some(language) {
            let i = choose|i: int|
                0 <= i < entries.len() && entry_language(#[trigger] entries[i]) == Some(language);
            if i < earlier.len() {
                assert(entry_language(earlier[i]) == Some(language));
                assert(languages(entries)[found.index_of(language)] == language);
            } else {
                assert(languages(entries)[found.len() as int] == language);
            }
        }
    }
}

/// The order in which a walk comes upon the entries of a tree does not
/// change what is found: two walks over the same entries find the same set
/// of languages, and either both find some or both find none.
pub proof fn lemma_order_of_the_walk_is_irrelevant(a: Seq<WalkEntry>, b: Seq<WalkEntry>)
    requires
        a.to_multiset() == b.to_multiset(),
    ensures
        first_occurrences(languages(a)).to_set() == first_occurrences(languages(b)).to_set(),
        languages(a).len() == 0 <==> languages(b).len() == 0,
{
    a.to_multiset_ensures();
    b.to_multiset_ensures();
    lemma_first_occurrences_is_a_set(languages(a));
    lemma_first_occurrences_is_a_set(languages(b));
    assert forall|language: LangDependencyName|
        languages(a).contains(language) <==> languages(b).contains(language) by {
        lemma_languages_are_those_of_the_entries(a, language);
        lemma_languages_are_those_of_the_entries(b, language);
        if languages(a).contains(language) {
            let i = choose|i: int|
                0 <= i < a.len() && entry_language(#[trigger] a[i]) == Some(language);
            assert(b.to_multiset().count(a[i]) > 0);
            assert(entry_language(b[b.index_of(a[i])]) == Some(language));
        }
        if languages(b).contains(language) {
            let i = choose|i: int|
                0 <= i < b.len() && entry_language(#[trigger] b[i]) == Some(language);
            assert(a.to_multiset().count(b[i]) > 0);
            assert(entry_language(a[a.index_of(b[i])]) == Some(language));
        }
    }
    if languages(a).len() > 0 {
        assert(languages(a).contains(languages(a)[0]));
    }
    if languages(b).len() > 0 {
        assert(languages(b).contains(languages(b)[0]));
    }
}

} // verus!
