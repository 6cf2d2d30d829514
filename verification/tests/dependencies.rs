use offsetup::scanning::dependencies::{
    classify_extension, language_of_entry, LangDependency, LangDependencyName, WalkEntry,
};
use offsetup::scanning::platform::PlatformScanner;

fn directory() -> WalkEntry {
    WalkEntry::Found { is_file: false, extension: None }
}

fn file(extension: &str) -> WalkEntry {
    WalkEntry::Found { is_file: true, extension: Some(extension.to_string()) }
}

fn file_without_extension() -> WalkEntry {
    WalkEntry::Found { is_file: true, extension: None }
}

/// The entries that a walk over one of the example trees comes upon: the
/// directory itself, then the files in it.
fn walk(dir: &str) -> Vec<WalkEntry> {
    match dir {
        "examples/scanner/new/go" => vec![directory(), file("go")],
        "examples/scanner/new/mixed_go_rust" => vec![directory(), file("go"), file("rs")],
        "examples/scanner/new/nodejs" => vec![directory(), file("js")],
        "examples/scanner/new/python" => vec![directory(), file("py")],
        "examples/scanner/new/rust" => vec![directory(), file("rs")],
        _ => vec![WalkEntry::Unreadable],
    }
}

#[test]
fn scanning_list_go_dependencies() {
    let result =
        PlatformScanner::get_project_language_dependencies(&walk("examples/scanner/new/go"));

    assert!(result.is_some(), "Could not find dependency");
    let deps = result.unwrap();
    assert_eq!(1, deps.len(), "failed to find one dependency");
    assert_eq!(LangDependencyName::Go, deps[0])
}

#[test]
fn scanning_list_mixed_go_rust_dependencies() {
    let result = PlatformScanner::get_project_language_dependencies(&walk(
        "examples/scanner/new/mixed_go_rust",
    ));

    assert!(result.is_some(), "Could not find dependencies");
    let deps = result.unwrap();
    assert_eq!(2, deps.len(), "failed to find both dependencies");

    let first = &deps[0];
    assert!(*first == LangDependencyName::Go || *first == LangDependencyName::Rust);
    assert!(*first != LangDependencyName::NodeJS && *first != LangDependencyName::Python);

    let second = &deps[1];
    assert!(*second == LangDependencyName::Go || *second == LangDependencyName::Rust);
    assert!(*second != LangDependencyName::NodeJS && *second != LangDependencyName::Python);
}

#[test]
fn scanning_list_nodejs_dependencies() {
    let result = PlatformScanner::get_project_language_dependencies(&walk(
        "examples/scanner/new/nodejs",
    ));

    assert!(result.is_some(), "Could not find dependency");
    let deps = result.unwrap();
    assert_eq!(1, deps.len(), "failed to find one dependency");

    let first = &deps[0];
    assert_eq!(LangDependencyName::NodeJS, *first);
    assert_ne!(LangDependencyName::Python, *first);
    assert_ne!(LangDependencyName::Go, *first);
    assert_ne!(LangDependencyName::Rust, *first);
}

#[test]
fn scanning_list_python_dependencies() {
    let result = PlatformScanner::get_project_language_dependencies(&walk(
        "examples/scanner/new/python",
    ));

    assert!(result.is_some(), "Could not find dependency");
    let deps = result.unwrap();
    assert_eq!(1, deps.len(), "failed to find one dependency");
    assert_eq!(LangDependencyName::Python, deps[0])
}

#[test]
fn scanning_list_rust_dependencies() {
    let result =
        PlatformScanner::get_project_language_dependencies(&walk("examples/scanner/new/rust"));

    assert!(result.is_some(), "Could not find dependency");
    let deps = result.unwrap();
    assert_eq!(1, deps.len(), "failed to find one dependency");
    assert_eq!(LangDependencyName::Rust, deps[0])
}

#[test]
fn platform_list_go_dependencies() {
    let result =
        PlatformScanner::get_project_language_dependencies(&walk("examples/scanner/new/go"));

    assert!(result.is_some(), "Could not find dependency");
    let deps = result.unwrap();
    assert_eq!(1, deps.len(), "failed to find one dependency");
    assert_eq!(LangDependencyName::Go, deps[0])
}

#[test]
fn platform_list_mixed_go_rust_dependencies() {
    let result = PlatformScanner::get_project_language_dependencies(&walk(
        "examples/scanner/new/mixed_go_rust",
    ));

    assert!(result.is_some(), "Could not find dependencies");
    let deps = result.unwrap();
    assert_eq!(2, deps.len(), "failed to find both dependencies");

    let first = &deps[0];
    assert!(*first == LangDependencyName::Go || *first == LangDependencyName::Rust);
    assert!(*first != LangDependencyName::NodeJS && *first != LangDependencyName::Python);

    let second = &deps[1];
    assert!(*second == LangDependencyName::Go || *second == LangDependencyName::Rust);
    assert!(*second != LangDependencyName::NodeJS && *second != LangDependencyName::Python);
}

#[test]
fn platform_list_nodejs_dependencies() {
    let result = PlatformScanner::get_project_language_dependencies(&walk(
        "examples/scanner/new/nodejs",
    ));

    assert!(result.is_some(), "Could not find dependency");
    let deps = result.unwrap();
    assert_eq!(1, deps.len(), "failed to find one dependency");

    let first = &deps[0];
    assert_eq!(LangDependencyName::NodeJS, *first);
    assert_ne!(LangDependencyName::Python, *first);
    assert_ne!(LangDependencyName::Go, *first);
    assert_ne!(LangDependencyName::Rust, *first);
}

#[test]
fn platform_list_python_dependencies() {
    let result = PlatformScanner::get_project_language_dependencies(&walk(
        "examples/scanner/new/python",
    ));

    assert!(result.is_some(), "Could not find dependency");
    let deps = result.unwrap();
    assert_eq!(1, deps.len(), "failed to find one dependency");
    assert_eq!(LangDependencyName::Python, deps[0])
}

#[test]
fn platform_list_rust_dependencies() {
    let result =
        PlatformScanner::get_project_language_dependencies(&walk("examples/scanner/new/rust"));

    assert!(result.is_some(), "Could not find dependency");
    let deps = result.unwrap();
    assert_eq!(1, deps.len(), "failed to find one dependency");
    assert_eq!(LangDependencyName::Rust, deps[0])
}

#[test]
fn tree_of_go_files_only() {
    let entries = vec![directory(), file("go"), file("go"), directory(), file("go")];
    assert_eq!(
        Some(vec![LangDependencyName::Go]),
        PlatformScanner::get_project_language_dependencies(&entries)
    );
}

#[test]
fn tree_of_one_go_and_one_rust_file() {
    let entries = vec![directory(), file("go"), file("rs")];
    assert_eq!(
        Some(vec![LangDependencyName::Go, LangDependencyName::Rust]),
        PlatformScanner::get_project_language_dependencies(&entries)
    );
    let turned = vec![file("rs"), file("go"), directory()];
    assert_eq!(
        Some(vec![LangDependencyName::Rust, LangDependencyName::Go]),
        PlatformScanner::get_project_language_dependencies(&turned)
    );
}

#[test]
fn tree_of_markdown_files_only() {
    let entries = vec![directory(), file("md"), file("md")];
    assert_eq!(None, PlatformScanner::get_project_language_dependencies(&entries));
}

#[test]
fn empty_tree_has_no_dependencies() {
    assert_eq!(None, PlatformScanner::get_project_language_dependencies(&Vec::new()));
    assert_eq!(None, PlatformScanner::get_project_language_dependencies(&vec![directory()]));
}

#[test]
fn each_language_is_listed_once_where_it_was_first_met() {
    let entries = vec![
        file("py"),
        file("go"),
        file("py"),
        file("ts"),
        file("go"),
        file("js"),
        file("rs"),
        file("py"),
        file("rs"),
    ];
    assert_eq!(
        Some(vec![
            LangDependencyName::Python,
            LangDependencyName::Go,
            LangDependencyName::NodeJS,
            LangDependencyName::Rust,
        ]),
        PlatformScanner::get_project_language_dependencies(&entries)
    );
}

#[test]
fn extensions_are_compared_in_lower_case() {
    let entries = vec![file("GO"), file("Rs"), file("PY"), file("Js"), file("tS")];
    assert_eq!(
        Some(vec![
            LangDependencyName::Go,
            LangDependencyName::Rust,
            LangDependencyName::Python,
            LangDependencyName::NodeJS,
        ]),
        PlatformScanner::get_project_language_dependencies(&entries)
    );
    assert_eq!(None, classify_extension("GO"));
    assert_eq!(Some(LangDependencyName::Go), language_of_entry(&file("GO")));
}

#[test]
fn what_is_no_readable_regular_file_with_an_extension_is_skipped() {
    let entries = vec![
        WalkEntry::Unreadable,
        WalkEntry::Found { is_file: false, extension: Some("go".to_string()) },
        file_without_extension(),
        WalkEntry::Unreadable,
    ];
    assert_eq!(None, PlatformScanner::get_project_language_dependencies(&entries));

    let with_one = vec![
        WalkEntry::Unreadable,
        WalkEntry::Found { is_file: false, extension: Some("go".to_string()) },
        file("rs"),
        WalkEntry::Unreadable,
    ];
    assert_eq!(
        Some(vec![LangDependencyName::Rust]),
        PlatformScanner::get_project_language_dependencies(&with_one)
    );
}

#[test]
fn extensions_and_their_languages() {
    assert_eq!(Some(LangDependencyName::Go), classify_extension("go"));
    assert_eq!(Some(LangDependencyName::Rust), classify_extension("rs"));
    assert_eq!(Some(LangDependencyName::NodeJS), classify_extension("js"));
    assert_eq!(Some(LangDependencyName::NodeJS), classify_extension("ts"));
    assert_eq!(Some(LangDependencyName::Python), classify_extension("py"));
    for other in ["", "g", "goo", "md", "tsx", "jsx", "pyc", "rs ", ".rs", "toml"] {
        assert_eq!(None, classify_extension(other));
    }
}

#[test]
fn order_of_the_walk_does_not_change_the_set() {
    let one = vec![file("go"), file("md"), file("py"), file("go"), directory()];
    let other = vec![directory(), file("py"), file("go"), file("go"), file("md")];
    let mut found_one = PlatformScanner::get_project_language_dependencies(&one).unwrap();
    let mut found_other = PlatformScanner::get_project_language_dependencies(&other).unwrap();
    found_one.sort_by_key(|name| *name as u8);
    found_other.sort_by_key(|name| *name as u8);
    assert_eq!(found_one, found_other);
    assert_eq!(vec![LangDependencyName::Go, LangDependencyName::Python], found_one);
}

#[test]
fn dependency_with_a_version() {
    let dependency =
        LangDependency { name: LangDependencyName::Rust, version: "1.32".to_string() };
    assert_eq!(dependency, dependency.clone());
    assert_eq!(LangDependencyName::Rust, dependency.name);
}
