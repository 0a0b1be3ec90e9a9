use core_providers::paths::FsPath;

fn path(parts: &[&str]) -> FsPath {
    FsPath::from_parts(parts.iter().map(|part| part.to_string()).collect())
}

fn parts(path: &FsPath) -> Vec<&str> {
    path.parts().iter().map(|part| part.as_str()).collect()
}

#[test]
fn join_appends_one_component() {
    let base = path(&["/", "games", "PAYDAY 2"]);
    assert_eq!(parts(&base.join("mods")), vec!["/", "games", "PAYDAY 2", "mods"]);
    assert_eq!(parts(&base), vec!["/", "games", "PAYDAY 2"]);
}

#[test]
fn join_on_the_empty_path_gives_the_name() {
    assert_eq!(parts(&path(&[]).join("mods")), vec!["mods"]);
}

#[test]
fn with_suffix_names_a_sibling() {
    let dir = path(&["data", "extracted", "theme"]);
    assert_eq!(parts(&dir.with_suffix(".staging")), vec!["data", "extracted", "theme.staging"]);
}

#[test]
fn with_suffix_keeps_a_dotted_name_whole() {
    let dir = path(&["data", "my.mod"]);
    assert_eq!(parts(&dir.with_suffix(".staging")), vec!["data", "my.mod.staging"]);
}

#[test]
fn with_suffix_on_the_empty_path_is_the_suffix() {
    assert_eq!(parts(&path(&[]).with_suffix(".staging")), vec![".staging"]);
}

#[test]
fn file_name_is_the_last_component() {
    assert_eq!(path(&["/", "tmp", "theme.zip"]).file_name(), Some("theme.zip"));
    assert_eq!(path(&[]).file_name(), None);
}

#[test]
fn same_as_compares_component_by_component() {
    let a = path(&["data", "theme"]);
    assert!(a.same_as(&path(&["data", "theme"])));
    assert!(!a.same_as(&path(&["data", "themes"])));
    assert!(!a.same_as(&path(&["data"])));
    assert!(!a.same_as(&path(&["data", "theme", "x"])));
    assert!(path(&[]).same_as(&path(&[])));
}

#[test]
fn clone_is_the_same_path() {
    let a = path(&["data", "theme"]);
    let b = a.clone();
    assert!(a.same_as(&b));
    assert_eq!(parts(&b), vec!["data", "theme"]);
}
