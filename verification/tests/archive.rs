use core_providers::archive::ArchiveInfo;

fn info(top_level: &[&str], counts: &[(&str, usize)]) -> ArchiveInfo {
    ArchiveInfo::new(
        top_level.iter().map(|name| name.to_string()).collect(),
        counts.iter().map(|(ext, count)| (ext.to_string(), *count)).collect(),
    )
}

#[test]
fn count_ext_finds_the_recorded_count() {
    let archive = info(&["theme"], &[("png", 10), ("lua", 1)]);
    assert_eq!(archive.count_ext("lua"), 1);
    assert_eq!(archive.count_ext("png"), 10);
}

#[test]
fn count_ext_is_zero_for_an_extension_that_was_not_seen() {
    let archive = info(&["theme"], &[("png", 10)]);
    assert_eq!(archive.count_ext("lua"), 0);
    assert_eq!(info(&[], &[]).count_ext("lua"), 0);
}

#[test]
fn count_ext_lowers_the_extension_asked_for() {
    let archive = info(&["theme"], &[("lua", 3)]);
    assert_eq!(archive.count_ext("LUA"), 3);
    assert_eq!(archive.count_ext("Lua"), 3);
}

#[test]
fn count_ext_does_not_lower_what_was_recorded() {
    let archive = info(&["theme"], &[("LUA", 3)]);
    assert_eq!(archive.count_ext("lua"), 0);
    assert_eq!(archive.count_ext("LUA"), 0);
}

#[test]
fn count_ext_takes_the_first_entry_of_an_extension() {
    let archive = info(&[], &[("lua", 2), ("lua", 7)]);
    assert_eq!(archive.count_ext("lua"), 2);
}

#[test]
fn count_ext_does_not_match_a_prefix() {
    let archive = info(&[], &[("luac", 2)]);
    assert_eq!(archive.count_ext("lua"), 0);
}

#[test]
fn single_top_level_dir_is_the_only_name() {
    assert_eq!(info(&["theme"], &[]).single_top_level_dir(), Some("theme".to_string()));
}

#[test]
fn single_top_level_dir_counts_a_repeated_name_once() {
    assert_eq!(
        info(&["theme", "theme", "theme"], &[]).single_top_level_dir(),
        Some("theme".to_string())
    );
}

#[test]
fn single_top_level_dir_is_none_for_two_names() {
    assert_eq!(info(&["a.lua", "b.lua"], &[]).single_top_level_dir(), None);
    assert_eq!(info(&["theme", "theme", "readme.txt"], &[]).single_top_level_dir(), None);
}

#[test]
fn single_top_level_dir_is_none_for_an_empty_archive() {
    assert_eq!(info(&[], &[]).single_top_level_dir(), None);
}
