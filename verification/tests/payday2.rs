use core_providers::archive::ArchiveInfo;
use core_providers::game_providers::install::{Phase, Request};
use core_providers::game_providers::payday2::{ModKind, Payday2Provider, ProviderSource};
use core_providers::paths::FsPath;

fn path(parts: &[&str]) -> FsPath {
    FsPath::from_parts(parts.iter().map(|part| part.to_string()).collect())
}

fn parts(path: &FsPath) -> Vec<&str> {
    path.parts().iter().map(|part| part.as_str()).collect()
}

fn info(top_level: &[&str], counts: &[(&str, usize)]) -> ArchiveInfo {
    ArchiveInfo::new(
        top_level.iter().map(|name| name.to_string()).collect(),
        counts.iter().map(|(ext, count)| (ext.to_string(), *count)).collect(),
    )
}

#[test]
fn identities() {
    let provider = Payday2Provider::new();
    assert_eq!(provider.id(), "core:payday_2");
    assert_eq!(provider.mod_provider_id(), "core:modworkshop");
    assert_eq!(provider.get_external_id(), "1");
    assert_eq!(provider.steam_app_id(), 218620);
}

#[test]
fn metadata_describes_the_game() {
    let shown = Payday2Provider::new().metadata();
    assert_eq!(shown.id, "core:payday_2");
    assert_eq!(shown.display_name, "PAYDAY 2");
    assert_eq!(shown.short_name, "PD2");
    assert_eq!(
        shown.icon,
        "https://cdn2.steamgriddb.com/icon/fa6d3cc166fbfbf005c9e77d96cba283/32/256x256.png"
    );
    assert_eq!(shown.provider_source, ProviderSource::Core);
}

#[test]
fn mods_folder_is_mods_in_the_install_base() {
    let provider = Payday2Provider::new();
    let base = path(&["/", "games", "PAYDAY 2"]);
    assert_eq!(parts(&provider.mods_folder(&base)), vec!["/", "games", "PAYDAY 2", "mods"]);
}

#[test]
fn overrides_folder_is_assets_mod_overrides_in_the_install_base() {
    let provider = Payday2Provider::new();
    let base = path(&["/", "games", "PAYDAY 2"]);
    assert_eq!(
        parts(&provider.overrides_folder(&base)),
        vec!["/", "games", "PAYDAY 2", "assets", "mod_overrides"]
    );
}

#[test]
fn two_script_entries_classify_as_scripts() {
    assert_eq!(Payday2Provider::classify(&info(&[], &[("lua", 2)])), ModKind::Lua);
    assert_eq!(Payday2Provider::classify(&info(&[], &[("png", 1), ("lua", 40)])), ModKind::Lua);
}

#[test]
fn one_or_no_script_entry_classifies_as_override() {
    assert_eq!(Payday2Provider::classify(&info(&[], &[("lua", 1)])), ModKind::Override);
    assert_eq!(Payday2Provider::classify(&info(&[], &[("lua", 0)])), ModKind::Override);
    assert_eq!(Payday2Provider::classify(&info(&[], &[("png", 10)])), ModKind::Override);
    assert_eq!(Payday2Provider::classify(&info(&[], &[])), ModKind::Override);
}

#[test]
fn classification_depends_on_the_counts_alone() {
    let a = info(&["theme"], &[("lua", 2), ("png", 3)]);
    let b = info(&["x", "y"], &[("txt", 9), ("lua", 2)]);
    assert_eq!(Payday2Provider::classify(&a), Payday2Provider::classify(&b));
    assert_eq!(Payday2Provider::classify(&a), Payday2Provider::classify(&a));
}

#[test]
fn name_is_the_single_top_level_directory() {
    let archive = path(&["/", "tmp", "download-123.zip"]);
    assert_eq!(
        Payday2Provider::derive_name(&info(&["theme", "theme"], &[]), &archive),
        Some("theme".to_string())
    );
}

#[test]
fn name_falls_back_to_the_archive_stem() {
    let archive = path(&["/", "tmp", "script_pack.zip"]);
    assert_eq!(
        Payday2Provider::derive_name(&info(&["a.lua", "b.lua"], &[]), &archive),
        Some("script_pack".to_string())
    );
}

#[test]
fn stem_is_what_stands_before_the_last_dot() {
    let none = info(&[], &[]);
    assert_eq!(
        Payday2Provider::derive_name(&none, &path(&["pack.v2.zip"])),
        Some("pack.v2".to_string())
    );
    assert_eq!(Payday2Provider::derive_name(&none, &path(&["pack"])), Some("pack".to_string()));
    assert_eq!(
        Payday2Provider::derive_name(&none, &path(&[".hidden"])),
        Some(".hidden".to_string())
    );
    assert_eq!(Payday2Provider::derive_name(&none, &path(&["pack."])), Some("pack".to_string()));
}

#[test]
fn no_name_can_be_derived_without_a_file_name() {
    let none = info(&[], &[]);
    assert_eq!(Payday2Provider::derive_name(&none, &path(&[])), None);
    assert_eq!(Payday2Provider::derive_name(&none, &path(&["/", "tmp", ".."])), None);
    assert_eq!(Payday2Provider::derive_name(&none, &path(&["."])), None);
    assert_eq!(Payday2Provider::derive_name(&none, &path(&[""])), None);
    assert_eq!(Payday2Provider::derive_name(&none, &path(&["..zip"])), None);
}

#[test]
fn an_unusable_top_level_name_falls_back_to_the_stem() {
    assert_eq!(
        Payday2Provider::derive_name(&info(&[".."], &[]), &path(&["pack.zip"])),
        Some("pack".to_string())
    );
    assert_eq!(
        Payday2Provider::derive_name(&info(&[""], &[]), &path(&["pack.zip"])),
        Some("pack".to_string())
    );
}

#[test]
fn extracted_root_lies_in_the_providers_area_of_the_data_directory() {
    let data = path(&["/", "home", "u", ".local", "share"]);
    assert_eq!(
        parts(&Payday2Provider::new().extracted_root(&data, "theme")),
        vec![
            "/",
            "home",
            "u",
            ".local",
            "share",
            "me.ghoul.void_mod_manager",
            "mods",
            "extracted",
            "core:payday_2",
            "theme"
        ]
    );
}

#[test]
fn staging_path_is_the_sibling_with_the_staging_suffix() {
    let extracted = path(&["data", "extracted", "core:payday_2", "theme"]);
    let staging = Payday2Provider::staging_path(&extracted);
    assert_eq!(parts(&staging), vec!["data", "extracted", "core:payday_2", "theme.staging"]);
    assert!(!staging.same_as(&extracted));
}

#[test]
fn root_is_the_wrapper_directory_where_it_is_one() {
    let extracted = path(&["data", "theme"]);
    assert_eq!(
        parts(&Payday2Provider::resolve_root(Some("theme"), &extracted, true)),
        vec!["data", "theme", "theme"]
    );
}

#[test]
fn root_falls_back_to_the_extracted_directory() {
    let extracted = path(&["data", "theme"]);
    assert_eq!(
        parts(&Payday2Provider::resolve_root(None, &extracted, true)),
        vec!["data", "theme"]
    );
    assert_eq!(
        parts(&Payday2Provider::resolve_root(None, &extracted, false)),
        vec!["data", "theme"]
    );
    assert_eq!(
        parts(&Payday2Provider::resolve_root(Some("readme.txt"), &extracted, false)),
        vec!["data", "theme"]
    );
}

#[test]
fn link_path_follows_the_kind() {
    let mods = path(&["game", "mods"]);
    let overrides = path(&["game", "assets", "mod_overrides"]);
    assert_eq!(
        parts(&Payday2Provider::link_path(ModKind::Lua, &mods, &overrides, "pack")),
        vec!["game", "mods", "pack"]
    );
    assert_eq!(
        parts(&Payday2Provider::link_path(ModKind::Override, &mods, &overrides, "theme")),
        vec!["game", "assets", "mod_overrides", "theme"]
    );
}

#[test]
fn install_mod_begins_by_locating_the_game() {
    let install = Payday2Provider::new().install_mod(path(&["/", "tmp", "theme.zip"]));
    assert_eq!(install.phase(), Phase::LocatingGame);
    assert!(matches!(install.request(), Request::LocateInstallBase));
}
