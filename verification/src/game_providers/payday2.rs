//! PAYDAY 2: where its mods live, how a mod archive is told apart, and the
//! places on disk that one install goes through.

use vstd::prelude::*;
use vstd::string::StrSliceExecFns;
use crate::archive::{ArchiveInfo, ArchiveInfoView};
use crate::game_providers::install::{Install, InstallView};
use crate::paths::{child, suffixed, FsPath};

verus! {

/// What an archive holds, by which the place of its link is chosen.
#[derive(Debug, Clone, Copy, PartialEq, Eq, Structural)]
pub enum ModKind {
    /// Scripts: linked under the game's `mods` folder.
    Lua,
    /// Replaced assets: linked under `assets/mod_overrides`.
    Override,
}

/// The kind of an archive with these counts: scripts where more than one file
/// is a `.lua` file, replaced assets otherwise. This is a guess from the
/// counts alone; it does not look into any file.
pub open spec fn kind_of(info: ArchiveInfoView) -> ModKind {
    if info.count_ext("lua"@) > 1 {
        ModKind::Lua
    } else {
        ModKind::Override
    }
}

/// The game's folder for script mods.
pub open spec fn mods_dir(base: Seq<Seq<char>>) -> Seq<Seq<char>> {
    child(base, "mods"@)
}

/// The game's folder for replaced assets.
pub open spec fn overrides_dir(base: Seq<Seq<char>>) -> Seq<Seq<char>> {
    child(child(base, "assets"@), "mod_overrides"@)
}

/// The folder below the data directory that holds what this provider has
/// extracted, one directory for each mod.
pub open spec fn extracted_area(data_dir: Seq<Seq<char>>) -> Seq<Seq<char>> {
    child(
        child(child(child(data_dir, "me.ghoul.void_mod_manager"@), "mods"@), "extracted"@),
        "core:payday_2"@,
    )
}

/// Where the extracted content of the mod `name` is kept.
pub open spec fn extracted_dir(data_dir: Seq<Seq<char>>, name: Seq<char>) -> Seq<Seq<char>> {
    child(extracted_area(data_dir), name)
}

/// Where a mod is extracted to before it takes its place: the sibling of its
/// extracted directory named with `.staging` at the end.
pub open spec fn staging_dir(extracted: Seq<Seq<char>>) -> Seq<Seq<char>> {
    suffixed(extracted, ".staging"@)
}

/// Whether `name` can name a file or directory: it is neither empty nor one of
/// `.` and `..`.
pub open spec fn is_plain_name(name: Seq<char>) -> bool {
    name.len() > 0 && name != seq!['.'] && name != seq!['.', '.']
}

/// Where the last `.` of `name` stands, if it has one.
pub open spec fn last_dot(name: Seq<char>) -> Option<int>
    decreases name.len(),
{
    if name.len() == 0 {
        None
    } else if name.last() == '.' {
        Some(name.len() - 1)
    } else {
        last_dot(name.drop_last())
    }
}

/// A file's name without its extension: what stands before the last `.`, and
/// the whole name where it has no `.` or only one at its start.
pub open spec fn file_stem(name: Seq<char>) -> Seq<char> {
    match last_dot(name) {
        Some(dot) => if dot > 0 {
            name.subrange(0, dot)
        } else {
            name
        },
        None => name,
    }
}

/// The name under which a mod is installed: that of the archive's single
/// top-level directory where it has one, else the archive file's name without
/// its extension; none where neither can name a directory.
pub open spec fn derived_name(top: Option<Seq<char>>, archive: Seq<Seq<char>>) -> Option<
    Seq<char>,
> {
    if top is Some && is_plain_name(top->0) {
        top
    } else if archive.len() > 0 && is_plain_name(archive.last()) && is_plain_name(
        file_stem(archive.last()),
    ) {
        Some(file_stem(archive.last()))
    } else {
        None
    }
}

/// The directory that a mod's link points at. An archive whose entries all
/// lie in one top-level directory is entered: the root is that directory
/// inside `extracted`, provided it is a directory there. In every other case
/// the root is `extracted` itself.
pub open spec fn content_root(
    top: Option<Seq<char>>,
    extracted: Seq<Seq<char>>,
    candidate_is_dir: bool,
) -> Seq<Seq<char>> {
    if top is Some && candidate_is_dir {
        child(extracted, top->0)
    } else {
        extracted
    }
}

/// Where the link of the mod `name` is made: under `mods` for scripts, under
/// `overrides` for replaced assets.
pub open spec fn link_place(
    kind: ModKind,
    mods: Seq<Seq<char>>,
    overrides: Seq<Seq<char>>,
    name: Seq<char>,
) -> Seq<Seq<char>> {
    match kind {
        ModKind::Lua => child(mods, name),
        ModKind::Override => child(overrides, name),
    }
}

/// Where a provider comes from.
#[derive(Debug, Clone, Copy, PartialEq, Eq, Structural)]
pub enum ProviderSource {
    /// It is part of the manager.
    Core,
    /// A plugin brought it.
    Plugin,
}

/// How a game is shown.
pub struct GameMetadata {
    pub id: String,
    pub display_name: String,
    pub short_name: String,
    /// The address of the game's icon.
    pub icon: String,
    pub provider_source: ProviderSource,
}

/// The provider for PAYDAY 2.
pub struct Payday2Provider;

/// Whether `name` can name a file or directory.
fn plain_name(name: &str) -> (plain: bool)
    ensures
        plain == is_plain_name(name@),
{
    let n = name.unicode_len();
    if n == 0 {
        false
    } else if n == 1 {
        let plain = name.get_char(0) != '.';
        assert(plain == (name@ != seq!['.'])) by {
            if !plain {
                assert(name@ =~= seq!['.']);
            }
        }
        plain
    } else if n == 2 {
        let plain = !(name.get_char(0) == '.' && name.get_char(1) == '.');
        assert(plain == (name@ != seq!['.', '.'])) by {
            if !plain {
                assert(name@ =~= seq!['.', '.']);
            }
        }
        plain
    } else {
        true
    }
}

/// A file's name without its extension.
fn stem_of(name: &str) -> (stem: &str)
    ensures
        stem@ == file_stem(name@),
{
    let n = name.unicode_len();
    let mut i: usize = n;
    assert(name@.subrange(0, n as int) =~= name@);
    while i > 0
        invariant
            i <= n,
            n == name@.len(),
            last_dot(name@) == last_dot(name@.subrange(0, i as int)),
        decreases i,
    {
        let ghost head = name@.subrange(0, i as int);
        assert(head.last() == name@[i - 1]);
        assert(head.drop_last() =~= name@.subrange(0, i - 1));
        if name.get_char(i - 1) == '.' {
            if i - 1 > 0 {
                return name.substring_char(0, i - 1);
            } else {
                return name;
            }
        }
        i -= 1;
    }
    name
}

impl Payday2Provider {
    pub fn new() -> (provider: Self) {
        Payday2Provider
    }

    /// The identity under which this provider is registered.
    pub fn id(&self) -> (id: &'static str)
        ensures
            id@ == "core:payday_2"@,
    {
        "core:payday_2"
    }

    /// The provider of the catalogue that lists this game's mods.
    pub fn mod_provider_id(&self) -> (id: &'static str)
        ensures
            id@ == "core:modworkshop"@,
    {
        "core:modworkshop"
    }

    /// The number of this game in the catalogue.
    pub fn get_external_id(&self) -> (id: &'static str)
        ensures
            id@ == "1"@,
    {
        "1"
    }

    /// How the game is shown.
    pub fn metadata(&self) -> (shown: GameMetadata)
        ensures
            shown.id@ == "core:payday_2"@,
            shown.display_name@ == "PAYDAY 2"@,
            shown.short_name@ == "PD2"@,
            shown.icon@
                == "https://cdn2.steamgriddb.com/icon/fa6d3cc166fbfbf005c9e77d96cba283/32/256x256.png"@,
            shown.provider_source == ProviderSource::Core,
    {
        GameMetadata {
            id: self.id().to_owned(),
            display_name: "PAYDAY 2".to_owned(),
            short_name: "PD2".to_owned(),
            icon: "https://cdn2.steamgriddb.com/icon/fa6d3cc166fbfbf005c9e77d96cba283/32/256x256.png".to_owned(),
            provider_source: ProviderSource::Core,
        }
    }

    /// Begins the install of the archive at `target`: the machine that comes
    /// back asks for each step in turn.
    pub fn install_mod(&self, target: FsPath) -> (install: Install)
        ensures
            install@ == InstallView::begin(target@),
    {
        Install::begin(target)
    }

    /// The number of this game in the Steam library.
    pub fn steam_app_id(&self) -> (id: u32)
        ensures
            id == 218_620,
    {
        218_620
    }

    /// The game's folder for script mods: `mods` in the install base.
    pub fn mods_folder(&self, base: &FsPath) -> (folder: FsPath)
        ensures
            folder@ == mods_dir(base@),
    {
        base.join("mods")
    }

    /// The game's folder for replaced assets: `assets/mod_overrides` in the
    /// install base.
    pub fn overrides_folder(&self, base: &FsPath) -> (folder: FsPath)
        ensures
            folder@ == overrides_dir(base@),
    {
        base.join("assets").join("mod_overrides")
    }

    /// Tells scripts from replaced assets by the number of `.lua` files.
    pub fn classify(info: &ArchiveInfo) -> (kind: ModKind)
        ensures
            kind == kind_of(info@),
    {
        if info.count_ext("lua") > 1 {
            ModKind::Lua
        } else {
            ModKind::Override
        }
    }

    /// The name under which the archive at `archive` is installed, given the
    /// metadata that its inspection gave.
    pub fn derive_name(info: &ArchiveInfo, archive: &FsPath) -> (name: Option<String>)
        ensures
            name.deep_view() == derived_name(info@.single_top_level_dir(), archive@),
    {
        if let Some(top) = info.single_top_level_dir() {
            if plain_name(top.as_str()) {
                return Some(top);
            }
        }
        match archive.file_name() {
            Some(file) => {
                if plain_name(file) {
                    let stem = stem_of(file);
                    if plain_name(stem) {
                        return Some(stem.to_owned());
                    }
                }
                None
            },
            None => None,
        }
    }

    /// Where the extracted content of the mod `name` is kept, below the
    /// machine's data directory.
    pub fn extracted_root(&self, data_dir: &FsPath, name: &str) -> (dir: FsPath)
        ensures
            dir@ == extracted_dir(data_dir@, name@),
    {
        data_dir.join("me.ghoul.void_mod_manager").join("mods").join("extracted").join(
            self.id(),
        ).join(name)
    }

    /// Where a mod is extracted to before it takes its place.
    pub fn staging_path(extracted: &FsPath) -> (dir: FsPath)
        ensures
            dir@ == staging_dir(extracted@),
    {
        extracted.with_suffix(".staging")
    }

    /// The directory that a mod's link points at; `candidate_is_dir` says
    /// whether the archive's top-level directory is a directory inside
    /// `extracted`.
    pub fn resolve_root(top: Option<&str>, extracted: &FsPath, candidate_is_dir: bool) -> (root:
        FsPath)
        ensures
            root@ == content_root(top.deep_view(), extracted@, candidate_is_dir),
    {
        match top {
            Some(dir) => {
                if candidate_is_dir {
                    extracted.join(dir)
                } else {
                    extracted.clone()
                }
            },
            None => extracted.clone(),
        }
    }

    /// Where the link of the mod `name` is made.
    pub fn link_path(kind: ModKind, mods: &FsPath, overrides: &FsPath, name: &str) -> (link:
        FsPath)
        ensures
            link@ == link_place(kind, mods@, overrides@, name@),
    {
        match kind {
            ModKind::Lua => mods.join(name),
            ModKind::Override => overrides.join(name),
        }
    }
}

} // verus!
