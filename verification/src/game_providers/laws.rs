//! What holds of every install, stated over the model of the disk.

use vstd::prelude::*;
use crate::archive::ArchiveInfoView;
use crate::errors::InstallErrorView;
use crate::helper::staging::GuardView;
use crate::game_providers::disk::{
    is_dir,
    lemma_advance_goes_on,
    outcome,
    run,
    Disk,
    Node,
    World,
};
use crate::game_providers::install::{rank, InstallView, Phase, ReplyView, RequestView};
use crate::game_providers::payday2::{
    content_root,
    derived_name,
    extracted_dir,
    kind_of,
    link_place,
    mods_dir,
    overrides_dir,
    staging_dir,
    ModKind,
};
use crate::paths::child;

verus! {

/// The names of the provider's folders are different names.
proof fn lemma_folder_names_differ()
    ensures
        "core:payday_2"@ != "mods"@,
        "core:payday_2"@ != "mod_overrides"@,
        "core:payday_2"@ != "assets"@,
        "assets"@ != "mods"@,
        "assets"@ != "mod_overrides"@,
        "mods"@ != "mod_overrides"@,
{
    reveal_strlit("core:payday_2");
    reveal_strlit("mods");
    reveal_strlit("mod_overrides");
    reveal_strlit("assets");
    assert("core:payday_2"@[0] == 'c');
    assert("mod_overrides"@[0] == 'm');
    assert("assets"@[0] == 'a');
    assert("mods"@[0] == 'm');
    assert("mods"@.len() == 4);
    assert("mod_overrides"@.len() == 13);
}

/// No name with `.staging` at its end is the name itself, nor the name of one
/// of the game's folders.
proof fn lemma_staging_name_is_new(name: Seq<char>)
    ensures
        name + ".staging"@ != name,
        name + ".staging"@ != "mods"@,
        name + ".staging"@ != "mod_overrides"@,
{
    reveal_strlit(".staging");
    reveal_strlit("mods");
    reveal_strlit("mod_overrides");
    let staged = name + ".staging"@;
    assert(staged.len() == name.len() + 8);
    assert(staged[staged.len() - 1] == 'g');
    assert("mod_overrides"@[12] == 's');
}

/// The staging directory is a sibling of the extracted directory, and never
/// the extracted directory itself.
pub proof fn law_staging_is_a_distinct_sibling(data_dir: Seq<Seq<char>>, name: Seq<char>)
    ensures
        ({
            let permanent = extracted_dir(data_dir, name);
            let staging = staging_dir(permanent);
            &&& staging != permanent
            &&& staging.len() == permanent.len()
            &&& staging.drop_last() == permanent.drop_last()
            &&& staging.last() == name + ".staging"@
        }),
{
    lemma_staging_name_is_new(name);
    let permanent = extracted_dir(data_dir, name);
    let staging = staging_dir(permanent);
    assert(permanent.last() == name);
    assert(staging.last() == name + ".staging"@);
}

/// Where the game is not found, the install ends at once with
/// `MissingTarget`, and the disk is as it was.
pub proof fn law_missing_target_changes_nothing(
    world: World,
    archive: Seq<Seq<char>>,
    disk: Disk,
)
    requires
        world.base is None,
    ensures
        InstallView::begin(archive).request() == RequestView::LocateInstallBase,
        InstallView::begin(archive).advance(ReplyView::Located(None)).request()
            == (RequestView::Finished { outcome: Err(InstallErrorView::MissingTarget) }),
        run(InstallView::begin(archive), disk, world).0 == disk,
        outcome(run(InstallView::begin(archive), disk, world).1) == Err::<(), InstallErrorView>(
            InstallErrorView::MissingTarget,
        ),
{
    reveal_with_fuel(run, 3);
}

/// An install begins in a state that it can be in, and every reply takes such
/// a state to another.
pub proof fn law_states_stay_well_formed(install: InstallView, reply: ReplyView)
    requires
        install.wf(),
    ensures
        InstallView::begin(install.archive).wf(),
        install.advance(reply).wf(),
{
    let next = install.advance(reply);
    if install.phase is LocatingData {
        if let ReplyView::Located(Some(data_dir)) = reply {
            let permanent = extracted_dir(data_dir, install.name);
            assert(permanent.last() == install.name);
            assert(permanent[permanent.len() - 2] == "core:payday_2"@);
        }
    }
    if install.phase is LocatingGame {
        if let ReplyView::Located(Some(base)) = reply {
            assert(next.mods.last() == "mods"@);
            assert(next.overrides.last() == "mod_overrides"@);
            assert(next.overrides[next.overrides.len() - 2] == "assets"@);
        }
    }
}

/// The move of the staging directory into its place commits the guard: from
/// then on no removal is owed, whatever happens.
pub proof fn law_promotion_commits(install: InstallView)
    requires
        install.wf(),
        install.phase is Promoting,
    ensures
        ({
            let next = install.advance(ReplyView::Done(Ok(())));
            &&& next.promoted()
            &&& !next.armed()
            &&& next.guard matches Some(guard) && guard.committed && guard.owed_removal() is None
            &&& next.permanent == install.permanent
        }),
{
}

/// After the move, the install asks only for a probe or for the link, which
/// is not made at the extracted directory; and whatever the reply, it stays
/// so until it is over. A failure ends it at once: nothing is discarded.
pub proof fn law_nothing_is_removed_after_promotion(install: InstallView, reply: ReplyView)
    requires
        install.wf(),
        install.promoted(),
    ensures
        install.request() is ProbeIsDir || install.request() is ReplaceSymlink,
        install.request() matches RequestView::ReplaceSymlink { link, .. } ==> link
            != install.permanent && link != install.staging(),
        install.advance(reply).promoted() || install.advance(reply).phase is Finished,
        install.advance(reply).permanent == install.permanent,
        !install.advance(reply).armed(),
{
    lemma_folder_names_differ();
    let link = install.link();
    assert(link[link.len() - 2] == "mods"@ || link[link.len() - 2] == "mod_overrides"@);
    let staging = install.staging();
    assert(staging == staging_dir(install.permanent));
    assert(staging[staging.len() - 2] == "core:payday_2"@);
}

/// Once the staging directory has been moved into its place, what stands at
/// the extracted directory is not touched again, whichever of the later
/// requests fail.
pub proof fn law_promoted_content_is_kept(install: InstallView, disk: Disk, world: World)
    requires
        install.wf(),
        install.promoted(),
    ensures
        ({
            let end = run(install, disk, world);
            &&& end.0.dom().contains(install.permanent) == disk.dom().contains(install.permanent)
            &&& end.0[install.permanent] == disk[install.permanent]
        }),
{
    reveal_with_fuel(run, 4);
    let (disk1, reply1) = world.respond(disk, install.request());
    let next = install.advance(reply1);
    law_nothing_is_removed_after_promotion(install, reply1);
    law_states_stay_well_formed(install, reply1);
    if next.promoted() {
        let (disk2, reply2) = world.respond(disk1, next.request());
        law_nothing_is_removed_after_promotion(next, reply2);
        assert(next.phase is Linking);
    }
}

/// Archives with the same number of `.lua` files are of the same kind: two
/// such files or more make scripts, none or one replaced assets.
pub proof fn law_kind_follows_the_script_count(
    first: ArchiveInfoView,
    second: ArchiveInfoView,
)
    ensures
        first.count_ext("lua"@) == second.count_ext("lua"@) ==> kind_of(first) == kind_of(second),
        first.count_ext("lua"@) >= 2 ==> kind_of(first) == ModKind::Lua,
        first.count_ext("lua"@) <= 1 ==> kind_of(first) == ModKind::Override,
{
}

/// An archive without a single top-level directory is linked at its
/// extracted directory itself: the install goes from the move straight to the
/// link, and the link's target is the extracted directory. So is an archive
/// whose top-level name is no directory there.
pub proof fn law_root_falls_back_to_the_extracted_directory(
    install: InstallView,
    extracted: Seq<Seq<char>>,
    top: Option<Seq<char>>,
)
    requires
        install.phase is Promoting,
    ensures
        content_root(None, extracted, true) == extracted,
        content_root(None, extracted, false) == extracted,
        content_root(top, extracted, false) == extracted,
        install.top is None ==> install.advance(ReplyView::Done(Ok(()))).request() == (
        RequestView::ReplaceSymlink { target: install.permanent, link: install.link() }),
{
}

/// The places that the install of one archive goes through in a world where
/// the game, the data directory and the mod's name are all to be had.
pub struct Layout {
    pub name: Seq<char>,
    pub mods: Seq<Seq<char>>,
    pub overrides: Seq<Seq<char>>,
    pub permanent: Seq<Seq<char>>,
    pub staging: Seq<Seq<char>>,
    pub kind: ModKind,
    pub top: Option<Seq<char>>,
    pub candidate: Seq<Seq<char>>,
    pub link: Seq<Seq<char>>,
}

/// Whether the install of `archive` can find all it needs: the game, the data
/// directory and a name for the mod.
pub open spec fn installable(world: World, archive: Seq<Seq<char>>) -> bool {
    &&& world.base is Some
    &&& world.data_dir is Some
    &&& derived_name(world.archive.info.single_top_level_dir(), archive) is Some
}

/// The places of the install of `archive` in `world`.
pub open spec fn layout(world: World, archive: Seq<Seq<char>>) -> Layout
    recommends
        installable(world, archive),
{
    let name = derived_name(world.archive.info.single_top_level_dir(), archive)->0;
    let mods = mods_dir(world.base->0);
    let overrides = overrides_dir(world.base->0);
    let permanent = extracted_dir(world.data_dir->0, name);
    let kind = kind_of(world.archive.info);
    let top = world.archive.info.single_top_level_dir();
    Layout {
        name,
        mods,
        overrides,
        permanent,
        staging: staging_dir(permanent),
        kind,
        top,
        candidate: match top {
            Some(dir) => child(permanent, dir),
            None => permanent,
        },
        link: link_place(kind, mods, overrides, name),
    }
}

/// The tree that the extraction of the world's archive leaves when it goes
/// through.
pub open spec fn whole_tree(world: World) -> Node {
    Node::Tree { archive: world.archive, whole: true }
}

/// `disk` with a directory at `path`, unless something stands there.
pub open spec fn ensured(disk: Disk, path: Seq<Seq<char>>) -> Disk {
    if disk.dom().contains(path) {
        disk
    } else {
        disk.insert(path, Node::Dir)
    }
}

/// The state in which the staging directory has just been taken.
spec fn state_prepared(world: World, archive: Seq<Seq<char>>) -> InstallView {
    let places = layout(world, archive);
    InstallView {
        phase: Phase::ProbingStaging,
        mods: places.mods,
        overrides: places.overrides,
        name: places.name,
        permanent: places.permanent,
        guard: Some(GuardView { path: places.staging, committed: false }),
        ..InstallView::begin(archive)
    }
}

/// The state in which the archive has just been extracted.
spec fn state_staged(world: World, archive: Seq<Seq<char>>) -> InstallView {
    let places = layout(world, archive);
    InstallView {
        phase: Phase::ProbingPrevious,
        kind: places.kind,
        top: places.top,
        ..state_prepared(world, archive)
    }
}

/// The state in which the link is about to be made, to `root`.
spec fn state_linking(world: World, archive: Seq<Seq<char>>, root: Seq<Seq<char>>)
    -> InstallView {
    let places = layout(world, archive);
    InstallView {
        phase: Phase::Linking,
        guard: Some(GuardView { path: places.staging, committed: true }),
        root,
        ..state_staged(world, archive)
    }
}

/// The places of an install are different places: the staging directory is
/// not the extracted directory, and neither of them is one of the game's
/// folders for links, a link, or the folder for replaced assets.
proof fn lemma_places_differ(world: World, archive: Seq<Seq<char>>)
    requires
        installable(world, archive),
    ensures
        ({
            let places = layout(world, archive);
            let mods_link = child(places.mods, places.name);
            let overrides_link = child(places.overrides, places.name);
            &&& places.staging != places.permanent
            &&& places.staging != places.mods
            &&& places.staging != places.overrides
            &&& places.staging != mods_link
            &&& places.staging != overrides_link
            &&& places.staging != places.candidate
            &&& places.permanent != places.overrides
            &&& places.permanent != mods_link
            &&& places.permanent != overrides_link
            &&& places.link == mods_link || places.link == overrides_link
            &&& mods_link != places.mods
            &&& mods_link != places.overrides
            &&& overrides_link != places.mods
            &&& overrides_link != places.overrides
            &&& places.top is Some ==> places.candidate != places.permanent
        }),
{
    let places = layout(world, archive);
    let mods_link = child(places.mods, places.name);
    let overrides_link = child(places.overrides, places.name);
    lemma_folder_names_differ();
    lemma_staging_name_is_new(places.name);
    let permanent = places.permanent;
    let staging = places.staging;
    assert(permanent.last() == places.name);
    assert(permanent[permanent.len() - 2] == "core:payday_2"@);
    assert(staging.last() == places.name + ".staging"@);
    assert(staging[staging.len() - 2] == "core:payday_2"@);
    assert(places.mods.last() == "mods"@);
    assert(places.overrides.last() == "mod_overrides"@);
    assert(places.overrides[places.overrides.len() - 2] == "assets"@);
    assert(mods_link[mods_link.len() - 2] == "mods"@);
    assert(overrides_link[overrides_link.len() - 2] == "mod_overrides"@);
    assert(overrides_link[overrides_link.len() - 3] == "assets"@);
    if places.top is Some {
        assert(places.candidate.drop_last() =~= permanent);
    }
}

/// Up to the taking of the staging directory an install makes sure of the
/// game's two folders and changes nothing else.
proof fn lemma_prepare(world: World, archive: Seq<Seq<char>>, disk: Disk)
    requires
        installable(world, archive),
        !world.faults.contains(RequestView::EnsureDir { path: layout(world, archive).mods }),
        !world.faults.contains(RequestView::EnsureDir { path: layout(world, archive).overrides }),
        !world.faults.contains(RequestView::InspectArchive { archive }),
    ensures
        run(InstallView::begin(archive), disk, world) == run(
            state_prepared(world, archive),
            ensured(ensured(disk, layout(world, archive).mods), layout(world, archive).overrides),
            world,
        ),
{
    reveal_with_fuel(run, 6);
}

/// From the taking of the staging directory to the end of a successful
/// extraction: the staging directory holds the whole tree and nothing else
/// has changed.
proof fn lemma_stage(world: World, archive: Seq<Seq<char>>, disk: Disk)
    requires
        installable(world, archive),
        !world.faults.contains(RequestView::RemoveDirAll { path: layout(world, archive).staging }),
        !world.faults.contains(
            RequestView::ExtractArchive { archive, dest: layout(world, archive).staging },
        ),
    ensures
        run(state_prepared(world, archive), disk, world) == run(
            state_staged(world, archive),
            disk.insert(layout(world, archive).staging, whole_tree(world)),
            world,
        ),
{
    reveal_with_fuel(run, 4);
    let staging = layout(world, archive).staging;
    assert(disk.remove(staging).insert(staging, whole_tree(world)) =~= disk.insert(
        staging,
        whole_tree(world),
    ));
}

/// The disk after the staging directory of `disk` has been moved into its
/// place.
pub open spec fn promoted_disk(world: World, archive: Seq<Seq<char>>, disk: Disk) -> Disk {
    let places = layout(world, archive);
    disk.remove(places.staging).insert(places.permanent, whole_tree(world))
}

/// The directory that the link is pointed at when the probe is made on
/// `disk`.
pub open spec fn root_on(world: World, archive: Seq<Seq<char>>, disk: Disk) -> Seq<Seq<char>> {
    let places = layout(world, archive);
    content_root(places.top, places.permanent, is_dir(disk, places.candidate))
}

/// From a successful extraction to the end, where nothing fails: the tree
/// has been moved from the staging directory to the extracted directory, and
/// the link points at the content root.
proof fn lemma_promote_and_link(world: World, archive: Seq<Seq<char>>, disk: Disk)
    requires
        installable(world, archive),
        disk.dom().contains(layout(world, archive).staging),
        disk[layout(world, archive).staging] == whole_tree(world),
        !world.faults.contains(
            RequestView::RemoveDirAll { path: layout(world, archive).permanent },
        ),
        !world.faults.contains(
            RequestView::Rename {
                from: layout(world, archive).staging,
                to: layout(world, archive).permanent,
            },
        ),
        !world.faults.contains(
            RequestView::ReplaceSymlink {
                target: root_on(world, archive, promoted_disk(world, archive, disk)),
                link: layout(world, archive).link,
            },
        ),
    ensures
        ({
            let places = layout(world, archive);
            let promoted = promoted_disk(world, archive, disk);
            let root = root_on(world, archive, promoted);
            run(state_staged(world, archive), disk, world) == (
                promoted.insert(places.link, Node::Link { target: root }),
                InstallView { phase: Phase::Finished, ..state_linking(world, archive, root) },
            )
        }),
{
    reveal_with_fuel(run, 6);
    lemma_places_differ(world, archive);
    let places = layout(world, archive);
    let promoted = promoted_disk(world, archive, disk);
    assert(disk.remove(places.permanent).remove(places.staging).insert(
        places.permanent,
        whole_tree(world),
    ) =~= promoted);
}

/// Where nothing fails, an install succeeds; the extracted directory then
/// holds the whole tree, the link points at the content root, and no staging
/// directory is left.
pub proof fn law_install_activates(world: World, archive: Seq<Seq<char>>, disk: Disk)
    requires
        installable(world, archive),
        world.faults == Set::<RequestView>::empty(),
    ensures
        ({
            let places = layout(world, archive);
            let end = run(InstallView::begin(archive), disk, world);
            &&& outcome(end.1) is Ok
            &&& !end.0.dom().contains(places.staging)
            &&& end.0.dom().contains(places.permanent)
            &&& end.0[places.permanent] == whole_tree(world)
            &&& end.0.dom().contains(places.link)
            &&& end.0[places.link] matches Node::Link { target } && (target == places.permanent
                || (places.top is Some && target == places.candidate))
            &&& places.candidate != places.link ==> end.0[places.link] == (Node::Link {
                target: content_root(places.top, places.permanent, is_dir(end.0, places.candidate)),
            })
            &&& end.0 == final_disk(world, archive, disk)
        }),
{
    let places = layout(world, archive);
    lemma_places_differ(world, archive);
    lemma_prepare(world, archive, disk);
    let prepared = ensured(ensured(disk, places.mods), places.overrides);
    lemma_stage(world, archive, prepared);
    let staged = prepared.insert(places.staging, whole_tree(world));
    lemma_promote_and_link(world, archive, staged);
    let promoted = promoted_disk(world, archive, staged);
    let root = root_on(world, archive, promoted);
    let end = run(InstallView::begin(archive), disk, world);
    assert(end.0 == promoted.insert(places.link, Node::Link { target: root }));
    if places.top is Some && places.candidate != places.link {
        lemma_probe_ignores_the_link(world, archive, promoted, root);
    }
}

/// The disk after a faultless install on `disk`.
pub open spec fn final_disk(world: World, archive: Seq<Seq<char>>, disk: Disk) -> Disk {
    let places = layout(world, archive);
    let staged = ensured(ensured(disk, places.mods), places.overrides).insert(
        places.staging,
        whole_tree(world),
    );
    let promoted = promoted_disk(world, archive, staged);
    promoted.insert(places.link, Node::Link { target: root_on(world, archive, promoted) })
}

/// Whether the top-level directory is a directory does not depend on the
/// link, as long as the link is not made at that very path.
proof fn lemma_probe_ignores_the_link(
    world: World,
    archive: Seq<Seq<char>>,
    disk: Disk,
    target: Seq<Seq<char>>,
)
    requires
        installable(world, archive),
        layout(world, archive).top is Some,
        layout(world, archive).candidate != layout(world, archive).link,
    ensures
        is_dir(
            disk.insert(layout(world, archive).link, Node::Link { target }),
            layout(world, archive).candidate,
        ) == is_dir(disk, layout(world, archive).candidate),
{
    let places = layout(world, archive);
    lemma_places_differ(world, archive);
    assert(places.candidate.drop_last() =~= places.permanent);
}

/// Installing the same archive a second time changes nothing: both installs
/// succeed, the disk after the second is the disk after the first (so the
/// link has the same target), and neither leaves a staging directory.
///
/// This is stated of worlds in which the link is not made at the very path
/// of the archive's top-level directory inside the extracted directory.
pub proof fn law_reinstall_changes_nothing(world: World, archive: Seq<Seq<char>>, disk: Disk)
    requires
        installable(world, archive),
        world.faults == Set::<RequestView>::empty(),
        layout(world, archive).candidate != layout(world, archive).link,
    ensures
        ({
            let places = layout(world, archive);
            let first = run(InstallView::begin(archive), disk, world);
            let second = run(InstallView::begin(archive), first.0, world);
            &&& outcome(first.1) is Ok
            &&& outcome(second.1) is Ok
            &&& second.0 == first.0
            &&& first.0[places.link] is Link
            &&& second.0[places.link] == first.0[places.link]
            &&& !first.0.dom().contains(places.staging)
            &&& !second.0.dom().contains(places.staging)
        }),
{
    let places = layout(world, archive);
    lemma_places_differ(world, archive);
    law_install_activates(world, archive, disk);
    let first = run(InstallView::begin(archive), disk, world).0;
    law_install_activates(world, archive, first);
    let second = run(InstallView::begin(archive), first, world).0;
    // The first install, step by step.
    let staged1 = ensured(ensured(disk, places.mods), places.overrides).insert(
        places.staging,
        whole_tree(world),
    );
    let promoted1 = promoted_disk(world, archive, staged1);
    let root1 = root_on(world, archive, promoted1);
    assert(first == promoted1.insert(places.link, Node::Link { target: root1 }));
    // The second finds the folders there, and puts the same tree in place.
    assert(ensured(ensured(first, places.mods), places.overrides) == first);
    let staged2 = first.insert(places.staging, whole_tree(world));
    let promoted2 = promoted_disk(world, archive, staged2);
    assert(promoted2 =~= first);
    if places.top is Some {
        lemma_probe_ignores_the_link(world, archive, promoted1, root1);
    }
    assert(root_on(world, archive, promoted2) == root1);
    assert(second =~= first);
}

/// Where the extraction fails (and the removal of what it left goes through),
/// the install fails with the extraction's error, no staging directory is
/// left, and what stands at the extracted directory and at the two places for
/// the link is what stood there before: the only change is that the game's two
/// folders exist.
///
/// This is stated of worlds in which the game's `mods` folder is not the
/// mod's extracted directory.
pub proof fn law_failed_extraction_is_rolled_back(
    world: World,
    archive: Seq<Seq<char>>,
    disk: Disk,
)
    requires
        installable(world, archive),
        world.faults.contains(
            RequestView::ExtractArchive { archive, dest: layout(world, archive).staging },
        ),
        !world.faults.contains(RequestView::EnsureDir { path: layout(world, archive).mods }),
        !world.faults.contains(RequestView::EnsureDir { path: layout(world, archive).overrides }),
        !world.faults.contains(RequestView::InspectArchive { archive }),
        !world.faults.contains(RequestView::RemoveDirAll { path: layout(world, archive).staging }),
        !world.faults.contains(RequestView::Discard { path: layout(world, archive).staging }),
        layout(world, archive).permanent != layout(world, archive).mods,
    ensures
        ({
            let places = layout(world, archive);
            let mods_link = child(places.mods, places.name);
            let overrides_link = child(places.overrides, places.name);
            let end = run(InstallView::begin(archive), disk, world);
            &&& outcome(end.1) == Err::<(), InstallErrorView>(
                InstallErrorView::io("extract zip"@, world.cause),
            )
            &&& !end.0.dom().contains(places.staging)
            &&& end.0 == ensured(ensured(disk, places.mods), places.overrides).remove(
                places.staging,
            )
            &&& end.0.dom().contains(places.permanent) == disk.dom().contains(places.permanent)
            &&& end.0[places.permanent] == disk[places.permanent]
            &&& end.0.dom().contains(mods_link) == disk.dom().contains(mods_link)
            &&& end.0[mods_link] == disk[mods_link]
            &&& end.0.dom().contains(overrides_link) == disk.dom().contains(overrides_link)
            &&& end.0[overrides_link] == disk[overrides_link]
        }),
{
    let places = layout(world, archive);
    lemma_places_differ(world, archive);
    lemma_prepare(world, archive, disk);
    let prepared = ensured(ensured(disk, places.mods), places.overrides);
    reveal_with_fuel(run, 5);
    let partial = Node::Tree { archive: world.archive, whole: false };
    assert(prepared.remove(places.staging).insert(places.staging, partial).remove(places.staging)
        =~= prepared.remove(places.staging));
    assert(prepared.insert(places.staging, partial).remove(places.staging) =~= prepared.remove(
        places.staging,
    ));
}

/// Whether a tree stands at `path` whose extraction did not run to its end.
pub open spec fn partial(disk: Disk, path: Seq<Seq<char>>) -> bool {
    disk.dom().contains(path) && (disk[path] matches Node::Tree { whole, .. } && !whole)
}

/// What holds of the state and the disk at every point of an install.
pub open spec fn on_course(
    world: World,
    archive: Seq<Seq<char>>,
    install: InstallView,
    disk: Disk,
) -> bool {
    let places = layout(world, archive);
    &&& install.wf()
    &&& install.archive == archive
    &&& !partial(disk, places.permanent)
    &&& install.phase is LocatingData ==> install.name == places.name
    &&& install.guard is Some ==> install.permanent == places.permanent
    &&& 8 <= rank(install.phase) <= 10 ==> disk.dom().contains(places.staging)
        && disk[places.staging] == whole_tree(world)
}

/// One request and its reply keep an install on course.
proof fn lemma_step_stays_on_course(
    world: World,
    archive: Seq<Seq<char>>,
    install: InstallView,
    disk: Disk,
)
    requires
        installable(world, archive),
        on_course(world, archive, install, disk),
        !(install.phase is Finished),
    ensures
        ({
            let (next_disk, reply) = world.respond(disk, install.request());
            on_course(world, archive, install.advance(reply), next_disk)
        }),
{
    let (next_disk, reply) = world.respond(disk, install.request());
    law_states_stay_well_formed(install, reply);
    lemma_places_differ(world, archive);
}

/// An install that is on course ends on course.
proof fn lemma_run_stays_on_course(
    world: World,
    archive: Seq<Seq<char>>,
    install: InstallView,
    disk: Disk,
)
    requires
        installable(world, archive),
        on_course(world, archive, install, disk),
    ensures
        on_course(
            world,
            archive,
            run(install, disk, world).1,
            run(install, disk, world).0,
        ),
    decreases 14 - rank(install.phase),
{
    if !(install.phase is Finished) {
        let (next_disk, reply) = world.respond(disk, install.request());
        lemma_step_stays_on_course(world, archive, install, disk);
        lemma_advance_goes_on(install, reply);
        lemma_run_stays_on_course(world, archive, install.advance(reply), next_disk);
    }
}

/// Whatever fails, an install never leaves a half-extracted tree at the
/// extracted directory: what stands there afterwards is nothing, what stood
/// there before, or the whole tree.
pub proof fn law_extracted_content_is_never_partial(
    world: World,
    archive: Seq<Seq<char>>,
    disk: Disk,
)
    requires
        installable(world, archive),
        !partial(disk, layout(world, archive).permanent),
    ensures
        !partial(
            run(InstallView::begin(archive), disk, world).0,
            layout(world, archive).permanent,
        ),
{
    lemma_run_stays_on_course(world, archive, InstallView::begin(archive), disk);
}

} // verus!
