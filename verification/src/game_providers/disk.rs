//! A model of the disk that an install works on, and of how the platform
//! answers the machine's requests.
//!
//! Nothing here runs. The model is what the laws of an install are stated
//! over: it says what each request does to the disk when it goes through,
//! and what is left when it fails. Each operation is taken to be all or
//! nothing, with one exception: an extraction that fails leaves a partial tree
//! where it was extracting to. The disk is a map from paths to what stands
//! there; an operation changes the entry of the path it names and no other.

use vstd::prelude::*;
use crate::archive::ArchiveInfoView;
use crate::errors::InstallErrorView;
use crate::game_providers::install::{rank, InstallView, Phase, ReplyView, RequestView};

verus! {

/// What an archive file holds, as far as an install depends on it.
pub struct Archive {
    /// The metadata that inspecting or extracting it gives.
    pub info: ArchiveInfoView,
    /// Whether the name with which all its entries start, if there is one,
    /// is that of a directory (and not of its only file).
    pub top_is_dir: bool,
}

/// What stands at a path.
pub enum Node {
    /// A directory that no archive was extracted into.
    Dir,
    /// What the extraction of `archive` wrote; `whole` says whether the
    /// extraction ran to its end.
    Tree { archive: Archive, whole: bool },
    /// A link to `target`.
    Link { target: Seq<Seq<char>> },
}

/// The disk: what stands at each path at which something stands.
pub type Disk = Map<Seq<Seq<char>>, Node>;

/// Whether `path` is a directory: a directory or an extracted tree stands
/// there, or it is the top-level directory of the whole tree that stands at
/// its parent.
pub open spec fn is_dir(disk: Disk, path: Seq<Seq<char>>) -> bool {
    ||| disk.dom().contains(path) && !(disk[path] is Link)
    ||| path.len() > 0 && disk.dom().contains(path.drop_last()) && (disk[path.drop_last()]
        matches Node::Tree { archive, whole } && whole && archive.top_is_dir
        && archive.info.single_top_level_dir() == Some(path.last()))
}

/// The machine outside the library: where things are, what the archive holds,
/// and which requests fail.
pub struct World {
    /// Where the game is installed, if it is.
    pub base: Option<Seq<Seq<char>>>,
    /// The machine's directory for application data, if it has one.
    pub data_dir: Option<Seq<Seq<char>>>,
    /// What the archive file holds.
    pub archive: Archive,
    /// The requests that fail.
    pub faults: Set<RequestView>,
    /// The words that the platform has for a failure.
    pub cause: Seq<char>,
}

impl World {
    /// The disk after `request` was carried out on `disk`, and the reply to
    /// it.
    pub open spec fn respond(self, disk: Disk, request: RequestView) -> (Disk, ReplyView) {
        let failed = self.faults.contains(request);
        match request {
            RequestView::LocateInstallBase => (disk, ReplyView::Located(self.base)),
            RequestView::LocateDataDir => (disk, ReplyView::Located(self.data_dir)),
            RequestView::EnsureDir { path } => if failed {
                (disk, ReplyView::Done(Err(self.cause)))
            } else if disk.dom().contains(path) {
                (disk, ReplyView::Done(Ok(())))
            } else {
                (disk.insert(path, Node::Dir), ReplyView::Done(Ok(())))
            },
            RequestView::InspectArchive { archive } => if failed {
                (disk, ReplyView::Info(Err(self.cause)))
            } else {
                (disk, ReplyView::Info(Ok(self.archive.info)))
            },
            RequestView::ProbeExists { path } => (disk, ReplyView::Flag(disk.dom().contains(path))),
            RequestView::RemoveDirAll { path } => if failed {
                (disk, ReplyView::Done(Err(self.cause)))
            } else {
                (disk.remove(path), ReplyView::Done(Ok(())))
            },
            RequestView::ExtractArchive { archive, dest } => if failed {
                (
                    disk.insert(dest, Node::Tree { archive: self.archive, whole: false }),
                    ReplyView::Info(Err(self.cause)),
                )
            } else {
                (
                    disk.insert(dest, Node::Tree { archive: self.archive, whole: true }),
                    ReplyView::Info(Ok(self.archive.info)),
                )
            },
            RequestView::Rename { from, to } => if failed || !disk.dom().contains(from) {
                (disk, ReplyView::Done(Err(self.cause)))
            } else {
                (disk.remove(from).insert(to, disk[from]), ReplyView::Done(Ok(())))
            },
            RequestView::ProbeIsDir { path } => (disk, ReplyView::Flag(is_dir(disk, path))),
            RequestView::ReplaceSymlink { target, link } => if failed {
                (disk, ReplyView::Done(Err(self.cause)))
            } else {
                (disk.insert(link, Node::Link { target }), ReplyView::Done(Ok(())))
            },
            RequestView::Discard { path } => if failed {
                (disk, ReplyView::Done(Ok(())))
            } else {
                (disk.remove(path), ReplyView::Done(Ok(())))
            },
            RequestView::Finished { outcome } => (disk, ReplyView::Done(Ok(()))),
        }
    }
}

/// Every reply takes an install that is not over to a later phase.
pub(crate) proof fn lemma_advance_goes_on(install: InstallView, reply: ReplyView)
    requires
        install.phase != Phase::Finished,
    ensures
        rank(install.advance(reply).phase) > rank(install.phase),
{
}

/// The disk and the state in which the install `install`, driven on `disk` in
/// the world `world`, comes to its end.
pub open spec fn run(install: InstallView, disk: Disk, world: World) -> (Disk, InstallView)
    decreases 14 - rank(install.phase),
{
    if install.phase == Phase::Finished {
        (disk, install)
    } else {
        let (next_disk, reply) = world.respond(disk, install.request());
        run(install.advance(reply), next_disk, world)
    }
}

/// The outcome of a finished install.
pub open spec fn outcome(install: InstallView) -> Result<(), InstallErrorView> {
    match install.failure {
        Some(error) => Err(error),
        None => Ok(()),
    }
}

/// An install comes to its end, whatever the world does.
pub proof fn law_install_finishes(install: InstallView, disk: Disk, world: World)
    ensures
        run(install, disk, world).1.phase == Phase::Finished,
    decreases 14 - rank(install.phase),
{
    if install.phase != Phase::Finished {
        let (next_disk, reply) = world.respond(disk, install.request());
        lemma_advance_goes_on(install, reply);
        law_install_finishes(install.advance(reply), next_disk, world);
    }
}

} // verus!
