//! The install of one archive, as a machine that the caller drives.
//!
//! The machine never touches the disk. It says what has to be done next (a
//! [`Request`]); the caller does it and hands back what came of it (a
//! [`Reply`]); the machine then decides how to go on. An install runs from
//! [`Install::begin`] until the request is [`Request::Finished`].
//!
//! The order is fixed: find the game, make sure that its two mod folders exist,
//! inspect the archive, find the data directory, clear what an interrupted run
//! left in the staging directory, extract into it, clear the copy of an earlier
//! install, move the staging directory into its place, find the content root,
//! and replace the link. The first failure ends the install. Between taking
//! the staging directory and moving it into its place, a failure is followed by
//! the removal of the staging directory; after the move nothing is removed
//! any more.

use vstd::prelude::*;
use crate::archive::{ArchiveInfo, ArchiveInfoView};
use crate::errors::{InstallError, InstallErrorView, InstallResultExt};
use crate::game_providers::laws::law_states_stay_well_formed;
use crate::game_providers::payday2::{
    content_root,
    derived_name,
    extracted_dir,
    kind_of,
    link_place,
    mods_dir,
    overrides_dir,
    staging_dir,
    ModKind,
    Payday2Provider,
};
use crate::helper::staging::{GuardView, StagingGuard};
use crate::paths::{child, FsPath};

verus! {

/// How far an install has come; each phase but the last waits for the reply
/// to one request.
#[derive(Debug, Clone, Copy, PartialEq, Eq, Structural)]
pub enum Phase {
    LocatingGame,
    EnsuringMods,
    EnsuringOverrides,
    Inspecting,
    LocatingData,
    ProbingStaging,
    ClearingStaging,
    Extracting,
    ProbingPrevious,
    ClearingPrevious,
    Promoting,
    ProbingRoot,
    Linking,
    Abandoning,
    Finished,
}

/// The place of a phase in the order of an install.
pub open spec fn rank(phase: Phase) -> nat {
    match phase {
        Phase::LocatingGame => 0,
        Phase::EnsuringMods => 1,
        Phase::EnsuringOverrides => 2,
        Phase::Inspecting => 3,
        Phase::LocatingData => 4,
        Phase::ProbingStaging => 5,
        Phase::ClearingStaging => 6,
        Phase::Extracting => 7,
        Phase::ProbingPrevious => 8,
        Phase::ClearingPrevious => 9,
        Phase::Promoting => 10,
        Phase::ProbingRoot => 11,
        Phase::Linking => 12,
        Phase::Abandoning => 13,
        Phase::Finished => 14,
    }
}

/// What a [`Request`] stands for.
pub enum RequestView {
    LocateInstallBase,
    EnsureDir { path: Seq<Seq<char>> },
    InspectArchive { archive: Seq<Seq<char>> },
    LocateDataDir,
    ProbeExists { path: Seq<Seq<char>> },
    RemoveDirAll { path: Seq<Seq<char>> },
    ExtractArchive { archive: Seq<Seq<char>>, dest: Seq<Seq<char>> },
    Rename { from: Seq<Seq<char>>, to: Seq<Seq<char>> },
    ProbeIsDir { path: Seq<Seq<char>> },
    ReplaceSymlink { target: Seq<Seq<char>>, link: Seq<Seq<char>> },
    Discard { path: Seq<Seq<char>> },
    Finished { outcome: Result<(), InstallErrorView> },
}

/// What the caller has to do next.
pub enum Request {
    /// Find the directory that the game is installed in. Answered by
    /// [`Reply::Located`].
    LocateInstallBase,
    /// Create the directory and its parents unless it exists. Answered by
    /// [`Reply::Done`].
    EnsureDir { path: FsPath },
    /// Read the archive's list of entries. Answered by [`Reply::Info`].
    InspectArchive { archive: FsPath },
    /// Find the machine's directory for application data. Answered by
    /// [`Reply::Located`].
    LocateDataDir,
    /// Say whether anything exists at the path. Answered by [`Reply::Flag`].
    ProbeExists { path: FsPath },
    /// Remove the directory and all that is in it. Answered by
    /// [`Reply::Done`].
    RemoveDirAll { path: FsPath },
    /// Extract the archive into the directory. Answered by [`Reply::Info`].
    ExtractArchive { archive: FsPath, dest: FsPath },
    /// Move the directory `from` to `to`. Answered by [`Reply::Done`].
    Rename { from: FsPath, to: FsPath },
    /// Say whether the path is a directory. Answered by [`Reply::Flag`].
    ProbeIsDir { path: FsPath },
    /// Make `link` a link to the directory `target`, in place of whatever is
    /// at `link`. Answered by [`Reply::Done`].
    ReplaceSymlink { target: FsPath, link: FsPath },
    /// Remove the directory and all that is in it if it exists, and do not
    /// mind a failure. Any reply will do.
    Discard { path: FsPath },
    /// Nothing: the install is over, with this outcome.
    Finished { outcome: Result<(), InstallError> },
}

impl View for Request {
    type V = RequestView;

    open spec fn view(&self) -> RequestView {
        match self {
            Request::LocateInstallBase => RequestView::LocateInstallBase,
            Request::EnsureDir { path } => RequestView::EnsureDir { path: path@ },
            Request::InspectArchive { archive } => RequestView::InspectArchive {
                archive: archive@,
            },
            Request::LocateDataDir => RequestView::LocateDataDir,
            Request::ProbeExists { path } => RequestView::ProbeExists { path: path@ },
            Request::RemoveDirAll { path } => RequestView::RemoveDirAll { path: path@ },
            Request::ExtractArchive { archive, dest } => RequestView::ExtractArchive {
                archive: archive@,
                dest: dest@,
            },
            Request::Rename { from, to } => RequestView::Rename { from: from@, to: to@ },
            Request::ProbeIsDir { path } => RequestView::ProbeIsDir { path: path@ },
            Request::ReplaceSymlink { target, link } => RequestView::ReplaceSymlink {
                target: target@,
                link: link@,
            },
            Request::Discard { path } => RequestView::Discard { path: path@ },
            Request::Finished { outcome } => RequestView::Finished {
                outcome: match outcome {
                    Ok(_) => Ok(()),
                    Err(error) => Err(error@),
                },
            },
        }
    }
}

/// What a [`Reply`] stands for.
pub enum ReplyView {
    Located(Option<Seq<Seq<char>>>),
    Done(Result<(), Seq<char>>),
    Info(Result<ArchiveInfoView, Seq<char>>),
    Flag(bool),
}

/// What came of a request. A failure carries the platform's words for it.
pub enum Reply {
    /// The directory that was looked for, if there is one.
    Located(Option<FsPath>),
    /// Whether an operation on the disk went through.
    Done(Result<(), String>),
    /// The archive's metadata, or why it could not be read or extracted.
    Info(Result<ArchiveInfo, String>),
    /// The answer to a probe.
    Flag(bool),
}

impl View for Reply {
    type V = ReplyView;

    open spec fn view(&self) -> ReplyView {
        match self {
            Reply::Located(place) => ReplyView::Located(
                match place {
                    Some(path) => Some(path@),
                    None => None,
                },
            ),
            Reply::Done(result) => ReplyView::Done(
                match result {
                    Ok(_) => Ok(()),
                    Err(cause) => Err(cause@),
                },
            ),
            Reply::Info(result) => ReplyView::Info(
                match result {
                    Ok(info) => Ok(info@),
                    Err(cause) => Err(cause@),
                },
            ),
            Reply::Flag(flag) => ReplyView::Flag(*flag),
        }
    }
}

/// What an [`Install`] stands for. A field holds the empty value until the
/// phase that sets it.
pub struct InstallView {
    pub phase: Phase,
    /// The archive that is installed.
    pub archive: Seq<Seq<char>>,
    /// The game's folder for script mods.
    pub mods: Seq<Seq<char>>,
    /// The game's folder for replaced assets.
    pub overrides: Seq<Seq<char>>,
    /// The name under which the mod is installed.
    pub name: Seq<char>,
    /// Where the mod's extracted content is kept.
    pub permanent: Seq<Seq<char>>,
    /// The guard over the staging directory, once that is taken.
    pub guard: Option<GuardView>,
    /// What the extracted archive holds.
    pub kind: ModKind,
    /// The single top-level directory of the extracted archive.
    pub top: Option<Seq<char>>,
    /// The directory that the link will point at.
    pub root: Seq<Seq<char>>,
    /// Why the install failed, once it has.
    pub failure: Option<InstallErrorView>,
}

/// The cause given for a reply that does not answer the pending request.
pub open spec fn unexpected() -> Seq<char> {
    "unexpected reply"@
}

impl InstallView {
    /// The state in which the install of `archive` begins.
    pub open spec fn begin(archive: Seq<Seq<char>>) -> InstallView {
        InstallView {
            phase: Phase::LocatingGame,
            archive,
            // No place is known yet.
            mods: Seq::empty(),
            overrides: Seq::empty(),
            name: Seq::empty(),
            permanent: Seq::empty(),
            guard: None,
            kind: ModKind::Override,
            top: None,
            root: Seq::empty(),
            failure: None,
        }
    }

    /// The staging directory: the one that the guard is bound to.
    pub open spec fn staging(self) -> Seq<Seq<char>> {
        match self.guard {
            Some(guard) => guard.path,
            None => Seq::empty(),
        }
    }

    /// Whether an uncommitted guard is held, so that the staging directory
    /// is still to be removed on failure.
    pub open spec fn armed(self) -> bool {
        self.guard matches Some(guard) && !guard.committed
    }

    /// Where the mod's link is made.
    pub open spec fn link(self) -> Seq<Seq<char>> {
        link_place(self.kind, self.mods, self.overrides, self.name)
    }

    /// The top-level directory of the archive inside the extracted content.
    pub open spec fn candidate(self) -> Seq<Seq<char>> {
        match self.top {
            Some(top) => child(self.permanent, top),
            None => self.permanent,
        }
    }

    /// The state after the failure `error`: the staging directory is
    /// discarded first where an uncommitted guard is held, else the install is
    /// over.
    pub open spec fn fail(self, error: InstallErrorView) -> InstallView {
        InstallView {
            phase: if self.armed() {
                Phase::Abandoning
            } else {
                Phase::Finished
            },
            failure: Some(error),
            ..self
        }
    }

    /// Whether the game's two folders are known and lie where the provider
    /// puts them.
    pub open spec fn folders_known(self) -> bool {
        &&& self.mods.len() >= 1
        &&& self.mods.last() == "mods"@
        &&& self.overrides.len() >= 2
        &&& self.overrides.last() == "mod_overrides"@
        &&& self.overrides[self.overrides.len() - 2] == "assets"@
    }

    /// Whether the state is one that an install can be in: the guard is held
    /// and uncommitted exactly from the taking of the staging directory to its
    /// move, it is bound to the sibling of the extracted directory, and it is
    /// committed from the move on; the places lie where the provider puts them.
    pub open spec fn wf(self) -> bool {
        &&& self.armed() <==> (5 <= rank(self.phase) <= 10 || self.phase is Abandoning)
        &&& self.promoted() ==> self.guard is Some
        &&& rank(self.phase) <= 4 ==> self.guard is None
        &&& (1 <= rank(self.phase) <= 4 || self.guard is Some) ==> self.folders_known()
        &&& self.guard matches Some(guard) ==> {
            &&& guard.path == staging_dir(self.permanent)
            &&& self.permanent.len() >= 2
            &&& self.permanent.last() == self.name
            &&& self.permanent[self.permanent.len() - 2] == "core:payday_2"@
        }
        &&& self.phase is ProbingRoot ==> self.top is Some
        &&& self.phase is Linking ==> (self.root == self.permanent || self.root
            == self.candidate())
        &&& self.phase is Abandoning ==> self.failure is Some
    }

    /// Whether the staging directory has been moved into its place: the
    /// install is about to find the content root or to make the link.
    pub open spec fn promoted(self) -> bool {
        self.phase is ProbingRoot || self.phase is Linking
    }

    /// The state after a reply that says whether the operation `op` went
    /// through: `next` where it did, the failure of `op` where it did not or
    /// where the reply is of another shape.
    pub open spec fn after_done(self, reply: ReplyView, op: Seq<char>, next: InstallView)
        -> InstallView {
        match reply {
            ReplyView::Done(Ok(_)) => next,
            ReplyView::Done(Err(cause)) => self.fail(InstallErrorView::io(op, cause)),
            _ => self.fail(InstallErrorView::io(op, unexpected())),
        }
    }

    /// The request that this state waits for the reply to.
    pub open spec fn request(self) -> RequestView {
        match self.phase {
            Phase::LocatingGame => RequestView::LocateInstallBase,
            Phase::EnsuringMods => RequestView::EnsureDir { path: self.mods },
            Phase::EnsuringOverrides => RequestView::EnsureDir { path: self.overrides },
            Phase::Inspecting => RequestView::InspectArchive { archive: self.archive },
            Phase::LocatingData => RequestView::LocateDataDir,
            Phase::ProbingStaging => RequestView::ProbeExists { path: self.staging() },
            Phase::ClearingStaging => RequestView::RemoveDirAll { path: self.staging() },
            Phase::Extracting => RequestView::ExtractArchive {
                archive: self.archive,
                dest: self.staging(),
            },
            Phase::ProbingPrevious => RequestView::ProbeExists { path: self.permanent },
            Phase::ClearingPrevious => RequestView::RemoveDirAll { path: self.permanent },
            Phase::Promoting => RequestView::Rename {
                from: self.staging(),
                to: self.permanent,
            },
            Phase::ProbingRoot => RequestView::ProbeIsDir { path: self.candidate() },
            Phase::Linking => RequestView::ReplaceSymlink {
                target: self.root,
                link: self.link(),
            },
            Phase::Abandoning => RequestView::Discard { path: self.staging() },
            Phase::Finished => RequestView::Finished {
                outcome: match self.failure {
                    Some(error) => Err(error),
                    None => Ok(()),
                },
            },
        }
    }

    /// The state after the pending request has been answered by `reply`.
    pub open spec fn advance(self, reply: ReplyView) -> InstallView {
        match self.phase {
            Phase::LocatingGame => match reply {
                ReplyView::Located(Some(base)) => InstallView {
                    phase: Phase::EnsuringMods,
                    mods: mods_dir(base),
                    overrides: overrides_dir(base),
                    ..self
                },
                ReplyView::Located(None) => self.fail(InstallErrorView::MissingTarget),
                _ => self.fail(InstallErrorView::io("locate install base"@, unexpected())),
            },
            Phase::EnsuringMods => self.after_done(
                reply,
                "ensure mods dir"@,
                InstallView { phase: Phase::EnsuringOverrides, ..self },
            ),
            Phase::EnsuringOverrides => self.after_done(
                reply,
                "ensure overrides dir"@,
                InstallView { phase: Phase::Inspecting, ..self },
            ),
            Phase::Inspecting => match reply {
                ReplyView::Info(Ok(info)) => match derived_name(
                    info.single_top_level_dir(),
                    self.archive,
                ) {
                    Some(name) => InstallView { phase: Phase::LocatingData, name, ..self },
                    None => self.fail(InstallErrorView::MalformedArchive),
                },
                ReplyView::Info(Err(cause)) => self.fail(
                    InstallErrorView::io("inspect zip"@, cause),
                ),
                _ => self.fail(InstallErrorView::io("inspect zip"@, unexpected())),
            },
            Phase::LocatingData => match reply {
                ReplyView::Located(Some(data_dir)) => InstallView {
                    phase: Phase::ProbingStaging,
                    permanent: extracted_dir(data_dir, self.name),
                    guard: Some(
                        GuardView {
                            path: staging_dir(extracted_dir(data_dir, self.name)),
                            committed: false,
                        },
                    ),
                    ..self
                },
                ReplyView::Located(None) => self.fail(
                    InstallErrorView::io(
                        "resolve local data dir"@,
                        "Couldn't resolve local data dir"@,
                    ),
                ),
                _ => self.fail(InstallErrorView::io("resolve local data dir"@, unexpected())),
            },
            Phase::ProbingStaging => match reply {
                ReplyView::Flag(true) => InstallView { phase: Phase::ClearingStaging, ..self },
                ReplyView::Flag(false) => InstallView { phase: Phase::Extracting, ..self },
                _ => self.fail(InstallErrorView::io("probe old staging"@, unexpected())),
            },
            Phase::ClearingStaging => self.after_done(
                reply,
                "remove old staging"@,
                InstallView { phase: Phase::Extracting, ..self },
            ),
            Phase::Extracting => match reply {
                ReplyView::Info(Ok(info)) => InstallView {
                    phase: Phase::ProbingPrevious,
                    kind: kind_of(info),
                    top: info.single_top_level_dir(),
                    ..self
                },
                ReplyView::Info(Err(cause)) => self.fail(
                    InstallErrorView::io("extract zip"@, cause),
                ),
                _ => self.fail(InstallErrorView::io("extract zip"@, unexpected())),
            },
            Phase::ProbingPrevious => match reply {
                ReplyView::Flag(true) => InstallView { phase: Phase::ClearingPrevious, ..self },
                ReplyView::Flag(false) => InstallView { phase: Phase::Promoting, ..self },
                _ => self.fail(
                    InstallErrorView::io("probe previous extracted root"@, unexpected()),
                ),
            },
            Phase::ClearingPrevious => self.after_done(
                reply,
                "remove previous extracted root"@,
                InstallView { phase: Phase::Promoting, ..self },
            ),
            Phase::Promoting => self.after_done(
                reply,
                "rename staging to extracted"@,
                InstallView {
                    phase: if self.top is Some {
                        Phase::ProbingRoot
                    } else {
                        Phase::Linking
                    },
                    guard: match self.guard {
                        Some(guard) => Some(GuardView { committed: true, ..guard }),
                        None => None,
                    },
                    root: self.permanent,
                    ..self
                },
            ),
            Phase::ProbingRoot => match reply {
                ReplyView::Flag(is_dir) => InstallView {
                    phase: Phase::Linking,
                    root: content_root(self.top, self.permanent, is_dir),
                    ..self
                },
                _ => self.fail(InstallErrorView::io("probe content root"@, unexpected())),
            },
            Phase::Linking => self.after_done(
                reply,
                "link mod directory"@,
                InstallView { phase: Phase::Finished, ..self },
            ),
            Phase::Abandoning => InstallView { phase: Phase::Finished, guard: None, ..self },
            Phase::Finished => self,
        }
    }
}

/// One install in progress.
pub struct Install {
    phase: Phase,
    archive: FsPath,
    mods: FsPath,
    overrides: FsPath,
    name: String,
    permanent: FsPath,
    guard: Option<StagingGuard>,
    kind: ModKind,
    top: Option<String>,
    root: FsPath,
    failure: Option<InstallError>,
}

impl View for Install {
    type V = InstallView;

    closed spec fn view(&self) -> InstallView {
        InstallView {
            phase: self.phase,
            archive: self.archive@,
            mods: self.mods@,
            overrides: self.overrides@,
            name: self.name@,
            permanent: self.permanent@,
            guard: match self.guard {
                Some(guard) => Some(guard@),
                None => None,
            },
            kind: self.kind,
            top: self.top.deep_view(),
            root: self.root@,
            failure: match self.failure {
                Some(error) => Some(error@),
                None => None,
            },
        }
    }
}

fn no_path() -> (path: FsPath)
    ensures
        path@ == Seq::<Seq<char>>::empty(),
{
    let parts: Vec<String> = Vec::new();
    assert(parts.deep_view() =~= Seq::<Seq<char>>::empty());
    FsPath::from_parts(parts)
}

/// Reads a reply as the outcome of an operation on the disk.
fn as_done(reply: Reply) -> (result: Result<(), String>)
    ensures
        match reply@ {
            ReplyView::Done(Ok(_)) => result is Ok,
            ReplyView::Done(Err(cause)) => result matches Err(text) && text@ == cause,
            _ => result matches Err(text) && text@ == unexpected(),
        },
{
    match reply {
        Reply::Done(result) => result,
        _ => Err("unexpected reply".to_owned()),
    }
}

/// Reads a reply as the metadata of an archive.
fn as_info(reply: Reply) -> (result: Result<ArchiveInfo, String>)
    ensures
        match reply@ {
            ReplyView::Info(Ok(info)) => result matches Ok(given) && given@ == info,
            ReplyView::Info(Err(cause)) => result matches Err(text) && text@ == cause,
            _ => result matches Err(text) && text@ == unexpected(),
        },
{
    match reply {
        Reply::Info(result) => result,
        _ => Err("unexpected reply".to_owned()),
    }
}

/// Reads a reply as a directory that was looked for.
fn as_located(reply: Reply) -> (result: Result<Option<FsPath>, String>)
    ensures
        match reply@ {
            ReplyView::Located(Some(path)) => result matches Ok(Some(given)) && given@ == path,
            ReplyView::Located(None) => result matches Ok(None),
            _ => result matches Err(text) && text@ == unexpected(),
        },
{
    match reply {
        Reply::Located(place) => Ok(place),
        _ => Err("unexpected reply".to_owned()),
    }
}

/// Reads a reply as the answer to a probe.
fn as_flag(reply: Reply) -> (result: Result<bool, String>)
    ensures
        match reply@ {
            ReplyView::Flag(flag) => result == Ok::<bool, String>(flag),
            _ => result matches Err(text) && text@ == unexpected(),
        },
{
    match reply {
        Reply::Flag(flag) => Ok(flag),
        _ => Err("unexpected reply".to_owned()),
    }
}

impl Install {
    /// Begins the install of the archive at `archive`. Nothing has been asked
    /// for yet: the first request is to find the game.
    pub fn begin(archive: FsPath) -> (install: Self)
        ensures
            install@ == InstallView::begin(archive@),
            install@.wf(),
    {
        Install {
            phase: Phase::LocatingGame,
            archive,
            mods: no_path(),
            overrides: no_path(),
            name: String::new(),
            permanent: no_path(),
            guard: None,
            kind: ModKind::Override,
            top: None,
            root: no_path(),
            failure: None,
        }
    }

    /// How far the install has come.
    pub fn phase(&self) -> (phase: Phase)
        ensures
            phase == self@.phase,
    {
        self.phase
    }

    fn staging(&self) -> (path: FsPath)
        ensures
            path@ == self@.staging(),
    {
        match &self.guard {
            Some(guard) => guard.path().clone(),
            None => no_path(),
        }
    }

    fn candidate(&self) -> (path: FsPath)
        ensures
            path@ == self@.candidate(),
    {
        match &self.top {
            Some(top) => self.permanent.join(top.as_str()),
            None => self.permanent.clone(),
        }
    }

    /// What the caller has to do next.
    pub fn request(&self) -> (request: Request)
        ensures
            request@ == self@.request(),
    {
        match self.phase {
            Phase::LocatingGame => Request::LocateInstallBase,
            Phase::EnsuringMods => Request::EnsureDir { path: self.mods.clone() },
            Phase::EnsuringOverrides => Request::EnsureDir { path: self.overrides.clone() },
            Phase::Inspecting => Request::InspectArchive { archive: self.archive.clone() },
            Phase::LocatingData => Request::LocateDataDir,
            Phase::ProbingStaging => Request::ProbeExists { path: self.staging() },
            Phase::ClearingStaging => Request::RemoveDirAll { path: self.staging() },
            Phase::Extracting => Request::ExtractArchive {
                archive: self.archive.clone(),
                dest: self.staging(),
            },
            Phase::ProbingPrevious => Request::ProbeExists { path: self.permanent.clone() },
            Phase::ClearingPrevious => Request::RemoveDirAll { path: self.permanent.clone() },
            Phase::Promoting => Request::Rename {
                from: self.staging(),
                to: self.permanent.clone(),
            },
            Phase::ProbingRoot => Request::ProbeIsDir { path: self.candidate() },
            Phase::Linking => Request::ReplaceSymlink {
                target: self.root.clone(),
                link: Payday2Provider::link_path(
                    self.kind,
                    &self.mods,
                    &self.overrides,
                    self.name.as_str(),
                ),
            },
            Phase::Abandoning => Request::Discard { path: self.staging() },
            Phase::Finished => Request::Finished {
                outcome: match &self.failure {
                    Some(error) => Err(error.clone()),
                    None => Ok(()),
                },
            },
        }
    }

    fn fail(self, error: InstallError) -> (next: Self)
        ensures
            next@ == self@.fail(error@),
    {
        let armed = match &self.guard {
            Some(guard) => !guard.is_committed(),
            None => false,
        };
        Install {
            phase: if armed {
                Phase::Abandoning
            } else {
                Phase::Finished
            },
            failure: Some(error),
            ..self
        }
    }

    fn enter(self, phase: Phase) -> (next: Self)
        ensures
            next@ == (InstallView { phase, ..self@ }),
    {
        Install { phase, ..self }
    }

    /// Goes on to `phase` where `reply` says that the operation `op` went
    /// through, and fails with it otherwise.
    fn after_done(self, reply: Reply, op: &'static str, phase: Phase) -> (next: Self)
        ensures
            next@ == self@.after_done(reply@, op@, InstallView { phase, ..self@ }),
    {
        match as_done(reply).ctx(op) {
            Ok(_) => self.enter(phase),
            Err(error) => self.fail(error),
        }
    }

    /// Takes the reply to the pending request and decides how to go on.
    pub fn advance(self, reply: Reply) -> (next: Self)
        ensures
            next@ == self@.advance(reply@),
            self@.wf() ==> next@.wf(),
    {
        proof {
            if self@.wf() {
                law_states_stay_well_formed(self@, reply@);
            }
        }
        match self.phase {
            Phase::LocatingGame => match as_located(reply).ctx("locate install base") {
                Ok(Some(base)) => {
                    let provider = Payday2Provider::new();
                    let mods = provider.mods_folder(&base);
                    let overrides = provider.overrides_folder(&base);
                    Install { phase: Phase::EnsuringMods, mods, overrides, ..self }
                },
                Ok(None) => self.fail(InstallError::MissingTarget),
                Err(error) => self.fail(error),
            },
            Phase::EnsuringMods => self.after_done(
                reply,
                "ensure mods dir",
                Phase::EnsuringOverrides,
            ),
            Phase::EnsuringOverrides => self.after_done(
                reply,
                "ensure overrides dir",
                Phase::Inspecting,
            ),
            Phase::Inspecting => match as_info(reply).ctx("inspect zip") {
                Ok(info) => match Payday2Provider::derive_name(&info, &self.archive) {
                    Some(name) => Install { phase: Phase::LocatingData, name, ..self },
                    None => self.fail(InstallError::MalformedArchive),
                },
                Err(error) => self.fail(error),
            },
            Phase::LocatingData => match as_located(reply).ctx("resolve local data dir") {
                Ok(Some(data_dir)) => {
                    let provider = Payday2Provider::new();
                    let permanent = provider.extracted_root(&data_dir, self.name.as_str());
                    let guard = StagingGuard::new(Payday2Provider::staging_path(&permanent));
                    Install {
                        phase: Phase::ProbingStaging,
                        permanent,
                        guard: Some(guard),
                        ..self
                    }
                },
                Ok(None) => self.fail(
                    InstallError::io("resolve local data dir", "Couldn't resolve local data dir"),
                ),
                Err(error) => self.fail(error),
            },
            Phase::ProbingStaging => match as_flag(reply).ctx("probe old staging") {
                Ok(true) => self.enter(Phase::ClearingStaging),
                Ok(false) => self.enter(Phase::Extracting),
                Err(error) => self.fail(error),
            },
            Phase::ClearingStaging => self.after_done(
                reply,
                "remove old staging",
                Phase::Extracting,
            ),
            Phase::Extracting => match as_info(reply).ctx("extract zip") {
                Ok(info) => {
                    let kind = Payday2Provider::classify(&info);
                    let top = info.single_top_level_dir();
                    Install { phase: Phase::ProbingPrevious, kind, top, ..self }
                },
                Err(error) => self.fail(error),
            },
            Phase::ProbingPrevious => match as_flag(reply).ctx("probe previous extracted root") {
                Ok(true) => self.enter(Phase::ClearingPrevious),
                Ok(false) => self.enter(Phase::Promoting),
                Err(error) => self.fail(error),
            },
            Phase::ClearingPrevious => self.after_done(
                reply,
                "remove previous extracted root",
                Phase::Promoting,
            ),
            Phase::Promoting => match as_done(reply).ctx("rename staging to extracted") {
                Ok(_) => {
                    let Install {
                        phase: _,
                        archive,
                        mods,
                        overrides,
                        name,
                        permanent,
                        guard,
                        kind,
                        top,
                        root: _,
                        failure,
                    } = self;
                    let guard = match guard {
                        Some(guard) => Some(guard.commit()),
                        None => None,
                    };
                    let phase = if top.is_some() {
                        Phase::ProbingRoot
                    } else {
                        Phase::Linking
                    };
                    let root = permanent.clone();
                    Install {
                        phase,
                        archive,
                        mods,
                        overrides,
                        name,
                        permanent,
                        guard,
                        kind,
                        top,
                        root,
                        failure,
                    }
                },
                Err(error) => self.fail(error),
            },
            Phase::ProbingRoot => match as_flag(reply).ctx("probe content root") {
                Ok(is_dir) => {
                    let root = match &self.top {
                        Some(top) => Payday2Provider::resolve_root(
                            Some(top.as_str()),
                            &self.permanent,
                            is_dir,
                        ),
                        None => Payday2Provider::resolve_root(None, &self.permanent, is_dir),
                    };
                    Install { phase: Phase::Linking, root, ..self }
                },
                Err(error) => self.fail(error),
            },
            Phase::Linking => self.after_done(reply, "link mod directory", Phase::Finished),
            Phase::Abandoning => Install { phase: Phase::Finished, guard: None, ..self },
            Phase::Finished => self,
        }
    }
}

} // verus!
