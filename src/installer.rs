use vstd::prelude::*;
use crate::patch::{patch_launches, patch_names, patcher_path, patcher_resource, platform, platform_of, views, apply_args, Launch, Platform};
use crate::paths::{expand_tilde, expanded, extension_of, file_extension, home_view, joined, join_path, last_segment, last_segment_of};
use crate::source::{effective_name, is_remote_source, resolve_hack, starts_with};
use crate::validate::{directory_failure, file_failure, validate_directory_path, validate_file_path, PathKind};

verus! {

/// What one invocation of the installer is asked to do.
pub struct InstallRequest {
    /// The directory under which the hack's folder is made.
    pub game_directory: String,
    /// The base asset that every patch is applied to.
    pub game_original_copy: String,
    /// The install folder's name; blank to derive it from the source.
    pub hack_name: String,
    /// A URL (`http://` or `https://`) or the path of a local archive.
    pub hack_source: String,
    /// Sent as the `Cookie` header when the source is remote.
    pub auth_cookie: String,
    /// Whether to open the install folder when all is done.
    pub open_after: bool,
}

/// One entry of a directory listing.
pub struct DirEntry {
    /// The entry's file name.
    pub name: String,
    /// What the entry is.
    pub kind: PathKind,
}

/// How an extraction went.
#[derive(Clone, Copy, Debug, PartialEq, Eq, Structural)]
pub enum ExtractOutcome {
    Extracted,
    /// The local archive could not be opened.
    CannotOpen,
    /// The archive could not be extracted.
    Failed,
}

/// The fixed facts of one installation, worked out before any step is taken.
pub struct Plan {
    /// The game directory, with the home shorthand expanded.
    pub game_directory: String,
    /// The base asset's path, with the home shorthand expanded.
    pub base_asset: String,
    /// The hack source as given.
    pub source: String,
    /// The hack source with the home shorthand expanded.
    pub local_source: String,
    /// The cookie sent with a download.
    pub cookie: String,
    /// Whether the source is remote.
    pub remote: bool,
    /// The install folder.
    pub install_directory: String,
    /// Where the single wrapper folder waits while the install folder is
    /// replaced: the install folder's path with `_tmp` appended.
    pub temp_directory: String,
    /// The platform the patcher is chosen for.
    pub platform: Platform,
    /// Whether to open the install folder at the end.
    pub open_after: bool,
}

/// How far an installation has come; each stage awaits one kind of event.
#[derive(Clone, Copy, Debug, PartialEq, Eq, Structural)]
pub enum Stage {
    CheckingGameDirectory,
    CheckingBaseAsset,
    CheckingArchive,
    Requesting,
    ReadingBody,
    Extracting,
    ListingForFlatten,
    MovingOut,
    RemovingInstall,
    MovingIn,
    LocatingPatcher,
    ListingPatches,
    Launching,
    Opening,
    Finished,
}

/// What the outside world reports back after an action.
pub enum Event {
    /// What the file system holds at the probed path.
    Probed(PathKind),
    /// The status of the download's response, or `None` where no response came.
    Responded(Option<u16>),
    /// Whether the whole response body was read.
    BodyRead(bool),
    /// How the extraction went.
    Extracted(ExtractOutcome),
    /// The listed entries, or `None` where the directory could not be read.
    Listed(Option<Vec<DirEntry>>),
    /// Whether a file system operation, a launch or an open succeeded.
    Done(bool),
    /// The patcher's resolved path, if any, and what lies there.
    Located(Option<String>, PathKind),
}

/// What the outside world is asked to do next.
pub enum Action {
    /// Look at what the file system holds at a path.
    Probe(String),
    /// Send one GET request to a URL with a `Cookie` header.
    Request { url: String, cookie: String },
    /// Read the whole body of the response.
    ReadBody,
    /// Extract the downloaded archive into a directory, ignoring permissions.
    ExtractBody { into: String },
    /// Extract a local archive into a directory, ignoring permissions.
    ExtractFile { archive: String, into: String },
    /// List a directory's immediate entries.
    List(String),
    /// Rename a path.
    Rename { from: String, to: String },
    /// Remove an empty directory.
    RemoveDir(String),
    /// Resolve a path under the bundled resources.
    Locate(String),
    /// Start each program without waiting for any.
    Launch(Vec<Launch>),
    /// Open a path with the system's default handler; failures are ignored.
    Open(String),
    /// The installation is over, with this outcome.
    Finish(Result<(), String>),
}

/// An event as plain values.
pub enum EventView {
    Probed(PathKind),
    Responded(Option<u16>),
    BodyRead(bool),
    Extracted(ExtractOutcome),
    Listed(Option<Seq<(Seq<char>, PathKind)>>),
    Done(bool),
    Located(Option<Seq<char>>, PathKind),
}

/// An action as plain values.
pub enum ActionView {
    Probe(Seq<char>),
    Request(Seq<char>, Seq<char>),
    ReadBody,
    ExtractBody(Seq<char>),
    ExtractFile(Seq<char>, Seq<char>),
    List(Seq<char>),
    Rename(Seq<char>, Seq<char>),
    RemoveDir(Seq<char>),
    Locate(Seq<char>),
    Launch(Seq<(Seq<char>, Seq<Seq<char>>)>),
    Open(Seq<char>),
    Finish(Option<Seq<char>>),
}

impl DirEntry {
    pub open spec fn view(&self) -> (Seq<char>, PathKind) {
        (self.name@, self.kind)
    }
}

/// The views of a listing.
pub open spec fn entry_views(v: Seq<DirEntry>) -> Seq<(Seq<char>, PathKind)> {
    v.map_values(|e: DirEntry| e.view())
}

/// The views of a sequence of launches.
pub open spec fn launch_views(v: Seq<Launch>) -> Seq<(Seq<char>, Seq<Seq<char>>)> {
    v.map_values(|l: Launch| l.view())
}

impl Event {
    pub open spec fn view(&self) -> EventView {
        match self {
            Event::Probed(k) => EventView::Probed(*k),
            Event::Responded(s) => EventView::Responded(*s),
            Event::BodyRead(b) => EventView::BodyRead(*b),
            Event::Extracted(o) => EventView::Extracted(*o),
            Event::Listed(l) => EventView::Listed(
                match l {
                    Some(es) => Some(entry_views(es@)),
                    None => None,
                },
            ),
            Event::Done(b) => EventView::Done(*b),
            Event::Located(p, k) => EventView::Located(
                match p {
                    Some(s) => Some(s@),
                    None => None,
                },
                *k,
            ),
        }
    }
}

impl Action {
    pub open spec fn view(&self) -> ActionView {
        match self {
            Action::Probe(p) => ActionView::Probe(p@),
            Action::Request { url, cookie } => ActionView::Request(url@, cookie@),
            Action::ReadBody => ActionView::ReadBody,
            Action::ExtractBody { into } => ActionView::ExtractBody(into@),
            Action::ExtractFile { archive, into } => ActionView::ExtractFile(archive@, into@),
            Action::List(p) => ActionView::List(p@),
            Action::Rename { from, to } => ActionView::Rename(from@, to@),
            Action::RemoveDir(p) => ActionView::RemoveDir(p@),
            Action::Locate(p) => ActionView::Locate(p@),
            Action::Launch(ls) => ActionView::Launch(launch_views(ls@)),
            Action::Open(p) => ActionView::Open(p@),
            Action::Finish(r) => ActionView::Finish(
                match r {
                    Ok(_) => None,
                    Err(e) => Some(e@),
                },
            ),
        }
    }
}

/// The reason given when the archive cannot be downloaded.
pub open spec fn download_failed() -> Seq<char> {
    "Failed to download archive"@
}

/// The reason given when a local archive cannot be opened.
pub open spec fn open_failed() -> Seq<char> {
    "Failed to open archive"@
}

/// The reason given when the archive cannot be extracted.
pub open spec fn extract_failed() -> Seq<char> {
    "Failed to extract archive"@
}

/// The reason given when a local source is not a zip archive.
pub open spec fn not_zip() -> Seq<char> {
    "This is not a zip file"@
}

/// The reason given when a step of flattening fails for `reason`.
pub open spec fn flatten_failed(reason: Seq<char>) -> Seq<char> {
    "Failed to flatten hack directory: "@ + reason
}

/// The reason given when no patcher can be located.
pub open spec fn locate_failed() -> Seq<char> {
    "Failed to locate patcher"@
}

/// The reason given when the located patcher is not on disk.
pub open spec fn patcher_missing() -> Seq<char> {
    "Patcher not found"@
}

/// The reason given when the install folder cannot be listed for patches.
pub open spec fn listing_failed() -> Seq<char> {
    "Failed to read hack directory"@
}

/// Whether a file name's extension is `zip`, in any letter case.
pub open spec fn is_zip_name(name: Seq<char>) -> bool {
    match extension_of(name) {
        Some(e) => e.len() == 3 && (e[0] == 'z' || e[0] == 'Z') && (e[1] == 'i' || e[1] == 'I') && (
        e[2] == 'p' || e[2] == 'P'),
        None => false,
    }
}

/// The outcome of a failure with reason `m`.
pub open spec fn fail(m: Seq<char>) -> (Stage, ActionView) {
    (Stage::Finished, ActionView::Finish(Some(m)))
}

/// Whether a stage awaits an event of this kind.
pub open spec fn expects(stage: Stage, e: EventView) -> bool {
    match stage {
        Stage::CheckingGameDirectory | Stage::CheckingBaseAsset | Stage::CheckingArchive => e is Probed,
        Stage::Requesting => e is Responded,
        Stage::ReadingBody => e is BodyRead,
        Stage::Extracting => e is Extracted,
        Stage::ListingForFlatten | Stage::ListingPatches => e is Listed,
        Stage::MovingOut | Stage::RemovingInstall | Stage::MovingIn | Stage::Launching
        | Stage::Opening => e is Done,
        Stage::LocatingPatcher => e is Located,
        Stage::Finished => false,
    }
}

/// The names of a listing.
pub open spec fn entry_names(es: Seq<(Seq<char>, PathKind)>) -> Seq<Seq<char>> {
    es.map_values(|e: (Seq<char>, PathKind)| e.0)
}

impl Plan {
    /// What follows a flattening that is done or that had nothing to do:
    /// locating the patcher bundled for the platform.
    pub open spec fn after_flatten(&self) -> (Stage, ActionView) {
        match patcher_resource(self.platform) {
            Some(r) => (Stage::LocatingPatcher, ActionView::Locate(r)),
            None => fail(locate_failed()),
        }
    }

    /// What follows the launches: opening the install folder if asked, then
    /// success.
    pub open spec fn after_launch(&self) -> (Stage, ActionView) {
        if self.open_after {
            (Stage::Opening, ActionView::Open(self.install_directory@))
        } else {
            (Stage::Finished, ActionView::Finish(None))
        }
    }

    /// The launches that apply each patch file named in a listing of the
    /// install folder with the patcher at `patcher`.
    pub open spec fn launches(&self, patcher: Seq<char>, es: Seq<(Seq<char>, PathKind)>) -> Seq<
        (Seq<char>, Seq<Seq<char>>),
    > {
        Seq::new(
            patch_names(entry_names(es)).len(),
            |i: int|
                (
                    patcher,
                    apply_args(
                        self.install_directory@,
                        patch_names(entry_names(es))[i],
                        self.base_asset@,
                    ),
                ),
        )
    }

    /// The next stage and action, from `stage` on event `e`, with the
    /// patcher found at `patcher` where it has been located.
    pub open spec fn next(&self, stage: Stage, patcher: Seq<char>, e: EventView) -> (
        Stage,
        ActionView,
    ) {
        match (stage, e) {
            (Stage::CheckingGameDirectory, EventView::Probed(k)) => match directory_failure(
                self.game_directory@,
                k,
            ) {
                Some(m) => fail(m),
                None => (Stage::CheckingBaseAsset, ActionView::Probe(self.base_asset@)),
            },
            (Stage::CheckingBaseAsset, EventView::Probed(k)) => match file_failure(
                self.base_asset@,
                k,
            ) {
                Some(m) => fail(m),
                None => if self.remote {
                    (Stage::Requesting, ActionView::Request(self.source@, self.cookie@))
                } else {
                    (Stage::CheckingArchive, ActionView::Probe(self.local_source@))
                },
            },
            (Stage::CheckingArchive, EventView::Probed(k)) => match file_failure(
                self.local_source@,
                k,
            ) {
                Some(m) => fail(m),
                None => if is_zip_name(last_segment(self.local_source@)) {
                    (
                        Stage::Extracting,
                        ActionView::ExtractFile(self.local_source@, self.install_directory@),
                    )
                } else {
                    fail(not_zip())
                },
            },
            (Stage::Requesting, EventView::Responded(st)) => if st == Some(200u16) {
                (Stage::ReadingBody, ActionView::ReadBody)
            } else {
                fail(download_failed())
            },
            (Stage::ReadingBody, EventView::BodyRead(ok)) => if ok {
                (Stage::Extracting, ActionView::ExtractBody(self.install_directory@))
            } else {
                fail(download_failed())
            },
            (Stage::Extracting, EventView::Extracted(o)) => match o {
                ExtractOutcome::Extracted => (
                    Stage::ListingForFlatten,
                    ActionView::List(self.install_directory@),
                ),
                ExtractOutcome::CannotOpen => fail(open_failed()),
                ExtractOutcome::Failed => fail(extract_failed()),
            },
            (Stage::ListingForFlatten, EventView::Listed(l)) => match l {
                None => fail(flatten_failed("Failed to read directory"@)),
                Some(es) => if es.len() != 1 {
                    self.after_flatten()
                } else if es[0].1 == PathKind::Unreadable {
                    fail(flatten_failed("Failed to read entry metadata"@))
                } else if es[0].1 == PathKind::Directory {
                    (
                        Stage::MovingOut,
                        ActionView::Rename(
                            joined(self.install_directory@, es[0].0),
                            self.temp_directory@,
                        ),
                    )
                } else {
                    self.after_flatten()
                },
            },
            (Stage::MovingOut, EventView::Done(ok)) => if ok {
                (Stage::RemovingInstall, ActionView::RemoveDir(self.install_directory@))
            } else {
                fail(flatten_failed("Failed to move single sub directory to temp directory"@))
            },
            (Stage::RemovingInstall, EventView::Done(ok)) => if ok {
                (
                    Stage::MovingIn,
                    ActionView::Rename(self.temp_directory@, self.install_directory@),
                )
            } else {
                fail(flatten_failed("Failed to remove directory"@))
            },
            (Stage::MovingIn, EventView::Done(ok)) => if ok {
                self.after_flatten()
            } else {
                fail(flatten_failed("Failed to move temp directory to directory"@))
            },
            (Stage::LocatingPatcher, EventView::Located(p, k)) => match p {
                None => fail(locate_failed()),
                Some(_) => if k == PathKind::Missing {
                    fail(patcher_missing())
                } else {
                    (Stage::ListingPatches, ActionView::List(self.install_directory@))
                },
            },
            (Stage::ListingPatches, EventView::Listed(l)) => match l {
                None => fail(listing_failed()),
                Some(es) => (Stage::Launching, ActionView::Launch(self.launches(patcher, es))),
            },
            (Stage::Launching, EventView::Done(_)) => self.after_launch(),
            (Stage::Opening, EventView::Done(_)) => (Stage::Finished, ActionView::Finish(None)),
            _ => (stage, ActionView::Finish(None)),
        }
    }
}

/// An installation in progress: the plan, the stage reached, and the
/// patcher's path once located.
pub struct Installer {
    pub plan: Plan,
    pub stage: Stage,
    pub patcher: String,
}

/// Whether a stage awaits this event.
pub fn accepts(stage: Stage, event: &Event) -> (r: bool)
    ensures
        r == expects(stage, event.view()),
{
    match stage {
        Stage::CheckingGameDirectory | Stage::CheckingBaseAsset | Stage::CheckingArchive => matches!(event, Event::Probed(_)),
        Stage::Requesting => matches!(event, Event::Responded(_)),
        Stage::ReadingBody => matches!(event, Event::BodyRead(_)),
        Stage::Extracting => matches!(event, Event::Extracted(_)),
        Stage::ListingForFlatten | Stage::ListingPatches => matches!(event, Event::Listed(_)),
        Stage::MovingOut | Stage::RemovingInstall | Stage::MovingIn | Stage::Launching
        | Stage::Opening => matches!(event, Event::Done(_)),
        Stage::LocatingPatcher => matches!(event, Event::Located(_, _)),
        Stage::Finished => false,
    }
}

/// Whether a file name's extension is `zip`, in any letter case.
pub fn zip_name(name: &str) -> (r: bool)
    ensures
        r == is_zip_name(name@),
{
    match file_extension(name) {
        Some(e) => {
            let e = e.as_str();
            if e.unicode_len() != 3 {
                return false;
            }
            let a = e.get_char(0);
            let b = e.get_char(1);
            let c = e.get_char(2);
            (a == 'z' || a == 'Z') && (b == 'i' || b == 'I') && (c == 'p' || c == 'P')
        },
        None => false,
    }
}

/// The outcome of a failure with reason `m`.
fn failure(m: String) -> (r: (Stage, Action))
    ensures
        (r.0, r.1.view()) == fail(m@),
{
    (Stage::Finished, Action::Finish(Err(m)))
}

/// The reason for a failed flattening step.
fn flatten_error(reason: &str) -> (r: String)
    ensures
        r@ == flatten_failed(reason@),
{
    String::from_str("Failed to flatten hack directory: ").concat(reason)
}

/// The names of a listing.
fn names_of(es: &Vec<DirEntry>) -> (r: Vec<String>)
    ensures
        views(r@) == entry_names(entry_views(es@)),
{
    let mut out: Vec<String> = Vec::new();
    let mut i: usize = 0;
    while i < es.len()
        invariant
            i <= es@.len(),
            views(out@) == entry_names(entry_views(es@.subrange(0, i as int))),
        decreases es@.len() - i,
    {
        let ghost prev = out@;
        out.push(es[i].name.clone());
        proof {
            assert(out@ =~= prev.push(es@[i as int].name));
            assert(views(out@) =~= views(prev).push(es@[i as int].name@));
            assert(entry_names(entry_views(es@.subrange(0, i + 1))) =~= entry_names(
                entry_views(es@.subrange(0, i as int)),
            ).push(es@[i as int].name@));
        }
        i = i + 1;
    }
    assert(es@.subrange(0, es@.len() as int) =~= es@);
    out
}

impl Plan {
    /// The executable form of `after_flatten`.
    fn exec_after_flatten(&self) -> (r: (Stage, Action))
        ensures
            (r.0, r.1.view()) == self.after_flatten(),
    {
        match patcher_path(self.platform) {
            Some(res) => (Stage::LocatingPatcher, Action::Locate(res)),
            None => failure(String::from_str("Failed to locate patcher")),
        }
    }
}

impl Installer {
    /// Starts an installation: works out the plan from the request, the
    /// user's home directory where known, and the operating system's name,
    /// and asks first to look at the game directory.
    pub fn new(request: &InstallRequest, home: Option<&str>, os: &str) -> (r: (Installer, Action))
        ensures
            r.0.plan.game_directory@ == expanded(request.game_directory@, home_view(home)),
            r.0.plan.base_asset@ == expanded(request.game_original_copy@, home_view(home)),
            r.0.plan.source@ == request.hack_source@,
            r.0.plan.local_source@ == expanded(request.hack_source@, home_view(home)),
            r.0.plan.cookie@ == request.auth_cookie@,
            r.0.plan.remote == is_remote_source(request.hack_source@),
            r.0.plan.install_directory@ == joined(
                expanded(request.game_directory@, home_view(home)),
                effective_name(request.hack_name@, request.hack_source@, home_view(home)),
            ),
            r.0.plan.temp_directory@ == r.0.plan.install_directory@ + "_tmp"@,
            r.0.plan.platform == platform_of(os@),
            r.0.plan.open_after == request.open_after,
            r.0.stage == Stage::CheckingGameDirectory,
            r.0.patcher@.len() == 0,
            r.1.view() == ActionView::Probe(r.0.plan.game_directory@),
    {
        let hack = resolve_hack(
            request.game_directory.as_str(),
            request.hack_name.as_str(),
            request.hack_source.as_str(),
            home,
        );
        let game_directory = expand_tilde(request.game_directory.as_str(), home);
        let temp_directory = hack.install_directory.clone().concat("_tmp");
        let plan = Plan {
            game_directory: game_directory.clone(),
            base_asset: expand_tilde(request.game_original_copy.as_str(), home),
            source: request.hack_source.clone(),
            local_source: expand_tilde(request.hack_source.as_str(), home),
            cookie: request.auth_cookie.clone(),
            remote: hack.remote,
            install_directory: hack.install_directory,
            temp_directory,
            platform: platform(os),
            open_after: request.open_after,
        };
        (Installer { plan, stage: Stage::CheckingGameDirectory, patcher: String::new() }, Action::Probe(game_directory))
    }

    /// Takes the event that answers the last action, moves to the next stage
    /// and says what to do next.
    pub fn step(&mut self, event: Event) -> (a: Action)
        requires
            expects(old(self).stage, event.view()),
        ensures
            (final(self).stage, a.view()) == old(self).plan.next(
                old(self).stage,
                old(self).patcher@,
                event.view(),
            ),
            final(self).plan == old(self).plan,
            final(self).patcher@ == (match (old(self).stage, event.view()) {
                (Stage::LocatingPatcher, EventView::Located(Some(p), _)) => p,
                _ => old(self).patcher@,
            }),
    {
        let (stage, action) = match (self.stage, event) {
            (Stage::CheckingGameDirectory, Event::Probed(k)) => {
                match validate_directory_path(self.plan.game_directory.as_str(), None, k) {
                    Err(m) => failure(m),
                    Ok(()) => (Stage::CheckingBaseAsset, Action::Probe(self.plan.base_asset.clone())),
                }
            },
            (Stage::CheckingBaseAsset, Event::Probed(k)) => {
                match validate_file_path(self.plan.base_asset.as_str(), None, k) {
                    Err(m) => failure(m),
                    Ok(()) => if self.plan.remote {
                        (
                            Stage::Requesting,
                            Action::Request { url: self.plan.source.clone(), cookie: self.plan.cookie.clone() },
                        )
                    } else {
                        (Stage::CheckingArchive, Action::Probe(self.plan.local_source.clone()))
                    },
                }
            },
            (Stage::CheckingArchive, Event::Probed(k)) => {
                match validate_file_path(self.plan.local_source.as_str(), None, k) {
                    Err(m) => failure(m),
                    Ok(()) => {
                        let file_name = last_segment_of(self.plan.local_source.as_str());
                        if zip_name(file_name.as_str()) {
                            (
                                Stage::Extracting,
                                Action::ExtractFile {
                                    archive: self.plan.local_source.clone(),
                                    into: self.plan.install_directory.clone(),
                                },
                            )
                        } else {
                            failure(String::from_str("This is not a zip file"))
                        }
                    },
                }
            },
            (Stage::Requesting, Event::Responded(st)) => {
                match st {
                    Some(code) if code == 200 => (Stage::ReadingBody, Action::ReadBody),
                    _ => failure(String::from_str("Failed to download archive")),
                }
            },
            (Stage::ReadingBody, Event::BodyRead(ok)) => {
                if ok {
                    (Stage::Extracting, Action::ExtractBody { into: self.plan.install_directory.clone() })
                } else {
                    failure(String::from_str("Failed to download archive"))
                }
            },
            (Stage::Extracting, Event::Extracted(o)) => {
                match o {
                    ExtractOutcome::Extracted => (
                        Stage::ListingForFlatten,
                        Action::List(self.plan.install_directory.clone()),
                    ),
                    ExtractOutcome::CannotOpen => failure(String::from_str("Failed to open archive")),
                    ExtractOutcome::Failed => failure(String::from_str("Failed to extract archive")),
                }
            },
            (Stage::ListingForFlatten, Event::Listed(l)) => {
                match l {
                    None => failure(flatten_error("Failed to read directory")),
                    Some(es) => {
                        if es.len() != 1 {
                            self.plan.exec_after_flatten()
                        } else if es[0].kind == PathKind::Unreadable {
                            failure(flatten_error("Failed to read entry metadata"))
                        } else if es[0].kind == PathKind::Directory {
                            (
                                Stage::MovingOut,
                                Action::Rename {
                                    from: join_path(self.plan.install_directory.as_str(), es[0].name.as_str()),
                                    to: self.plan.temp_directory.clone(),
                                },
                            )
                        } else {
                            self.plan.exec_after_flatten()
                        }
                    },
                }
            },
            (Stage::MovingOut, Event::Done(ok)) => {
                if ok {
                    (Stage::RemovingInstall, Action::RemoveDir(self.plan.install_directory.clone()))
                } else {
                    failure(flatten_error("Failed to move single sub directory to temp directory"))
                }
            },
            (Stage::RemovingInstall, Event::Done(ok)) => {
                if ok {
                    (
                        Stage::MovingIn,
                        Action::Rename {
                            from: self.plan.temp_directory.clone(),
                            to: self.plan.install_directory.clone(),
                        },
                    )
                } else {
                    failure(flatten_error("Failed to remove directory"))
                }
            },
            (Stage::MovingIn, Event::Done(ok)) => {
                if ok {
                    self.plan.exec_after_flatten()
                } else {
                    failure(flatten_error("Failed to move temp directory to directory"))
                }
            },
            (Stage::LocatingPatcher, Event::Located(p, k)) => {
                match p {
                    None => failure(String::from_str("Failed to locate patcher")),
                    Some(path) => {
                        self.patcher = path;
                        if k == PathKind::Missing {
                            failure(String::from_str("Patcher not found"))
                        } else {
                            (Stage::ListingPatches, Action::List(self.plan.install_directory.clone()))
                        }
                    },
                }
            },
            (Stage::ListingPatches, Event::Listed(l)) => {
                match l {
                    None => failure(String::from_str("Failed to read hack directory")),
                    Some(es) => {
                        let names = names_of(&es);
                        let launches = patch_launches(
                            self.patcher.as_str(),
                            self.plan.install_directory.as_str(),
                            &names,
                            self.plan.base_asset.as_str(),
                        );
                        proof {
                            assert(launch_views(launches@) =~= self.plan.launches(
                                self.patcher@,
                                entry_views(es@),
                            ));
                        }
                        (Stage::Launching, Action::Launch(launches))
                    },
                }
            },
            (Stage::Launching, Event::Done(_)) => {
                if self.plan.open_after {
                    (Stage::Opening, Action::Open(self.plan.install_directory.clone()))
                } else {
                    (Stage::Finished, Action::Finish(Ok(())))
                }
            },
            (Stage::Opening, Event::Done(_)) => (Stage::Finished, Action::Finish(Ok(()))),
            _ => {
                proof {
                    assert(false);
                }
                (Stage::Finished, Action::Finish(Ok(())))
            },
        };
        self.stage = stage;
        action
    }
}

/// Flattening an empty install folder does nothing and succeeds: the
/// installation goes on as after a completed flattening.
pub proof fn law_flatten_empty_is_noop(plan: Plan, patcher: Seq<char>)
    ensures
        plan.next(Stage::ListingForFlatten, patcher, EventView::Listed(Some(seq![])))
            == plan.after_flatten(),
{
}

/// Flattening an install folder whose only entry is a directory moves that
/// directory aside, removes the emptied install folder and moves the
/// directory back under the install folder's own path, so that its children
/// become the install folder's children; then the installation goes on.
pub proof fn law_flatten_single_directory(plan: Plan, patcher: Seq<char>, name: Seq<char>)
    ensures
        plan.next(
            Stage::ListingForFlatten,
            patcher,
            EventView::Listed(Some(seq![(name, PathKind::Directory)])),
        ) == (
            Stage::MovingOut,
            ActionView::Rename(joined(plan.install_directory@, name), plan.temp_directory@),
        ),
        plan.next(Stage::MovingOut, patcher, EventView::Done(true)) == (
            Stage::RemovingInstall,
            ActionView::RemoveDir(plan.install_directory@),
        ),
        plan.next(Stage::RemovingInstall, patcher, EventView::Done(true)) == (
            Stage::MovingIn,
            ActionView::Rename(plan.temp_directory@, plan.install_directory@),
        ),
        plan.next(Stage::MovingIn, patcher, EventView::Done(true)) == plan.after_flatten(),
{
}

/// Whether `p` is `dir` or lies beneath it.
pub open spec fn under(p: Seq<char>, dir: Seq<char>) -> bool {
    p == dir || starts_with(p, dir + seq!['/'])
}

/// The paths that exist, given those in `fs`, once `from` is renamed to
/// `to`: what lay under `from` lies under `to`, in place of what was there.
pub open spec fn after_rename(fs: Set<Seq<char>>, from: Seq<char>, to: Seq<char>) -> Set<Seq<char>> {
    Set::new(
        |p: Seq<char>|
            if under(p, to) {
                fs.contains(from + p.subrange(to.len() as int, p.len() as int))
            } else {
                fs.contains(p) && !under(p, from)
            },
    )
}

/// The paths that exist, given those in `fs`, once the steps of flattening
/// `install` through its entry `name` have all been taken.
pub open spec fn after_flattening(fs: Set<Seq<char>>, plan: Plan, name: Seq<char>) -> Set<Seq<char>> {
    after_rename(
        after_rename(fs, joined(plan.install_directory@, name), plan.temp_directory@).remove(
            plan.install_directory@,
        ),
        plan.temp_directory@,
        plan.install_directory@,
    )
}

/// Once flattening has renamed the single entry aside, removed the install
/// folder and renamed the entry back, the install folder exists where the
/// entry did, and each path beneath the entry lies directly beneath the
/// install folder's own path.
pub proof fn law_flatten_lifts_children(fs: Set<Seq<char>>, plan: Plan, name: Seq<char>, q: Seq<char>)
    requires
        plan.temp_directory@ == plan.install_directory@ + "_tmp"@,
    ensures
        after_flattening(fs, plan, name).contains(plan.install_directory@) == fs.contains(
            joined(plan.install_directory@, name),
        ),
        after_flattening(fs, plan, name).contains(plan.install_directory@ + seq!['/'] + q)
            == fs.contains(joined(plan.install_directory@, name) + seq!['/'] + q),
{
    reveal_strlit("_tmp");
    let i = plan.install_directory@;
    let t = plan.temp_directory@;
    let sub = joined(i, name);
    let fs1 = after_rename(fs, sub, t);
    let fs2 = fs1.remove(i);
    assert(t.len() == i.len() + 4);
    // the install folder itself
    assert(under(i, i));
    assert(i.subrange(i.len() as int, i.len() as int) =~= Seq::<char>::empty());
    assert(i + Seq::<char>::empty() =~= i);
    assert(t + Seq::<char>::empty() =~= t);
    assert(under(t, t));
    assert(sub + Seq::<char>::empty() =~= sub);
    assert(t.subrange(t.len() as int, t.len() as int) =~= Seq::<char>::empty());
    // a path beneath it
    let p = i + seq!['/'] + q;
    let r = t + seq!['/'] + q;
    assert(p.subrange(0, (i + seq!['/']).len() as int) =~= i + seq!['/']);
    assert(under(p, i));
    assert(p.subrange(i.len() as int, p.len() as int) =~= seq!['/'] + q);
    assert(t + (seq!['/'] + q) =~= r);
    assert(r.subrange(0, (t + seq!['/']).len() as int) =~= t + seq!['/']);
    assert(under(r, t));
    assert(r.subrange(t.len() as int, r.len() as int) =~= seq!['/'] + q);
    assert(sub + (seq!['/'] + q) =~= sub + seq!['/'] + q);
    assert(r.len() > i.len());
}

/// Flattening an install folder that holds more than one entry, or a single
/// entry that is not a directory, leaves it as it is and succeeds.
pub proof fn law_flatten_keeps_other_layouts(
    plan: Plan,
    patcher: Seq<char>,
    es: Seq<(Seq<char>, PathKind)>,
)
    requires
        es.len() > 1 || (es.len() == 1 && es[0].1 != PathKind::Directory && es[0].1
            != PathKind::Unreadable),
    ensures
        plan.next(Stage::ListingForFlatten, patcher, EventView::Listed(Some(es)))
            == plan.after_flatten(),
{
}

/// A download that fails, by a status other than 200 or by no response at
/// all, ends the installation with the download error: nothing is extracted.
pub proof fn law_download_failure_stops(plan: Plan, patcher: Seq<char>, status: Option<u16>)
    requires
        status != Some(200u16),
    ensures
        plan.next(Stage::Requesting, patcher, EventView::Responded(status)) == fail(
            download_failed(),
        ),
{
}

} // verus!
