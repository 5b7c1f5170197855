use vstd::prelude::*;

use crate::model::{
    asset_name_of, aux_dir_of, binary_path_of, finish, first_match, is_first_match, next,
    next_removal, on_cache_miss, on_release, stale_entries, ActionModel, ErrorModel, EventModel,
    InstallStatus, Phase, ResolverModel,
};
use crate::platform::{identify, Architecture, Os, Platform, PlatformTag};

verus! {

/// A release asset: its name and where it is downloaded from.
#[derive(Clone, Debug, PartialEq, Eq)]
pub struct Asset {
    pub name: String,
    pub download_url: String,
}

impl View for Asset {
    type V = (Seq<char>, Seq<char>);

    open spec fn view(&self) -> (Seq<char>, Seq<char>) {
        (self.name@, self.download_url@)
    }
}

/// What the host reports back to the resolver.
#[derive(Debug, PartialEq, Eq)]
pub enum Event {
    /// A resolution is requested on the given platform.
    Start(Platform),
    /// Whether the path asked about is a regular file.
    FileStatus(bool),
    /// A status report or warning was delivered.
    Ack,
    /// The outcome of a directory, download or permission operation.
    Done(Result<(), String>),
    /// The assets of the release asked for, or why it could not be had.
    Release(Result<Vec<Asset>, String>),
    /// The names of the working root's entries, or why they could not be listed.
    Entries(Result<Vec<String>, String>),
}

/// Why a resolution failed.
#[derive(Debug, PartialEq, Eq)]
pub enum ResolveError {
    /// The version or auxiliary data directory could not be prepared; the
    /// text says what failed and why.
    DirectoryProvisioning(String),
    /// The release could not be looked up.
    Metadata(String),
    /// The release has no asset of this name.
    AssetNotFound(String),
    /// An archive could not be downloaded or unpacked.
    Download(String),
    /// The binary could not be made executable.
    Permission(String),
    /// An event arrived that the resolver was not waiting for.
    OutOfOrder,
}

/// What the host is asked to do next.
#[derive(Debug, PartialEq, Eq)]
pub enum Action {
    /// Tell whether the path is a regular file.
    CheckFile(String),
    /// Show a status report.
    Notify(InstallStatus),
    /// Log that the platform has no published assets.
    WarnUnsupported(Platform),
    /// Create the directory, with its parents, if it does not exist.
    CreateDir(String),
    /// Look up the release of the repository tagged `tag`.
    FetchRelease { repository: String, tag: String },
    /// Remove the directory recursively if it exists.
    RemoveDirIfExists(String),
    /// Download the zip archive at `url` and unpack it into `dir`.
    Download { url: String, dir: String },
    /// Mark the file executable.
    MakeExecutable(String),
    /// List the names of the working root's entries.
    ListRoot,
    /// Remove the entry of the working root recursively; failure is ignored.
    RemoveDir(String),
    /// The resolution is over, with the binary's path or an error.
    Finish(Result<String, ResolveError>),
}

/// The character sequences of a list of strings.
pub open spec fn strings_view(v: Seq<String>) -> Seq<Seq<char>> {
    v.map_values(|s: String| s@)
}

/// The name and location of each asset of a list.
pub open spec fn assets_view(v: Seq<Asset>) -> Seq<(Seq<char>, Seq<char>)> {
    v.map_values(|a: Asset| a@)
}

impl View for Event {
    type V = EventModel;

    open spec fn view(&self) -> EventModel {
        match self {
            Event::Start(p) => EventModel::Start(*p),
            Event::FileStatus(b) => EventModel::FileStatus(*b),
            Event::Ack => EventModel::Ack,
            Event::Done(r) => EventModel::Done(
                match r {
                    Ok(_) => Ok(()),
                    Err(c) => Err(c@),
                },
            ),
            Event::Release(r) => EventModel::Release(
                match r {
                    Ok(v) => Ok(assets_view(v@)),
                    Err(c) => Err(c@),
                },
            ),
            Event::Entries(r) => EventModel::Entries(
                match r {
                    Ok(v) => Ok(strings_view(v@)),
                    Err(c) => Err(c@),
                },
            ),
        }
    }
}

impl View for ResolveError {
    type V = ErrorModel;

    open spec fn view(&self) -> ErrorModel {
        match self {
            ResolveError::DirectoryProvisioning(c) => ErrorModel::DirectoryProvisioning(c@),
            ResolveError::Metadata(c) => ErrorModel::Metadata(c@),
            ResolveError::AssetNotFound(n) => ErrorModel::AssetNotFound(n@),
            ResolveError::Download(c) => ErrorModel::Download(c@),
            ResolveError::Permission(c) => ErrorModel::Permission(c@),
            ResolveError::OutOfOrder => ErrorModel::OutOfOrder,
        }
    }
}

/// The outcome of a resolution, with strings as character sequences.
pub open spec fn outcome_view(r: Result<String, ResolveError>) -> Result<Seq<char>, ErrorModel> {
    match r {
        Ok(p) => Ok(p@),
        Err(e) => Err(e@),
    }
}

impl View for Action {
    type V = ActionModel;

    open spec fn view(&self) -> ActionModel {
        match self {
            Action::CheckFile(p) => ActionModel::CheckFile(p@),
            Action::Notify(s) => ActionModel::Notify(*s),
            Action::WarnUnsupported(p) => ActionModel::WarnUnsupported(*p),
            Action::CreateDir(d) => ActionModel::CreateDir(d@),
            Action::FetchRelease { repository, tag } => ActionModel::FetchRelease {
                repository: repository@,
                tag: tag@,
            },
            Action::RemoveDirIfExists(d) => ActionModel::RemoveDirIfExists(d@),
            Action::Download { url, dir } => ActionModel::Download { url: url@, dir: dir@ },
            Action::MakeExecutable(p) => ActionModel::MakeExecutable(p@),
            Action::ListRoot => ActionModel::ListRoot,
            Action::RemoveDir(d) => ActionModel::RemoveDir(d@),
            Action::Finish(r) => ActionModel::Finish(outcome_view(*r)),
        }
    }
}

/// The text shown to the user for an error.
pub open spec fn message_of(e: ErrorModel) -> Seq<char> {
    match e {
        ErrorModel::DirectoryProvisioning(m) => m,
        ErrorModel::Metadata(c) => c,
        ErrorModel::AssetNotFound(n) => "Odoo: No asset found for asset name "@ + n,
        ErrorModel::Download(c) => "failed to download file: "@ + c,
        ErrorModel::Permission(c) => c,
        ErrorModel::OutOfOrder => "resolver received an event it was not waiting for"@,
    }
}

impl ResolveError {
    /// The text shown to the user: the cause, with what failed before it.
    pub fn message(&self) -> (r: String)
        ensures
            r@ == message_of(self@),
    {
        match self {
            ResolveError::DirectoryProvisioning(m) => m.clone(),
            ResolveError::Metadata(c) => c.clone(),
            ResolveError::AssetNotFound(n) => {
                String::from_str("Odoo: No asset found for asset name ").concat(n.as_str())
            },
            ResolveError::Download(c) => String::from_str("failed to download file: ").concat(c.as_str()),
            ResolveError::Permission(c) => c.clone(),
            ResolveError::OutOfOrder => String::from_str("resolver received an event it was not waiting for"),
        }
    }
}

/// Name of the server archive for a platform tag and a version, such as
/// `odoo-linux-x64-1.0.0.zip`.
pub fn asset_name(t: PlatformTag, version: &str) -> (r: String)
    ensures
        r@ == asset_name_of(t, version@),
{
    let mut r = String::from_str("odoo-");
    r.append(t.as_str());
    r.append("-");
    r.append(version);
    r.append(".zip");
    r
}

/// Path of the server binary inside the directory of a version.
pub fn binary_path(version: &str, os: Os) -> (r: String)
    ensures
        r@ == binary_path_of(version@, os),
{
    let mut r = String::from_str(version);
    r.append("/");
    match os {
        Os::Windows => r.append("odoo_ls_server.exe"),
        Os::Mac | Os::Linux => r.append("odoo_ls_server"),
    }
    r
}

/// Path of the auxiliary data directory inside the directory of a version.
pub fn aux_dir(version: &str) -> (r: String)
    ensures
        r@ == aux_dir_of(version@),
{
    let mut r = String::from_str(version);
    r.append("/typeshed");
    r
}

/// Position of the first asset named `name`, if there is one.
pub fn find_asset(assets: &Vec<Asset>, name: &String) -> (r: Option<usize>)
    ensures
        match r {
            Some(i) => i < assets.len() && first_match(assets_view(assets@), name@) == Some(i as int),
            None => first_match(assets_view(assets@), name@) is None,
        },
{
    let ghost v = assets_view(assets@);
    let mut i: usize = 0;
    while i < assets.len()
        invariant
            i <= assets.len(),
            v == assets_view(assets@),
            forall|j: int| 0 <= j < i ==> v[j].0 != name@,
        decreases assets.len() - i,
    {
        if assets[i].name == *name {
            proof {
                assert(is_first_match(v, name@, i as int));
                let k = choose|k: int| is_first_match(v, name@, k);
                assert(k == i as int);
            }
            return Some(i);
        }
        i = i + 1;
    }
    None
}

/// The names among `entries` other than `version`, in their order.
pub fn stale_names(entries: &Vec<String>, version: &String) -> (r: Vec<String>)
    ensures
        strings_view(r@) == stale_entries(strings_view(entries@), version@),
{
    let ghost ev = strings_view(entries@);
    let mut r: Vec<String> = Vec::new();
    let mut i: usize = 0;
    while i < entries.len()
        invariant
            i <= entries.len(),
            ev == strings_view(entries@),
            strings_view(r@) == stale_entries(ev.take(i as int), version@),
        decreases entries.len() - i,
    {
        proof {
            reveal(Seq::filter);
            assert(ev.take(i + 1).drop_last() =~= ev.take(i as int));
        }
        if !(entries[i] == *version) {
            r.push(entries[i].clone());
            assert(strings_view(r@) =~= stale_entries(ev.take(i + 1), version@));
        } else {
            assert(strings_view(r@) =~= stale_entries(ev.take(i + 1), version@));
        }
        i = i + 1;
    }
    assert(ev.take(entries.len() as int) =~= ev);
    r
}

/// Resolves the path of the language-server binary for one host session.
///
/// The host drives it: it sends `Event::Start`, performs each returned
/// action and sends back its outcome, until an `Action::Finish` ends the
/// resolution.
pub struct Resolver {
    version: String,
    cached_binary_path: Option<String>,
    phase: Phase,
    platform: Platform,
    binary_path: String,
    server_url: String,
    aux_url: String,
    stale: Vec<String>,
    next_stale: usize,
}

impl View for Resolver {
    type V = ResolverModel;

    closed spec fn view(&self) -> ResolverModel {
        ResolverModel {
            version: self.version@,
            cached: match self.cached_binary_path {
                Some(p) => Some(p@),
                None => None,
            },
            phase: self.phase,
            platform: self.platform,
            binary_path: self.binary_path@,
            server_url: self.server_url@,
            aux_url: self.aux_url@,
            stale: if self.next_stale <= self.stale.len() {
                strings_view(self.stale@).skip(self.next_stale as int)
            } else {
                Seq::empty()
            },
        }
    }
}

impl Resolver {
    /// A resolver for the given release, with nothing cached.
    pub fn new(version: String) -> (r: Self)
        ensures
            r@.version == version@,
            r@.cached is None,
            r@.phase == Phase::Idle,
    {
        Resolver {
            version,
            cached_binary_path: None,
            phase: Phase::Idle,
            platform: Platform { os: Os::Linux, arch: Architecture::X8664, minimal_libc: false },
            binary_path: String::new(),
            server_url: String::new(),
            aux_url: String::new(),
            stale: Vec::new(),
            next_stale: 0,
        }
    }

    /// The release this resolver resolves.
    pub fn version(&self) -> (r: &String)
        ensures
            r@ == self@.version,
    {
        &self.version
    }

    /// The path returned by the last successful resolution, if any.
    pub fn cached_binary_path(&self) -> (r: Option<&String>)
        ensures
            match r {
                Some(p) => self@.cached == Some(p@),
                None => self@.cached is None,
            },
    {
        match &self.cached_binary_path {
            Some(p) => Some(p),
            None => None,
        }
    }

    /// The reply the resolver waits for.
    pub fn phase(&self) -> (r: Phase)
        ensures
            r == self@.phase,
    {
        self.phase
    }

    /// Ends the resolution with `r`.
    fn finish(&mut self, r: Result<String, ResolveError>) -> (a: Action)
        ensures
            (final(self)@, a@) == finish(old(self)@, outcome_view(r)),
    {
        match &r {
            Ok(p) => {
                self.cached_binary_path = Some(p.clone());
            },
            Err(_) => {},
        }
        self.phase = Phase::Idle;
        Action::Finish(r)
    }

    /// Goes on after the cache did not hold.
    fn on_cache_miss(&mut self) -> (a: Action)
        ensures
            (final(self)@, a@) == on_cache_miss(old(self)@),
    {
        if identify(self.platform) == PlatformTag::Unknown {
            self.phase = Phase::Warning;
            Action::WarnUnsupported(self.platform)
        } else {
            self.phase = Phase::Announcing;
            Action::Notify(InstallStatus::CheckingForUpdate)
        }
    }

    /// Asks for the next stale entry to be removed, or ends the resolution.
    fn next_removal(&mut self) -> (a: Action)
        ensures
            (final(self)@, a@) == next_removal(old(self)@),
    {
        if self.next_stale < self.stale.len() {
            let d = self.stale[self.next_stale].clone();
            self.next_stale = self.next_stale + 1;
            self.phase = Phase::Pruning;
            assert(self@.stale =~= old(self)@.stale.drop_first());
            Action::RemoveDir(d)
        } else {
            let p = self.binary_path.clone();
            self.finish(Ok(p))
        }
    }

    /// Picks the two archives out of the release's assets.
    fn on_release(&mut self, assets: Vec<Asset>) -> (a: Action)
        ensures
            (final(self)@, a@) == on_release(old(self)@, assets_view(assets@)),
    {
        let name = asset_name(identify(self.platform), self.version.as_str());
        match find_asset(&assets, &name) {
            None => self.finish(Err(ResolveError::AssetNotFound(name))),
            Some(i) => {
                let aux_name = String::from_str("typeshed.zip");
                match find_asset(&assets, &aux_name) {
                    None => self.finish(Err(ResolveError::AssetNotFound(aux_name))),
                    Some(j) => {
                        let p = binary_path(self.version.as_str(), self.platform.os);
                        self.binary_path = p.clone();
                        self.server_url = assets[i].download_url.clone();
                        self.aux_url = assets[j].download_url.clone();
                        self.phase = Phase::CheckingBinary;
                        Action::CheckFile(p)
                    },
                }
            },
        }
    }

    /// Takes the host's next event and says what the host must do next.
    pub fn step(&mut self, e: Event) -> (a: Action)
        ensures
            (final(self)@, a@) == next(old(self)@, e@),
    {
        match (self.phase, e) {
            (_, Event::Start(p)) => {
                self.platform = p;
                match &self.cached_binary_path {
                    Some(c) => {
                        let c = c.clone();
                        self.phase = Phase::CheckingCache;
                        Action::CheckFile(c)
                    },
                    None => self.on_cache_miss(),
                }
            },
            (Phase::CheckingCache, Event::FileStatus(is_file)) => {
                match &self.cached_binary_path {
                    Some(c) => {
                        if is_file {
                            let c = c.clone();
                            self.finish(Ok(c))
                        } else {
                            self.on_cache_miss()
                        }
                    },
                    None => self.on_cache_miss(),
                }
            },
            (Phase::Warning, Event::Ack) => {
                self.phase = Phase::Announcing;
                Action::Notify(InstallStatus::CheckingForUpdate)
            },
            (Phase::Announcing, Event::Ack) => {
                self.phase = Phase::CreatingDir;
                Action::CreateDir(self.version.clone())
            },
            (Phase::CreatingDir, Event::Done(r)) => match r {
                Ok(_) => {
                    self.phase = Phase::FetchingRelease;
                    Action::FetchRelease {
                        repository: String::from_str("odoo/odoo-ls"),
                        tag: self.version.clone(),
                    }
                },
                Err(c) => {
                    let m = String::from_str("failed to create version directory: ").concat(c.as_str());
                    self.finish(Err(ResolveError::DirectoryProvisioning(m)))
                },
            },
            (Phase::FetchingRelease, Event::Release(r)) => match r {
                Ok(assets) => self.on_release(assets),
                Err(c) => self.finish(Err(ResolveError::Metadata(c))),
            },
            (Phase::CheckingBinary, Event::FileStatus(is_file)) => {
                if is_file {
                    let p = self.binary_path.clone();
                    self.finish(Ok(p))
                } else {
                    self.phase = Phase::ClearingAux;
                    Action::RemoveDirIfExists(aux_dir(self.version.as_str()))
                }
            },
            (Phase::ClearingAux, Event::Done(r)) => match r {
                Ok(_) => {
                    self.phase = Phase::AnnouncingServerDownload;
                    Action::Notify(InstallStatus::Downloading)
                },
                Err(c) => self.finish(Err(ResolveError::DirectoryProvisioning(c))),
            },
            (Phase::AnnouncingServerDownload, Event::Ack) => {
                self.phase = Phase::DownloadingServer;
                Action::Download { url: self.server_url.clone(), dir: self.version.clone() }
            },
            (Phase::DownloadingServer, Event::Done(r)) => match r {
                Ok(_) => {
                    self.phase = Phase::AnnouncingAuxDownload;
                    Action::Notify(InstallStatus::Downloading)
                },
                Err(c) => self.finish(Err(ResolveError::Download(c))),
            },
            (Phase::AnnouncingAuxDownload, Event::Ack) => {
                self.phase = Phase::DownloadingAux;
                Action::Download { url: self.aux_url.clone(), dir: self.version.clone() }
            },
            (Phase::DownloadingAux, Event::Done(r)) => match r {
                Ok(_) => {
                    self.phase = Phase::MarkingExecutable;
                    Action::MakeExecutable(self.binary_path.clone())
                },
                Err(c) => self.finish(Err(ResolveError::Download(c))),
            },
            (Phase::MarkingExecutable, Event::Done(r)) => match r {
                Ok(_) => {
                    self.phase = Phase::Listing;
                    Action::ListRoot
                },
                Err(c) => self.finish(Err(ResolveError::Permission(c))),
            },
            (Phase::Listing, Event::Entries(r)) => match r {
                Ok(entries) => {
                    self.stale = stale_names(&entries, &self.version);
                    self.next_stale = 0;
                    assert(self@.stale =~= stale_entries(strings_view(entries@), self.version@));
                    self.next_removal()
                },
                Err(_) => {
                    let p = self.binary_path.clone();
                    self.finish(Ok(p))
                },
            },
            (Phase::Pruning, Event::Done(_)) => self.next_removal(),
            _ => self.finish(Err(ResolveError::OutOfOrder)),
        }
    }
}

} // verus!
