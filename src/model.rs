use vstd::prelude::*;

use crate::platform::{is_supported, tag_of, tag_text, Os, Platform, PlatformTag};

verus! {

/// Where a resolution stands: which reply the resolver waits for.
#[derive(Clone, Copy, Debug, PartialEq, Eq, Structural)]
pub enum Phase {
    /// No resolution in progress.
    Idle,
    /// Asked whether the cached binary path is still a regular file.
    CheckingCache,
    /// Warned that the platform has no published assets.
    Warning,
    /// Reported that it checks for an update.
    Announcing,
    /// Asked for the version directory to be created.
    CreatingDir,
    /// Asked for the release metadata.
    FetchingRelease,
    /// Asked whether the binary already lies in the version directory.
    CheckingBinary,
    /// Asked for the old auxiliary data directory to be removed.
    ClearingAux,
    /// Reported that it downloads the server archive.
    AnnouncingServerDownload,
    /// Asked for the server archive to be downloaded and unpacked.
    DownloadingServer,
    /// Reported that it downloads the auxiliary archive.
    AnnouncingAuxDownload,
    /// Asked for the auxiliary archive to be downloaded and unpacked.
    DownloadingAux,
    /// Asked for the binary to be made executable.
    MarkingExecutable,
    /// Asked for the entries of the working root.
    Listing,
    /// Asked for one stale directory to be removed.
    Pruning,
}

/// Status reports that the host shows while a binary is being resolved.
#[derive(Clone, Copy, Debug, PartialEq, Eq, Structural)]
pub enum InstallStatus {
    CheckingForUpdate,
    Downloading,
}

/// An event, with strings as character sequences.
pub enum EventModel {
    Start(Platform),
    FileStatus(bool),
    Ack,
    Done(Result<(), Seq<char>>),
    Release(Result<Seq<(Seq<char>, Seq<char>)>, Seq<char>>),
    Entries(Result<Seq<Seq<char>>, Seq<char>>),
}

/// A resolution error, with strings as character sequences.
pub enum ErrorModel {
    DirectoryProvisioning(Seq<char>),
    Metadata(Seq<char>),
    AssetNotFound(Seq<char>),
    Download(Seq<char>),
    Permission(Seq<char>),
    OutOfOrder,
}

/// An action, with strings as character sequences.
pub enum ActionModel {
    CheckFile(Seq<char>),
    Notify(InstallStatus),
    WarnUnsupported(Platform),
    CreateDir(Seq<char>),
    FetchRelease { repository: Seq<char>, tag: Seq<char> },
    RemoveDirIfExists(Seq<char>),
    Download { url: Seq<char>, dir: Seq<char> },
    MakeExecutable(Seq<char>),
    ListRoot,
    RemoveDir(Seq<char>),
    Finish(Result<Seq<char>, ErrorModel>),
}

/// The state of a resolver.
pub struct ResolverModel {
    /// The release that is wanted; also the name of its directory.
    pub version: Seq<char>,
    /// The path returned by the last successful resolution.
    pub cached: Option<Seq<char>>,
    pub phase: Phase,
    /// The platform of the resolution in progress.
    pub platform: Platform,
    /// Where the binary of the wanted release lies.
    pub binary_path: Seq<char>,
    /// Download location of the server archive.
    pub server_url: Seq<char>,
    /// Download location of the auxiliary archive.
    pub aux_url: Seq<char>,
    /// Stale entries of the working root still to be removed.
    pub stale: Seq<Seq<char>>,
}

/// The repository whose releases hold the server.
pub open spec fn repository_text() -> Seq<char> {
    "odoo/odoo-ls"@
}

/// What precedes the cause when the version directory cannot be created.
pub open spec fn create_dir_failure_text() -> Seq<char> {
    "failed to create version directory: "@
}

/// The name of the auxiliary archive.
pub open spec fn aux_asset_text() -> Seq<char> {
    "typeshed.zip"@
}

/// Name of the server archive for a platform tag and a version.
pub open spec fn asset_name_of(t: PlatformTag, version: Seq<char>) -> Seq<char> {
    "odoo-"@ + tag_text(t) + "-"@ + version + ".zip"@
}

/// File name of the server binary on an operating system.
pub open spec fn binary_name_of(os: Os) -> Seq<char> {
    if os == Os::Windows {
        "odoo_ls_server.exe"@
    } else {
        "odoo_ls_server"@
    }
}

/// Path of the server binary inside the directory of a version.
pub open spec fn binary_path_of(version: Seq<char>, os: Os) -> Seq<char> {
    version + "/"@ + binary_name_of(os)
}

/// Path of the auxiliary data directory inside the directory of a version.
pub open spec fn aux_dir_of(version: Seq<char>) -> Seq<char> {
    version + "/typeshed"@
}

/// `i` is the first position of an asset named `name`.
pub open spec fn is_first_match(assets: Seq<(Seq<char>, Seq<char>)>, name: Seq<char>, i: int) -> bool {
    &&& 0 <= i < assets.len()
    &&& assets[i].0 == name
    &&& forall|j: int| 0 <= j < i ==> assets[j].0 != name
}

/// The position of the first asset named `name`, if any.
pub open spec fn first_match(assets: Seq<(Seq<char>, Seq<char>)>, name: Seq<char>) -> Option<int> {
    if exists|i: int| 0 <= i < assets.len() && assets[i].0 == name {
        Some(choose|i: int| is_first_match(assets, name, i))
    } else {
        None
    }
}

/// Ends the resolution with `r`; a path that was found becomes the cache.
pub open spec fn finish(pre: ResolverModel, r: Result<Seq<char>, ErrorModel>) -> (ResolverModel, ActionModel) {
    let cached = match r {
        Ok(p) => Some(p),
        Err(_) => pre.cached,
    };
    (ResolverModel { phase: Phase::Idle, cached, ..pre }, ActionModel::Finish(r))
}

/// The cache did not hold: warn of an unsupported platform, else report
/// that an update is being checked for.
pub open spec fn on_cache_miss(pre: ResolverModel) -> (ResolverModel, ActionModel) {
    if is_supported(pre.platform) {
        (ResolverModel { phase: Phase::Announcing, ..pre }, ActionModel::Notify(InstallStatus::CheckingForUpdate))
    } else {
        (ResolverModel { phase: Phase::Warning, ..pre }, ActionModel::WarnUnsupported(pre.platform))
    }
}

/// Removes the next stale entry, or ends the resolution with the installed
/// binary when none is left.
pub open spec fn next_removal(pre: ResolverModel) -> (ResolverModel, ActionModel) {
    if pre.stale.len() > 0 {
        (
            ResolverModel { phase: Phase::Pruning, stale: pre.stale.drop_first(), ..pre },
            ActionModel::RemoveDir(pre.stale[0]),
        )
    } else {
        finish(pre, Ok(pre.binary_path))
    }
}

/// The release metadata arrived: both archives must be among its assets.
pub open spec fn on_release(pre: ResolverModel, assets: Seq<(Seq<char>, Seq<char>)>) -> (ResolverModel, ActionModel) {
    let name = asset_name_of(tag_of(pre.platform), pre.version);
    match first_match(assets, name) {
        None => finish(pre, Err(ErrorModel::AssetNotFound(name))),
        Some(i) => match first_match(assets, aux_asset_text()) {
            None => finish(pre, Err(ErrorModel::AssetNotFound(aux_asset_text()))),
            Some(j) => {
                let binary_path = binary_path_of(pre.version, pre.platform.os);
                (
                    ResolverModel {
                        phase: Phase::CheckingBinary,
                        binary_path,
                        server_url: assets[i].1,
                        aux_url: assets[j].1,
                        ..pre
                    },
                    ActionModel::CheckFile(binary_path),
                )
            },
        },
    }
}

/// Entries of the working root other than the directory of `version`.
pub open spec fn stale_entries(entries: Seq<Seq<char>>, version: Seq<char>) -> Seq<Seq<char>> {
    entries.filter(is_stale(version))
}

/// An entry of the working root is stale when it is not the directory of `version`.
pub open spec fn is_stale(version: Seq<char>) -> spec_fn(Seq<char>) -> bool {
    |n: Seq<char>| n != version
}

/// The resolver's transition: the next state and the action to perform
/// when `e` arrives in state `pre`. A `Start` begins a new resolution in
/// any phase; any other event that the phase does not wait for ends the
/// resolution with `OutOfOrder`.
pub open spec fn next(pre: ResolverModel, e: EventModel) -> (ResolverModel, ActionModel) {
    match (pre.phase, e) {
        (_, EventModel::Start(p)) => {
            let s = ResolverModel { platform: p, ..pre };
            match pre.cached {
                Some(c) => (ResolverModel { phase: Phase::CheckingCache, ..s }, ActionModel::CheckFile(c)),
                None => on_cache_miss(s),
            }
        },
        (Phase::CheckingCache, EventModel::FileStatus(is_file)) => {
            if is_file && pre.cached is Some {
                finish(pre, Ok(pre.cached->0))
            } else {
                on_cache_miss(pre)
            }
        },
        (Phase::Warning, EventModel::Ack) => (
            ResolverModel { phase: Phase::Announcing, ..pre },
            ActionModel::Notify(InstallStatus::CheckingForUpdate),
        ),
        (Phase::Announcing, EventModel::Ack) => (
            ResolverModel { phase: Phase::CreatingDir, ..pre },
            ActionModel::CreateDir(pre.version),
        ),
        (Phase::CreatingDir, EventModel::Done(r)) => match r {
            Ok(_) => (
                ResolverModel { phase: Phase::FetchingRelease, ..pre },
                ActionModel::FetchRelease { repository: repository_text(), tag: pre.version },
            ),
            Err(c) => finish(
                pre,
                Err(ErrorModel::DirectoryProvisioning(create_dir_failure_text() + c)),
            ),
        },
        (Phase::FetchingRelease, EventModel::Release(r)) => match r {
            Ok(assets) => on_release(pre, assets),
            Err(c) => finish(pre, Err(ErrorModel::Metadata(c))),
        },
        (Phase::CheckingBinary, EventModel::FileStatus(is_file)) => {
            if is_file {
                finish(pre, Ok(pre.binary_path))
            } else {
                (
                    ResolverModel { phase: Phase::ClearingAux, ..pre },
                    ActionModel::RemoveDirIfExists(aux_dir_of(pre.version)),
                )
            }
        },
        (Phase::ClearingAux, EventModel::Done(r)) => match r {
            Ok(_) => (
                ResolverModel { phase: Phase::AnnouncingServerDownload, ..pre },
                ActionModel::Notify(InstallStatus::Downloading),
            ),
            Err(c) => finish(pre, Err(ErrorModel::DirectoryProvisioning(c))),
        },
        (Phase::AnnouncingServerDownload, EventModel::Ack) => (
            ResolverModel { phase: Phase::DownloadingServer, ..pre },
            ActionModel::Download { url: pre.server_url, dir: pre.version },
        ),
        (Phase::DownloadingServer, EventModel::Done(r)) => match r {
            Ok(_) => (
                ResolverModel { phase: Phase::AnnouncingAuxDownload, ..pre },
                ActionModel::Notify(InstallStatus::Downloading),
            ),
            Err(c) => finish(pre, Err(ErrorModel::Download(c))),
        },
        (Phase::AnnouncingAuxDownload, EventModel::Ack) => (
            ResolverModel { phase: Phase::DownloadingAux, ..pre },
            ActionModel::Download { url: pre.aux_url, dir: pre.version },
        ),
        (Phase::DownloadingAux, EventModel::Done(r)) => match r {
            Ok(_) => (
                ResolverModel { phase: Phase::MarkingExecutable, ..pre },
                ActionModel::MakeExecutable(pre.binary_path),
            ),
            Err(c) => finish(pre, Err(ErrorModel::Download(c))),
        },
        (Phase::MarkingExecutable, EventModel::Done(r)) => match r {
            Ok(_) => (ResolverModel { phase: Phase::Listing, ..pre }, ActionModel::ListRoot),
            Err(c) => finish(pre, Err(ErrorModel::Permission(c))),
        },
        (Phase::Listing, EventModel::Entries(r)) => match r {
            Ok(entries) => next_removal(
                ResolverModel { stale: stale_entries(entries, pre.version), ..pre },
            ),
            Err(_) => finish(pre, Ok(pre.binary_path)),
        },
        (Phase::Pruning, EventModel::Done(_)) => next_removal(pre),
        _ => finish(pre, Err(ErrorModel::OutOfOrder)),
    }
}

/// The states and actions of a resolver fed `events` in turn: the last state
/// and every action, in order.
pub open spec fn run(pre: ResolverModel, events: Seq<EventModel>) -> (ResolverModel, Seq<ActionModel>)
    decreases events.len(),
{
    if events.len() == 0 {
        (pre, Seq::empty())
    } else {
        let (mid, a) = next(pre, events[0]);
        let (post, rest) = run(mid, events.drop_first());
        (post, seq![a] + rest)
    }
}

} // verus!
