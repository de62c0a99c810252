use vstd::prelude::*;
use crate::config::{CommandSettings, get_binary_args, get_binary_path};
use crate::names::{
    ends_with, has_suffix, join_path, lemma_suffix_of_suffix, otp_suffix, otp_suffix_of, path_in, same_text,
    version_dir_name, version_dir_of,
};
use crate::platform::{asset_name, asset_name_of, scheme_supports, Architecture, AssetScheme, Os};
use crate::store::{
    find_existing_binary, holds_install, outdated_paths, removal_paths, texts, InstallEntry,
};

verus! {

/// What one language server brings to the shared resolution algorithm.
pub struct ServerProfile {
    /// The settings key, the prefix of install directories, and the stem of their names.
    pub server_id: String,
    /// The executable's file name, looked up on the search path and inside installs.
    pub binary_name: String,
    /// The first word of the server's asset names.
    pub asset_stem: String,
    /// The `owner/name` of the project whose releases are fetched.
    pub repository: String,
    pub scheme: AssetScheme,
    /// The arguments used when the settings give none.
    pub default_args: Vec<String>,
    /// The runtime version tag used when the settings give none.
    pub default_otp: String,
    /// A tag used on Windows whatever the settings say, where there is one.
    pub windows_otp: Option<String>,
}

/// What the host read of a worktree's settings for one server.
pub struct Settings {
    /// The `otp_version` field of the server's settings document.
    pub otp_version: Option<String>,
    /// The server's launch override.
    pub binary: Option<CommandSettings>,
}

/// A downloadable file of a release.
pub struct ReleaseAsset {
    pub name: String,
    pub download_url: String,
}

/// The latest release of a project.
pub struct Release {
    pub version: String,
    pub assets: Vec<ReleaseAsset>,
}

/// Why a resolution failed.
pub enum ResolveError {
    /// The release index was unreachable and no local install matched.
    Unresolvable,
    /// The server publishes no asset for this architecture.
    UnsupportedArchitecture(Architecture),
    /// The latest release holds no asset of the expected name.
    NoMatchingAsset(String),
    /// Downloading or unpacking the asset failed, for the reason given.
    DownloadFailed(String),
    /// The install root could not be listed for pruning, for the reason given.
    ListFailed(String),
    /// The host answered with an event that the current stage does not await.
    UnexpectedEvent,
}

/// Where a resolution stands: the event it awaits next.
#[derive(Clone, Copy, Debug, PartialEq, Eq, Structural)]
pub enum Stage {
    AwaitPath,
    AwaitCacheCheck,
    AwaitRelease,
    AwaitScan,
    AwaitInstallCheck,
    AwaitDownload,
    AwaitListing,
    AwaitRemoval,
    Finished,
}

/// What the host is asked to do next.
pub enum Action {
    /// Look the executable name up on the worktree's search path; answer `PathFound`.
    FindOnPath(String),
    /// Tell whether the path names a regular file; answer `FileChecked`.
    CheckFile(String),
    /// Report that updates are checked, then fetch the latest non-prerelease
    /// release with assets of the repository; answer `ReleaseFetched`.
    FetchLatestRelease(String),
    /// List the install root, marking which directories hold the executable;
    /// answer `Installs`.
    ScanInstalls,
    /// Report the download, then fetch the gzipped tar at `url` and unpack it
    /// into the directory `dir`; answer `Downloaded`.
    Download { url: String, dir: String },
    /// List the install root; answer `Listed`.
    ListInstalls,
    /// Remove each of these directories with its contents, ignoring failures;
    /// answer `Removed`.
    Remove(Vec<String>),
    /// The resolution is over: the executable's path, or why there is none.
    Finish(Result<String, ResolveError>),
}

/// What the host reports after an action.
pub enum Event {
    PathFound(Option<String>),
    FileChecked(bool),
    /// `None` where the release index could not be read.
    ReleaseFetched(Option<Release>),
    Installs(Vec<InstallEntry>),
    Downloaded(Result<(), String>),
    /// The entries of the install root, or why it could not be listed.
    Listed(Result<Vec<InstallEntry>, String>),
    Removed,
}

/// One resolution in progress.
pub struct Resolution {
    /// The runtime version tag wanted.
    pub otp_version: String,
    /// The arguments to launch the server with.
    pub args: Vec<String>,
    pub os: Os,
    pub arch: Architecture,
    pub stage: Stage,
    /// The executable path under check, or to be returned.
    pub candidate: String,
    /// The asset name looked for in the latest release.
    pub asset: String,
    /// The directory that a download fills.
    pub version_dir: String,
    /// Where the asset is downloaded from.
    pub download_url: String,
}

pub open spec fn runtime_tag_of(p: ServerProfile, os: Os, configured: Option<String>) -> Seq<char> {
    if os == Os::Windows && p.windows_otp is Some {
        p.windows_otp->0@
    } else {
        match configured {
            Some(t) => t@,
            None => p.default_otp@,
        }
    }
}

pub open spec fn launch_args_of(p: ServerProfile, binary: Option<CommandSettings>) -> Seq<String> {
    if binary is Some && binary->0.arguments is Some {
        binary->0.arguments->0@
    } else {
        p.default_args@
    }
}

/// `otp-{tag}/{binary}`: the tail of any executable installed for `tag`.
pub open spec fn install_tail(tag: Seq<char>, binary: Seq<char>) -> Seq<char> {
    path_in(otp_suffix_of(tag), binary)
}

/// The cached path may be served for this tag, if its file still exists.
pub open spec fn cache_fits(cache: Option<String>, tag: Seq<char>, binary: Seq<char>) -> bool {
    cache is Some && has_suffix(cache->0@, install_tail(tag, binary))
}

pub open spec fn finishes_with(a: Action, path: Seq<char>) -> bool {
    a is Finish && a->Finish_0 is Ok && a->Finish_0->Ok_0@ == path
}

/// The resolution's fixed parts and, per stage, what its fields hold.
pub open spec fn well_formed(p: ServerProfile, r: Resolution) -> bool {
    &&& (r.stage == Stage::AwaitCacheCheck ==> has_suffix(r.candidate@, install_tail(r.otp_version@, p.binary_name@)))
    &&& (r.stage == Stage::AwaitRelease || r.stage == Stage::AwaitScan) ==> r.asset@ == asset_name_of(
        p.scheme,
        p.asset_stem@,
        r.os,
        r.arch,
        r.otp_version@,
    )
    &&& (r.stage == Stage::AwaitInstallCheck || r.stage == Stage::AwaitDownload || r.stage
        == Stage::AwaitListing || r.stage == Stage::AwaitRemoval) ==> (r.candidate@ == path_in(
        r.version_dir@,
        p.binary_name@,
    ) && has_suffix(r.version_dir@, otp_suffix_of(r.otp_version@)))
}

/// After a stage that leaves the cache and the search path behind: either the
/// architecture has no asset and the resolution fails before any request, or
/// the latest release is asked for.
pub open spec fn goes_remote(p: ServerProfile, r: Resolution, a: Action) -> bool {
    if scheme_supports(p.scheme, r.arch) {
        a is FetchLatestRelease && a->FetchLatestRelease_0@ == p.repository@ && r.stage
            == Stage::AwaitRelease
    } else {
        a == Action::Finish(Err(ResolveError::UnsupportedArchitecture(r.arch))) && r.stage
            == Stage::Finished
    }
}

/// A directory whose name ends in `otp-{tag}` holds its executable at a path
/// that the cache check accepts for `tag`: so whatever a resolution caches is
/// served again by the next one with the same tag while the file exists.
pub proof fn lemma_install_path_fits(dir: Seq<char>, tag: Seq<char>, binary: Seq<char>)
    requires
        has_suffix(dir, otp_suffix_of(tag)),
    ensures
        has_suffix(path_in(dir, binary), install_tail(tag, binary)),
{
    let s = otp_suffix_of(tag);
    let full = path_in(dir, binary);
    let tail = install_tail(tag, binary);
    let d = dir.len() - s.len();
    assert forall|k: int| 0 <= k < tail.len() implies full.subrange(full.len() - tail.len(), full.len() as int)[k]
        == tail[k] by {
        if k < s.len() {
            assert(dir.subrange(d, dir.len() as int)[k] == s[k]);
        }
    }
    assert(full.subrange(full.len() - tail.len(), full.len() as int) =~= tail);
}

/// The version directory of any release for `tag` ends in `otp-{tag}`.
pub proof fn lemma_version_dir_suffix(id: Seq<char>, version: Seq<char>, tag: Seq<char>)
    ensures
        has_suffix(version_dir_of(id, version, tag), otp_suffix_of(tag)),
{
    let v = version_dir_of(id, version, tag);
    let s = otp_suffix_of(tag);
    assert(v.subrange(v.len() - s.len(), v.len() as int) =~= s);
}

/// The runtime version tag that a resolution wants.
pub fn runtime_tag(p: &ServerProfile, os: Os, configured: &Option<String>) -> (r: String)
    ensures
        r@ == runtime_tag_of(*p, os, *configured),
{
    match (&p.windows_otp, os) {
        (Some(t), Os::Windows) => t.clone(),
        _ => match configured {
            Some(t) => t.clone(),
            None => p.default_otp.clone(),
        },
    }
}

/// The arguments that a resolution launches the server with.
pub fn launch_args(p: &ServerProfile, binary: &Option<CommandSettings>) -> (r: Vec<String>)
    ensures
        r@ == launch_args_of(*p, *binary),
{
    match get_binary_args(binary) {
        Some(a) => a,
        None => {
            let a = p.default_args.clone();
            assert(a@ =~= p.default_args@);
            a
        },
    }
}

/// Starts a resolution. A configured executable path ends it at once,
/// whatever the search path, the cache and the network hold; otherwise the
/// executable is first looked up on the search path.
pub fn begin(p: &ServerProfile, settings: &Settings, os: Os, arch: Architecture) -> (out: (
    Resolution,
    Action,
))
    ensures
        well_formed(*p, out.0),
        out.0.otp_version@ == runtime_tag_of(*p, os, settings.otp_version),
        out.0.args@ == launch_args_of(*p, settings.binary),
        out.0.os == os,
        out.0.arch == arch,
        settings.binary is Some && settings.binary->0.path is Some ==> finishes_with(
            out.1,
            settings.binary->0.path->0@,
        ) && out.0.stage == Stage::Finished,
        !(settings.binary is Some && settings.binary->0.path is Some) ==> out.1 is FindOnPath
            && out.1->FindOnPath_0@ == p.binary_name@ && out.0.stage == Stage::AwaitPath,
{
    let otp_version = runtime_tag(p, os, &settings.otp_version);
    let args = launch_args(p, &settings.binary);
    let mut res = Resolution {
        otp_version,
        args,
        os,
        arch,
        stage: Stage::AwaitPath,
        candidate: String::new(),
        asset: String::new(),
        version_dir: String::new(),
        download_url: String::new(),
    };
    match get_binary_path(&settings.binary) {
        Some(path) => {
            res.stage = Stage::Finished;
            (res, Action::Finish(Ok(path)))
        },
        None => (res, Action::FindOnPath(p.binary_name.clone())),
    }
}

/// Leaves the local shortcuts behind: fails on an architecture without
/// assets, else asks for the latest release.
fn go_remote(p: &ServerProfile, res: &mut Resolution) -> (a: Action)
    requires
        well_formed(*p, *old(res)),
    ensures
        well_formed(*p, *final(res)),
        goes_remote(*p, *final(res), a),
        final(res).otp_version == old(res).otp_version,
        final(res).args == old(res).args,
        final(res).os == old(res).os,
        final(res).arch == old(res).arch,
{
    match asset_name(p.scheme, p.asset_stem.as_str(), res.os, res.arch, res.otp_version.as_str()) {
        None => {
            res.stage = Stage::Finished;
            Action::Finish(Err(ResolveError::UnsupportedArchitecture(res.arch)))
        },
        Some(name) => {
            res.asset = name;
            res.stage = Stage::AwaitRelease;
            Action::FetchLatestRelease(p.repository.clone())
        },
    }
}

/// The first asset of the release named `name`, if any.
pub fn find_asset(assets: &Vec<ReleaseAsset>, name: &str) -> (r: Option<usize>)
    ensures
        r is None <==> forall|i: int| 0 <= i < assets@.len() ==> #[trigger] assets@[i].name@ != name@,
        r is Some ==> r->0 < assets@.len() && assets@[r->0 as int].name@ == name@ && forall|j: int|
            0 <= j < r->0 ==> #[trigger] assets@[j].name@ != name@,
{
    let mut i: usize = 0;
    while i < assets.len()
        invariant
            i <= assets@.len(),
            forall|j: int| 0 <= j < i ==> #[trigger] assets@[j].name@ != name@,
        decreases assets@.len() - i,
    {
        if same_text(assets[i].name.as_str(), name) {
            return Some(i);
        }
        i = i + 1;
    }
    None
}

/// Takes the host's answer to the last action and returns the next action.
/// The executable is searched for in this order: the search path, the cache
/// (only while its file exists and it was built for the wanted tag), the
/// latest release (served from its directory when already unpacked, else
/// downloaded and followed by pruning of stale installs), and, where the
/// release index cannot be read, any local install for the wanted tag.
pub fn advance(p: &ServerProfile, res: &mut Resolution, cache: &mut Option<String>, event: Event) -> (a:
    Action)
    requires
        well_formed(*p, *old(res)),
    ensures
        well_formed(*p, *final(res)),
        final(res).otp_version == old(res).otp_version,
        final(res).args == old(res).args,
        final(res).os == old(res).os,
        final(res).arch == old(res).arch,
        // whatever is cached is served again for the same tag
        *final(cache) != *old(cache) ==> cache_fits(*final(cache), old(res).otp_version@, p.binary_name@),
        // no request but from the stages that lead to it, and never for an
        // architecture without assets
        a is FetchLatestRelease ==> scheme_supports(p.scheme, old(res).arch) && (old(res).stage
            == Stage::AwaitPath || old(res).stage == Stage::AwaitCacheCheck),
        a is Download ==> old(res).stage == Stage::AwaitInstallCheck,
        a is Finish <==> final(res).stage == Stage::Finished,
        // past the search path, only an executable installed for the wanted
        // tag is returned: a stale or mismatched cache is never served
        old(res).stage != Stage::AwaitPath && a is Finish && a->Finish_0 is Ok ==> has_suffix(
            a->Finish_0->Ok_0@,
            install_tail(old(res).otp_version@, p.binary_name@),
        ),
        // a path found locally or installed is cached, so that the next
        // resolution for the same tag checks only that its file still exists
        (old(res).stage == Stage::AwaitScan || old(res).stage == Stage::AwaitInstallCheck
            || old(res).stage == Stage::AwaitRemoval) && a is Finish && a->Finish_0 is Ok
            ==> *final(cache) == Some(a->Finish_0->Ok_0),
        // once a release is chosen, its directory, executable path and asset
        // address stay fixed until the resolution ends
        old(res).stage == Stage::AwaitInstallCheck || old(res).stage == Stage::AwaitDownload
            || old(res).stage == Stage::AwaitListing || old(res).stage == Stage::AwaitRemoval ==> (
        final(res).candidate == old(res).candidate && final(res).version_dir == old(res).version_dir
            && final(res).download_url == old(res).download_url),
        match (old(res).stage, event) {
            (Stage::AwaitPath, Event::PathFound(Some(found))) => finishes_with(a, found@) && *final(cache)
                == *old(cache),
            (Stage::AwaitPath, Event::PathFound(None)) => *final(cache) == *old(cache) && if cache_fits(
                *old(cache),
                old(res).otp_version@,
                p.binary_name@,
            ) {
                a is CheckFile && a->CheckFile_0 == old(cache)->0 && final(res).stage
                    == Stage::AwaitCacheCheck && final(res).candidate == old(cache)->0
            } else {
                goes_remote(*p, *final(res), a)
            },
            (Stage::AwaitCacheCheck, Event::FileChecked(exists)) => *final(cache) == *old(cache) && if exists {
                finishes_with(a, old(res).candidate@)
            } else {
                goes_remote(*p, *final(res), a)
            },
            (Stage::AwaitRelease, Event::ReleaseFetched(None)) => a is ScanInstalls && final(res).stage
                == Stage::AwaitScan && *final(cache) == *old(cache),
            (Stage::AwaitRelease, Event::ReleaseFetched(Some(release))) => *final(cache) == *old(cache) && if exists|
                i: int,
            | 0 <= i < release.assets@.len() && #[trigger] release.assets@[i].name@ == old(res).asset@ {
                a is CheckFile && final(res).stage == Stage::AwaitInstallCheck && final(res).version_dir@
                    == version_dir_of(p.server_id@, release.version@, old(res).otp_version@)
                    && a->CheckFile_0@ == path_in(final(res).version_dir@, p.binary_name@)
                    && final(res).candidate@ == a->CheckFile_0@ && exists|k: int|
                    0 <= k < release.assets@.len() && release.assets@[k].name@ == old(res).asset@
                    && (forall|j: int| 0 <= j < k ==> #[trigger] release.assets@[j].name@ != old(res).asset@)
                    && final(res).download_url == release.assets@[k].download_url
            } else {
                a == Action::Finish(Err(ResolveError::NoMatchingAsset(old(res).asset)))
            },
            (Stage::AwaitScan, Event::Installs(entries)) => if exists|i: int|
                0 <= i < entries@.len() && holds_install(#[trigger] entries@[i], p.server_id@, old(res).otp_version@) {
                exists|k: int|
                    0 <= k < entries@.len() && holds_install(entries@[k], p.server_id@, old(res).otp_version@)
                        && (forall|j: int| 0 <= j < k ==> !holds_install(#[trigger] entries@[j], p.server_id@, old(res).otp_version@))
                        && finishes_with(a, path_in(entries@[k].path@, p.binary_name@))
                        && *final(cache) == Some(a->Finish_0->Ok_0)
            } else {
                a == Action::Finish(Err(ResolveError::Unresolvable)) && *final(cache) == *old(cache)
            },
            (Stage::AwaitInstallCheck, Event::FileChecked(exists)) => if exists {
                finishes_with(a, old(res).candidate@) && *final(cache) == Some(old(res).candidate)
            } else {
                a == (Action::Download { url: old(res).download_url, dir: old(res).version_dir })
                    && final(res).stage == Stage::AwaitDownload && *final(cache) == *old(cache)
            },
            (Stage::AwaitDownload, Event::Downloaded(Err(reason))) => a == Action::Finish(
                Err(ResolveError::DownloadFailed(reason)),
            ) && *final(cache) == *old(cache),
            (Stage::AwaitDownload, Event::Downloaded(Ok(()))) => a is ListInstalls && final(res).stage
                == Stage::AwaitListing && *final(cache) == *old(cache),
            (Stage::AwaitListing, Event::Listed(Err(reason))) => a == Action::Finish(
                Err(ResolveError::ListFailed(reason)),
            ) && *final(cache) == *old(cache),
            (Stage::AwaitListing, Event::Listed(Ok(entries))) => a is Remove && texts(a->Remove_0@)
                == removal_paths(entries@, p.server_id@, old(res).otp_version@, old(res).version_dir@)
                && final(res).stage == Stage::AwaitRemoval && *final(cache) == *old(cache),
            (Stage::AwaitRemoval, Event::Removed) => finishes_with(a, old(res).candidate@) && *final(cache)
                == Some(old(res).candidate),
            _ => a == Action::Finish(Err(ResolveError::UnexpectedEvent)) && *final(cache) == *old(cache),
        },
{
    let tag = res.otp_version.as_str();
    match (res.stage, event) {
        (Stage::AwaitPath, Event::PathFound(Some(found))) => {
            res.stage = Stage::Finished;
            Action::Finish(Ok(found))
        },
        (Stage::AwaitPath, Event::PathFound(None)) => {
            let fits = match cache {
                Some(c) => {
                    let tail = join_path(otp_suffix(tag).as_str(), p.binary_name.as_str());
                    ends_with(c.as_str(), tail.as_str())
                },
                None => false,
            };
            if fits {
                let c = cache.clone().unwrap();
                res.candidate = c.clone();
                res.stage = Stage::AwaitCacheCheck;
                Action::CheckFile(c)
            } else {
                go_remote(p, res)
            }
        },
        (Stage::AwaitCacheCheck, Event::FileChecked(exists)) => {
            if exists {
                res.stage = Stage::Finished;
                Action::Finish(Ok(res.candidate.clone()))
            } else {
                go_remote(p, res)
            }
        },
        (Stage::AwaitRelease, Event::ReleaseFetched(None)) => {
            res.stage = Stage::AwaitScan;
            Action::ScanInstalls
        },
        (Stage::AwaitRelease, Event::ReleaseFetched(Some(release))) => {
            match find_asset(&release.assets, res.asset.as_str()) {
                None => {
                    res.stage = Stage::Finished;
                    Action::Finish(Err(ResolveError::NoMatchingAsset(res.asset.clone())))
                },
                Some(k) => {
                    let dir = version_dir_name(p.server_id.as_str(), release.version.as_str(), tag);
                    let path = join_path(dir.as_str(), p.binary_name.as_str());
                    proof {
                        lemma_version_dir_suffix(p.server_id@, release.version@, res.otp_version@);
                    }
                    res.download_url = release.assets[k].download_url.clone();
                    res.version_dir = dir;
                    res.candidate = path.clone();
                    res.stage = Stage::AwaitInstallCheck;
                    Action::CheckFile(path)
                },
            }
        },
        (Stage::AwaitScan, Event::Installs(entries)) => {
            match find_existing_binary(&entries, p.server_id.as_str(), tag, p.binary_name.as_str()) {
                Some(found) => {
                    proof {
                        let k = choose|k: int|
                            0 <= k < entries@.len() && holds_install(entries@[k], p.server_id@, res.otp_version@)
                                && (forall|j: int| 0 <= j < k ==> !holds_install(#[trigger] entries@[j], p.server_id@, res.otp_version@))
                                && found@ == path_in(entries@[k].path@, p.binary_name@);
                        lemma_suffix_of_suffix(entries@[k].path@, entries@[k].name->0@, otp_suffix_of(res.otp_version@));
                        lemma_install_path_fits(entries@[k].path@, res.otp_version@, p.binary_name@);
                    }
                    *cache = Some(found.clone());
                    res.stage = Stage::Finished;
                    Action::Finish(Ok(found))
                },
                None => {
                    res.stage = Stage::Finished;
                    Action::Finish(Err(ResolveError::Unresolvable))
                },
            }
        },
        (Stage::AwaitInstallCheck, Event::FileChecked(exists)) => {
            if exists {
                proof {
                    lemma_install_path_fits(res.version_dir@, res.otp_version@, p.binary_name@);
                }
                *cache = Some(res.candidate.clone());
                res.stage = Stage::Finished;
                Action::Finish(Ok(res.candidate.clone()))
            } else {
                res.stage = Stage::AwaitDownload;
                Action::Download { url: res.download_url.clone(), dir: res.version_dir.clone() }
            }
        },
        (Stage::AwaitDownload, Event::Downloaded(Err(reason))) => {
            res.stage = Stage::Finished;
            Action::Finish(Err(ResolveError::DownloadFailed(reason)))
        },
        (Stage::AwaitDownload, Event::Downloaded(Ok(()))) => {
            res.stage = Stage::AwaitListing;
            Action::ListInstalls
        },
        (Stage::AwaitListing, Event::Listed(Err(reason))) => {
            res.stage = Stage::Finished;
            Action::Finish(Err(ResolveError::ListFailed(reason)))
        },
        (Stage::AwaitListing, Event::Listed(Ok(entries))) => {
            let paths = outdated_paths(&entries, p.server_id.as_str(), tag, res.version_dir.as_str());
            res.stage = Stage::AwaitRemoval;
            Action::Remove(paths)
        },
        (Stage::AwaitRemoval, Event::Removed) => {
            proof {
                lemma_install_path_fits(res.version_dir@, res.otp_version@, p.binary_name@);
            }
            *cache = Some(res.candidate.clone());
            res.stage = Stage::Finished;
            Action::Finish(Ok(res.candidate.clone()))
        },
        _ => {
            res.stage = Stage::Finished;
            Action::Finish(Err(ResolveError::UnexpectedEvent))
        },
    }
}

} // verus!
