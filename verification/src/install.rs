//! Installing the downloader and its TikTok helper: which interpreters to
//! try, what to ask the package installer for, and how to read the
//! downloader's answers.

use vstd::prelude::*;
use crate::text::{texts, push_arg, concat2, owned, str_contains, has_substr, trim, trim_ws};

verus! {

broadcast use vstd::string::group_string_axioms;

/// The interpreters tried, in order, to install the TikTok helper.
pub open spec fn python_candidates_spec(windows: bool) -> Seq<Seq<char>> {
    if windows {
        seq!["python"@, "python3"@, "py"@]
    } else {
        seq!["python3"@, "python"@, "/usr/bin/python3"@, "/usr/local/bin/python3"@]
    }
}

/// The interpreters tried, in order, to install the TikTok helper.
pub fn python_candidates(windows: bool) -> (r: Vec<String>)
    ensures
        texts(r@) == python_candidates_spec(windows),
{
    let mut r: Vec<String> = Vec::new();
    if windows {
        push_arg(&mut r, "python");
        push_arg(&mut r, "python3");
        push_arg(&mut r, "py");
    } else {
        push_arg(&mut r, "python3");
        push_arg(&mut r, "python");
        push_arg(&mut r, "/usr/bin/python3");
        push_arg(&mut r, "/usr/local/bin/python3");
    }
    assert(texts(r@) =~= python_candidates_spec(windows));
    r
}

/// The interpreter that installs the downloader itself.
pub fn default_python(windows: bool) -> (r: String)
    ensures
        r@ == if windows {
            "python"@
        } else {
            "python3"@
        },
{
    if windows {
        owned("python")
    } else {
        owned("python3")
    }
}

/// The interpreter arguments that install or upgrade `packages`.
pub open spec fn pip_install_args_spec(packages: Seq<Seq<char>>) -> Seq<Seq<char>> {
    seq!["-m"@, "pip"@, "install"@, "--upgrade"@] + packages
}

/// The interpreter arguments that install or upgrade `packages`.
pub fn pip_install_args(packages: &Vec<String>) -> (r: Vec<String>)
    ensures
        texts(r@) == pip_install_args_spec(texts(packages@)),
{
    let mut r: Vec<String> = Vec::new();
    push_arg(&mut r, "-m");
    push_arg(&mut r, "pip");
    push_arg(&mut r, "install");
    push_arg(&mut r, "--upgrade");
    crate::text::push_all_args(&mut r, packages);
    r
}

/// The packages of a full install: the downloader and the TikTok helper.
pub open spec fn full_install_packages() -> Seq<Seq<char>> {
    seq!["yt-dlp"@, "curl_cffi"@]
}

/// The packages of a full install.
pub fn full_install() -> (r: Vec<String>)
    ensures
        texts(r@) == pip_install_args_spec(full_install_packages()),
{
    let mut p: Vec<String> = Vec::new();
    push_arg(&mut p, "yt-dlp");
    push_arg(&mut p, "curl_cffi");
    assert(texts(p@) =~= full_install_packages());
    pip_install_args(&p)
}

/// The packages of a helper install: the TikTok helper alone.
pub fn helper_install() -> (r: Vec<String>)
    ensures
        texts(r@) == pip_install_args_spec(seq!["curl_cffi"@]),
{
    let mut p: Vec<String> = Vec::new();
    push_arg(&mut p, "curl_cffi");
    assert(texts(p@) =~= seq!["curl_cffi"@]);
    pip_install_args(&p)
}

/// The downloader can impersonate a browser when listing its targets
/// succeeded and names chrome.
pub fn impersonation_supported(success: bool, stdout: &str) -> (b: bool)
    ensures
        b == (success && has_substr(stdout@, "chrome"@)),
{
    success && str_contains(stdout, "chrome")
}

/// The version the downloader reports: its output without surrounding
/// white space.
pub fn reported_version(stdout: &str) -> (r: String)
    ensures
        r@ == trim_ws(stdout@),
{
    trim(stdout)
}

/// The release of the downloader for Windows.
pub const WINDOWS_RELEASE_URL: &'static str =
    "https://github.com/yt-dlp/yt-dlp/releases/latest/download/yt-dlp.exe";

/// The release of the downloader for other systems.
pub const UNIX_RELEASE_URL: &'static str =
    "https://github.com/yt-dlp/yt-dlp/releases/latest/download/yt-dlp";

/// The roaming application data folder assumed for `user` when none is
/// set.
pub fn default_app_data(user: &str) -> (r: String)
    ensures
        r@ == "C:\\Users\\"@ + user@ + "\\AppData\\Roaming"@,
{
    let mut r = concat2("C:\\Users\\", user);
    r.append("\\AppData\\Roaming");
    r
}

/// The shell command that fetches `url` to `dest` when the transfer tool
/// failed on Windows.
pub fn powershell_fetch_command(url: &str, dest: &str) -> (r: String)
    ensures
        r@ == "Invoke-WebRequest -Uri '"@ + url@ + "' -OutFile '"@ + dest@ + "'"@,
{
    let mut r = concat2("Invoke-WebRequest -Uri '", url);
    r.append("' -OutFile '");
    r.append(dest);
    r.append("'");
    r
}

/// The downloader program looked up on the search path at start.
pub fn default_ytdlp_program(windows: bool) -> (r: String)
    ensures
        r@ == if windows {
            "yt-dlp.exe"@
        } else {
            "yt-dlp"@
        },
{
    if windows {
        owned("yt-dlp.exe")
    } else {
        owned("yt-dlp")
    }
}

/// What the TikTok helper installation does next: try the next
/// interpreter, or finish with whether an attempt succeeded.
#[derive(Clone, Debug)]
pub enum HelperStep {
    Try(String),
    Finished(bool),
}

/// The next step of the helper installation after `tried` interpreters,
/// the last of which succeeded or not (`last_ok`; `false` before the
/// first): finish on the first success, else try the next candidate, else
/// give up.
pub open spec fn helper_step_matches(r: HelperStep, windows: bool, tried: nat, last_ok: bool) -> bool {
    let cands = python_candidates_spec(windows);
    match r {
        HelperStep::Finished(b) => if last_ok {
            b
        } else {
            tried >= cands.len() && !b
        },
        HelperStep::Try(p) => !last_ok && tried < cands.len() && p@ == cands[tried as int],
    }
}

/// The next step of the helper installation.
pub fn helper_next(windows: bool, tried: usize, last_ok: bool) -> (r: HelperStep)
    ensures
        helper_step_matches(r, windows, tried as nat, last_ok),
{
    if last_ok {
        return HelperStep::Finished(true);
    }
    let cands = python_candidates(windows);
    if tried < cands.len() {
        let p = cands[tried].clone();
        assert(texts(cands@)[tried as int] == cands@[tried as int]@);
        HelperStep::Try(p)
    } else {
        HelperStep::Finished(false)
    }
}

/// The user folder assumed when no home folder is set.
pub const HOME_FALLBACK: &'static str = "/tmp";

/// The folder a fetched release goes to: the downloader's folder in the
/// roaming application data on Windows, `~/.local/bin` elsewhere.
pub fn release_folder(windows: bool, home: &str, app_data: &str) -> (r: String)
    ensures
        r@ == if windows {
            app_data@ + "\\yt-playlist-downloader"@
        } else {
            home@ + "/.local/bin"@
        },
{
    if windows {
        concat2(app_data, "\\yt-playlist-downloader")
    } else {
        concat2(home, "/.local/bin")
    }
}

/// The file a fetched release is saved as.
pub fn release_target(windows: bool, home: &str, app_data: &str) -> (r: String)
    ensures
        r@ == if windows {
            app_data@ + "\\yt-playlist-downloader\\yt-dlp.exe"@
        } else {
            home@ + "/.local/bin/yt-dlp"@
        },
{
    if windows {
        concat2(app_data, "\\yt-playlist-downloader\\yt-dlp.exe")
    } else {
        concat2(home, "/.local/bin/yt-dlp")
    }
}

/// The release for the system.
pub open spec fn release_url_of(windows: bool) -> Seq<char> {
    if windows {
        WINDOWS_RELEASE_URL@
    } else {
        UNIX_RELEASE_URL@
    }
}

/// The transfer tool arguments that fetch the release to `target`.
pub fn release_fetch_args(windows: bool, target: &str) -> (r: Vec<String>)
    ensures
        texts(r@) == seq!["-sL"@, release_url_of(windows), "-o"@, target@],
{
    let mut r: Vec<String> = Vec::new();
    push_arg(&mut r, "-sL");
    if windows {
        push_arg(&mut r, WINDOWS_RELEASE_URL);
    } else {
        push_arg(&mut r, UNIX_RELEASE_URL);
    }
    push_arg(&mut r, "-o");
    push_arg(&mut r, target);
    assert(texts(r@) =~= seq!["-sL"@, release_url_of(windows), "-o"@, target@]);
    r
}

/// The shell arguments of the second way to fetch the Windows release.
pub fn release_powershell_args(target: &str) -> (r: Vec<String>)
    ensures
        texts(r@) == seq![
            "-NoProfile"@,
            "-Command"@,
            "Invoke-WebRequest -Uri '"@ + WINDOWS_RELEASE_URL@ + "' -OutFile '"@ + target@ + "'"@,
        ],
{
    let mut r: Vec<String> = Vec::new();
    push_arg(&mut r, "-NoProfile");
    push_arg(&mut r, "-Command");
    let c = powershell_fetch_command(WINDOWS_RELEASE_URL, target);
    push_arg(&mut r, c.as_str());
    assert(texts(r@) =~= seq![
        "-NoProfile"@,
        "-Command"@,
        "Invoke-WebRequest -Uri '"@ + WINDOWS_RELEASE_URL@ + "' -OutFile '"@ + target@ + "'"@,
    ]);
    r
}

/// The error when the Windows release could not be fetched either way.
pub const WINDOWS_FETCH_ERROR: &'static str =
    "Failed to download yt-dlp. Install manually: pip install yt-dlp curl_cffi";

/// The error when the release could not be fetched elsewhere.
pub const UNIX_FETCH_ERROR: &'static str =
    "Failed to install yt-dlp. Install manually: pip install yt-dlp or download from https://github.com/yt-dlp/yt-dlp";

/// The error of an installer driven out of order.
pub const STEP_ORDER_ERROR: &'static str = "installer step out of order";

/// Where an installation of the downloader stands.
#[derive(PartialEq, Eq, Structural, Clone, Copy, Debug)]
pub enum InstallState {
    /// Nothing done yet.
    Start,
    /// The package installer runs.
    Installing,
    /// The installed downloader reports its version.
    CheckingInstalled,
    /// The release folder is being made.
    PreparingFolder,
    /// The release is fetched with the transfer tool.
    Fetching,
    /// The Windows release is fetched with the shell.
    FetchingAgain,
    /// The fetched release is made executable.
    MakingExecutable,
    /// The fetched release is taken into use and the helper installed.
    InstallingHelper,
    /// The fetched release reports its version.
    CheckingFetched,
    /// The installation has ended.
    Finished,
}

/// What the caller observed after the last action.
#[derive(Clone, Debug)]
pub enum InstallEvent {
    /// The installation starts.
    Begin,
    /// A tool ran; `ok` when it started and exited successfully.
    Ran { ok: bool },
    /// The release folder was made, or not (with the error text).
    FolderMade { failed: Option<String> },
    /// A fetch ran (`ok` as for [`InstallEvent::Ran`]) and the target file
    /// exists or not.
    Fetched { ok: bool, exists: bool },
    /// The downloader ran with `--version`.
    VersionRan { ok: bool, stdout: String },
    /// The downloader could not be started (with the error text).
    VersionFailed { error: String },
}

/// What the caller does next.
#[derive(Clone, Debug)]
pub enum InstallAction {
    /// Run [`default_python`] with [`full_install`].
    RunInstaller,
    /// Run the downloader in use with `--version`.
    CheckVersion,
    /// Make the [`release_folder`].
    PrepareFolder,
    /// Run the transfer tool with [`release_fetch_args`].
    FetchWithCurl,
    /// Run the shell with [`release_powershell_args`].
    FetchWithPowerShell,
    /// Mark the [`release_target`] executable.
    MakeExecutable,
    /// Use the [`release_target`] as the downloader and install the TikTok
    /// helper (its outcome does not matter).
    UseFetchedProgram,
    /// Refresh the impersonation support and return the version.
    Succeed(String),
    /// Return the error.
    Fail(String),
}

/// The meaning of an [`InstallAction`], with its texts as sequences.
pub enum InstallStep {
    RunInstaller,
    CheckVersion,
    PrepareFolder,
    FetchWithCurl,
    FetchWithPowerShell,
    MakeExecutable,
    UseFetchedProgram,
    Succeed(Seq<char>),
    Fail(Seq<char>),
}

/// The meaning of an action.
pub open spec fn step_of(a: InstallAction) -> InstallStep {
    match a {
        InstallAction::RunInstaller => InstallStep::RunInstaller,
        InstallAction::CheckVersion => InstallStep::CheckVersion,
        InstallAction::PrepareFolder => InstallStep::PrepareFolder,
        InstallAction::FetchWithCurl => InstallStep::FetchWithCurl,
        InstallAction::FetchWithPowerShell => InstallStep::FetchWithPowerShell,
        InstallAction::MakeExecutable => InstallStep::MakeExecutable,
        InstallAction::UseFetchedProgram => InstallStep::UseFetchedProgram,
        InstallAction::Succeed(v) => InstallStep::Succeed(v@),
        InstallAction::Fail(e) => InstallStep::Fail(e@),
    }
}

/// The installation steps: the package installer first, and when it or
/// the installed downloader fails, the release fetched into the release
/// folder (on Windows with the transfer tool, then the shell; elsewhere
/// with the transfer tool, then made executable), taken into use with the
/// helper, and asked for its version.
pub open spec fn install_next_spec(state: InstallState, event: InstallEvent, windows: bool) -> (InstallState, InstallStep) {
    let fallback = (InstallState::PreparingFolder, InstallStep::PrepareFolder);
    let out_of_order = (InstallState::Finished, InstallStep::Fail(STEP_ORDER_ERROR@));
    match (state, event) {
        (InstallState::Start, InstallEvent::Begin) => (InstallState::Installing, InstallStep::RunInstaller),
        (InstallState::Installing, InstallEvent::Ran { ok }) => if ok {
            (InstallState::CheckingInstalled, InstallStep::CheckVersion)
        } else {
            fallback
        },
        (InstallState::CheckingInstalled, InstallEvent::VersionRan { ok, stdout }) => if ok {
            (InstallState::Finished, InstallStep::Succeed(trim_ws(stdout@)))
        } else {
            fallback
        },
        (InstallState::CheckingInstalled, InstallEvent::VersionFailed { error }) => (
            InstallState::Finished,
            InstallStep::Fail("yt-dlp version check failed: "@ + error@),
        ),
        (InstallState::PreparingFolder, InstallEvent::FolderMade { failed }) => match failed {
            Some(e) => if windows {
                (InstallState::Finished, InstallStep::Fail("Cannot create dir: "@ + e@))
            } else {
                (InstallState::Fetching, InstallStep::FetchWithCurl)
            },
            None => (InstallState::Fetching, InstallStep::FetchWithCurl),
        },
        (InstallState::Fetching, InstallEvent::Fetched { ok, exists }) => if ok && exists {
            if windows {
                (InstallState::InstallingHelper, InstallStep::UseFetchedProgram)
            } else {
                (InstallState::MakingExecutable, InstallStep::MakeExecutable)
            }
        } else if windows {
            (InstallState::FetchingAgain, InstallStep::FetchWithPowerShell)
        } else {
            (InstallState::Finished, InstallStep::Fail(UNIX_FETCH_ERROR@))
        },
        (InstallState::FetchingAgain, InstallEvent::Fetched { ok, exists }) => if ok && exists {
            (InstallState::InstallingHelper, InstallStep::UseFetchedProgram)
        } else {
            (InstallState::Finished, InstallStep::Fail(WINDOWS_FETCH_ERROR@))
        },
        (InstallState::MakingExecutable, InstallEvent::Ran { .. }) => (
            InstallState::InstallingHelper,
            InstallStep::UseFetchedProgram,
        ),
        (InstallState::InstallingHelper, InstallEvent::Ran { .. }) => (
            InstallState::CheckingFetched,
            InstallStep::CheckVersion,
        ),
        (InstallState::CheckingFetched, InstallEvent::VersionRan { stdout, .. }) => (
            InstallState::Finished,
            InstallStep::Succeed(trim_ws(stdout@)),
        ),
        (InstallState::CheckingFetched, InstallEvent::VersionFailed { error }) => (
            InstallState::Finished,
            InstallStep::Fail("yt-dlp version check failed: "@ + error@),
        ),
        _ => out_of_order,
    }
}

/// The next state and action of an installation after `event`.
pub fn install_next(state: InstallState, event: InstallEvent, windows: bool) -> (r: (InstallState, InstallAction))
    ensures
        r.0 == install_next_spec(state, event, windows).0,
        step_of(r.1) == install_next_spec(state, event, windows).1,
{
    match (state, event) {
        (InstallState::Start, InstallEvent::Begin) => (InstallState::Installing, InstallAction::RunInstaller),
        (InstallState::Installing, InstallEvent::Ran { ok }) => if ok {
            (InstallState::CheckingInstalled, InstallAction::CheckVersion)
        } else {
            (InstallState::PreparingFolder, InstallAction::PrepareFolder)
        },
        (InstallState::CheckingInstalled, InstallEvent::VersionRan { ok, stdout }) => if ok {
            (InstallState::Finished, InstallAction::Succeed(reported_version(stdout.as_str())))
        } else {
            (InstallState::PreparingFolder, InstallAction::PrepareFolder)
        },
        (InstallState::CheckingInstalled, InstallEvent::VersionFailed { error }) => (
            InstallState::Finished,
            InstallAction::Fail(concat2("yt-dlp version check failed: ", error.as_str())),
        ),
        (InstallState::PreparingFolder, InstallEvent::FolderMade { failed }) => match failed {
            Some(e) => if windows {
                (InstallState::Finished, InstallAction::Fail(concat2("Cannot create dir: ", e.as_str())))
            } else {
                (InstallState::Fetching, InstallAction::FetchWithCurl)
            },
            None => (InstallState::Fetching, InstallAction::FetchWithCurl),
        },
        (InstallState::Fetching, InstallEvent::Fetched { ok, exists }) => if ok && exists {
            if windows {
                (InstallState::InstallingHelper, InstallAction::UseFetchedProgram)
            } else {
                (InstallState::MakingExecutable, InstallAction::MakeExecutable)
            }
        } else if windows {
            (InstallState::FetchingAgain, InstallAction::FetchWithPowerShell)
        } else {
            (InstallState::Finished, InstallAction::Fail(owned(UNIX_FETCH_ERROR)))
        },
        (InstallState::FetchingAgain, InstallEvent::Fetched { ok, exists }) => if ok && exists {
            (InstallState::InstallingHelper, InstallAction::UseFetchedProgram)
        } else {
            (InstallState::Finished, InstallAction::Fail(owned(WINDOWS_FETCH_ERROR)))
        },
        (InstallState::MakingExecutable, InstallEvent::Ran { .. }) => (
            InstallState::InstallingHelper,
            InstallAction::UseFetchedProgram,
        ),
        (InstallState::InstallingHelper, InstallEvent::Ran { .. }) => (
            InstallState::CheckingFetched,
            InstallAction::CheckVersion,
        ),
        (InstallState::CheckingFetched, InstallEvent::VersionRan { stdout, .. }) => (
            InstallState::Finished,
            InstallAction::Succeed(reported_version(stdout.as_str())),
        ),
        (InstallState::CheckingFetched, InstallEvent::VersionFailed { error }) => (
            InstallState::Finished,
            InstallAction::Fail(concat2("yt-dlp version check failed: ", error.as_str())),
        ),
        _ => (InstallState::Finished, InstallAction::Fail(owned(STEP_ORDER_ERROR))),
    }
}

/// The order of the installation states.
pub open spec fn install_rank(s: InstallState) -> nat {
    match s {
        InstallState::Start => 0,
        InstallState::Installing => 1,
        InstallState::CheckingInstalled => 2,
        InstallState::PreparingFolder => 3,
        InstallState::Fetching => 4,
        InstallState::FetchingAgain => 5,
        InstallState::MakingExecutable => 6,
        InstallState::InstallingHelper => 7,
        InstallState::CheckingFetched => 8,
        InstallState::Finished => 9,
    }
}

/// An installation ends: every step from an unfinished state moves to a
/// later state, so at most nine steps are taken; and it ends exactly when
/// the action returns a version or an error.
pub proof fn lemma_install_progresses(state: InstallState, event: InstallEvent, windows: bool)
    ensures
        state != InstallState::Finished ==> install_rank(install_next_spec(state, event, windows).0)
            > install_rank(state),
        (install_next_spec(state, event, windows).0 == InstallState::Finished) <==> (
        install_next_spec(state, event, windows).1 is Succeed || install_next_spec(
            state,
            event,
            windows,
        ).1 is Fail),
{
}

/// A version is returned only after the downloader reported it.
pub proof fn lemma_install_success_follows_version(state: InstallState, event: InstallEvent, windows: bool)
    ensures
        install_next_spec(state, event, windows).1 is Succeed ==> (state
            == InstallState::CheckingInstalled || state == InstallState::CheckingFetched)
            && event is VersionRan,
{
}

} // verus!
