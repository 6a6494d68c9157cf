//! The decisions of `init`, `forge`, `setup` and `check` around their
//! input and output: when to refuse, what to download, what to report.
use vstd::prelude::*;

use crate::errors::RefineryError;
use crate::schema::config::RefineryConfig;
use crate::text::{cat, chars_of, concat, owned, str_eq};
use crate::workflow::actions::{SWEET_DEFAULT_VERSION, SWEET_REPO};

verus! {

/// `refinery init` refuses to overwrite `refinery.toml` unless forced.
///
/// # Errors
/// When the file exists and `force` is off.
pub fn init_allowed(config_exists: bool, force: bool) -> (r: Result<(), RefineryError>)
    ensures
        r is Ok <==> (!config_exists || force),
        r matches Err(e) ==> e matches RefineryError::Generic(m) && m@
            == "Configuration file 'refinery.toml' already exists. Use --force to overwrite."@,
{
    if config_exists && !force {
        return Err(
            RefineryError::Generic(
                owned(
                    "Configuration file 'refinery.toml' already exists. Use --force to overwrite.",
                ),
            ),
        );
    }
    Ok(())
}

/// `refinery forge` writes the workflow unless it exists and is not
/// forced (it then only warns).
pub fn forge_writes(workflow_exists: bool, force: bool) -> (r: bool)
    ensures
        r == (!workflow_exists || force),
{
    !workflow_exists || force
}

/// Targets can be configured once an artifact is declared.
pub fn can_configure_targets(config: &RefineryConfig) -> (r: bool)
    ensures
        r == (config@.binaries.len() > 0 || config@.libraries.len() > 0),
{
    config.binaries.len() > 0 || config.libraries.len() > 0
}

/// Where the `sweet` test runner is downloaded from, and where it is saved.
pub struct SweetDownload {
    pub url: String,
    pub bin_path: String,
}

/// Windows, the only seven-letter system name, gets `.exe` binaries.
pub open spec fn windows_like(os: Seq<char>) -> bool {
    os.len() == 7
}

/// The release asset of `sweet` for a platform.
pub open spec fn sweet_url(os: Seq<char>, arch: Seq<char>) -> Seq<char> {
    SWEET_REPO@ + "/releases/download/"@ + SWEET_DEFAULT_VERSION@ + "/sweet-"@ + os + "-"@ + arch
        + if windows_like(os) {
        ".exe"@
    } else {
        ""@
    }
}

/// The download of `sweet` for the platform the program runs on.
pub fn sweet_download(os: &str, arch: &str) -> (r: SweetDownload)
    ensures
        r.url@ == sweet_url(os@, arch@),
        r.bin_path@ == if windows_like(os@) {
            "sweet.exe"@
        } else {
            "sweet"@
        },
{
    let windows = chars_of(os).len() == 7;
    let mut url = concat(SWEET_REPO, "/releases/download/");
    url = cat(url, SWEET_DEFAULT_VERSION);
    url = cat(url, "/sweet-");
    url = cat(url, os);
    url = cat(url, "-");
    url = cat(url, arch);
    url = cat(url, if windows {
        ".exe"
    } else {
        ""
    });
    let bin_path = if windows {
        owned("sweet.exe")
    } else {
        owned("sweet")
    };
    SweetDownload { url, bin_path }
}

/// A message of `refinery check`.
pub enum Notice {
    Success(String),
    Warn(String),
    Info(String),
}

/// The messages for the latest published version against the running one.
pub fn version_notices(latest: &str, current: &str) -> (r: Vec<Notice>)
    ensures
        latest@ == current@ ==> r@.len() == 1 && (r@[0] matches Notice::Success(m) && m@
            == "You are on the latest version (v"@ + current@ + ")"@),
        latest@ != current@ ==> r@.len() == 3 && (r@[0] matches Notice::Warn(m) && m@
            == "A new version is available on crates.io: v"@ + latest@) && (r@[1] matches Notice::Info(
            m,
        ) && m@ == "To update, run: cargo install refinery-rs"@) && (r@[2] matches Notice::Info(
            m,
        ) && m@ == "Check the changelog at: https://github.com/SirCesarium/refinery-rs/releases"@),
{
    let mut r: Vec<Notice> = Vec::new();
    if str_eq(latest, current) {
        r.push(Notice::Success(cat(concat("You are on the latest version (v", current), ")")));
    } else {
        r.push(Notice::Warn(concat("A new version is available on crates.io: v", latest)));
        r.push(Notice::Info(owned("To update, run: cargo install refinery-rs")));
        r.push(
            Notice::Info(
                owned("Check the changelog at: https://github.com/SirCesarium/refinery-rs/releases"),
            ),
        );
    }
    r
}

/// The message for an unsuccessful answer of crates.io.
pub fn status_notice(not_found: bool, status: &str) -> (r: Notice)
    ensures
        not_found ==> (r matches Notice::Warn(m) && m@
            == "Crate 'refinery-rs' not found on crates.io yet."@),
        !not_found ==> (r matches Notice::Warn(m) && m@ == "Crates.io returned an error: "@
            + status@),
{
    if not_found {
        Notice::Warn(owned("Crate 'refinery-rs' not found on crates.io yet."))
    } else {
        Notice::Warn(concat("Crates.io returned an error: ", status))
    }
}

} // verus!
