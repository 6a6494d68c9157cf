//! Versions of the third-party GitHub Actions and tools the pipelines use.
use vstd::prelude::*;

use super::types::StrPairs;
use crate::text::owned;

verus! {

pub const CHECKOUT: &'static str = "actions/checkout@v6.0.2";

pub const RUST_TOOLCHAIN: &'static str = "dtolnay/rust-toolchain@stable";

pub const RUST_CACHE: &'static str = "Swatinem/rust-cache@v2";

pub const UPLOAD_ARTIFACT: &'static str = "actions/upload-artifact@v4";

pub const DOWNLOAD_ARTIFACT: &'static str = "actions/download-artifact@v4";

pub const SOFTPROPS_RELEASE: &'static str = "softprops/action-gh-release@v2";

pub const SWEET_REPO: &'static str = "https://github.com/SirCesarium/sweet";

pub const SWEET_DEFAULT_VERSION: &'static str = "v0.1.0";

pub const SWEET_BINARY: &'static str = "swt-linux-x86_64";

/// The permissions granted to the release pipeline.
pub open spec fn default_permissions_model() -> Seq<(Seq<char>, Seq<char>)> {
    seq![("contents"@, "write"@), ("packages"@, "write"@)]
}

/// The permissions granted to the release pipeline: write access to the
/// repository contents (releases) and to packages.
pub fn default_permissions() -> (r: StrPairs)
    ensures
        r.deep_view() == default_permissions_model(),
{
    let mut m: StrPairs = Vec::new();
    m.push((owned("contents"), owned("write")));
    m.push((owned("packages"), owned("write")));
    assert(m.deep_view() =~= default_permissions_model());
    m
}

} // verus!
