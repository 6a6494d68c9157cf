//! Installer packaging: which packagers a configuration needs, which
//! `Cargo.toml` metadata they read, and the manifest edits around them.
use vstd::prelude::*;

use crate::builder::{metadata_key_of, missing_metadata_error, packaging_metadata_key};
use crate::errors::RefineryError;
use crate::schema::config::{gnu_of, musl_of, RefineryConfig};
use crate::schema::document::{
    get_str, graft, insert_item1, kind1, kind2, kind3, parse_document, prune, remove1, str_at, subtree,
    toml_parse, Entries, TomlPath,
};
use crate::schema::metadata::{render_manifest, renders, str_or, CargoMetadata};
use crate::schema::targets::{MatrixModel, TargetMatrix, TargetsModel};
use crate::text::{owned, str_eq, strings_of};

verus! {

/// The packagers a configuration's targets ask for.
pub struct PackagingNeeds {
    pub deb: bool,
    pub rpm: bool,
    pub wix: bool,
}

/// The matrix, if present, lists package format `p`.
pub open spec fn lists(m: Option<MatrixModel>, p: Seq<char>) -> bool {
    m matches Some(x) && x.pkg.contains(p)
}

/// A Linux matrix lists package format `p`.
pub open spec fn linux_lists(t: TargetsModel, p: Seq<char>) -> bool {
    lists(gnu_of(t), p) || lists(musl_of(t), p)
}

fn names_contain(names: &Vec<String>, p: &str) -> (r: bool)
    ensures
        r == names.deep_view().contains(p@),
{
    let mut i: usize = 0;
    while i < names.len()
        invariant
            i <= names@.len(),
            forall|j: int| 0 <= j < i ==> names.deep_view()[j] != p@,
        decreases names@.len() - i,
    {
        if str_eq(names[i].as_str(), p) {
            assert(names.deep_view()[i as int] == p@);
            return true;
        }
        i = i + 1;
    }
    false
}

fn matrix_lists(m: &Option<TargetMatrix>, p: &str) -> (r: bool)
    ensures
        r == lists(m.deep_view(), p@),
{
    match m {
        Some(x) => names_contain(&x.pkg, p),
        None => false,
    }
}

/// The packagers the targets ask for: `deb` and `rpm` from the Linux
/// matrices, WiX for `msi` on Linux or Windows.
pub fn packaging_needs(config: &RefineryConfig) -> (r: PackagingNeeds)
    ensures
        r.deb == linux_lists(config@.targets, "deb"@),
        r.rpm == linux_lists(config@.targets, "rpm"@),
        r.wix == (linux_lists(config@.targets, "msi"@) || lists(config@.targets.windows, "msi"@)),
{
    let (deb, rpm, linux_msi) = match &config.targets.linux {
        Some(l) => (
            matrix_lists(&l.gnu, "deb") || matrix_lists(&l.musl, "deb"),
            matrix_lists(&l.gnu, "rpm") || matrix_lists(&l.musl, "rpm"),
            matrix_lists(&l.gnu, "msi") || matrix_lists(&l.musl, "msi"),
        ),
        None => (false, false, false),
    };
    let wix = linux_msi || matrix_lists(&config.targets.windows, "msi");
    PackagingNeeds { deb, rpm, wix }
}

/// Linux packages are wanted but one of the fields they need (authors,
/// description, license, repository) is empty: the program warns.
pub fn check_missing_fields(deb: bool, rpm: bool, meta: &CargoMetadata) -> (r: bool)
    ensures
        r == ((deb || rpm) && (meta.authors@.len() == 0 || meta.description@.len() == 0
            || meta.license@.len() == 0 || meta.repository@.len() == 0)),
{
    (deb || rpm) && (meta.authors.len() == 0 || meta.description.as_str().is_empty()
        || meta.license.as_str().is_empty() || meta.repository.as_str().is_empty())
}

/// The package fields the installer setup asks for, because they are empty.
pub struct MissingFields {
    pub authors: bool,
    pub license: bool,
    pub description: bool,
    pub repository: bool,
}

/// The package fields the installer setup asks for.
pub fn missing_fields(meta: &CargoMetadata) -> (r: MissingFields)
    ensures
        r.authors == (meta.authors@.len() == 0),
        r.license == (meta.license@.len() == 0),
        r.description == (meta.description@.len() == 0),
        r.repository == (meta.repository@.len() == 0),
{
    MissingFields {
        authors: meta.authors.len() == 0,
        license: meta.license.as_str().is_empty(),
        description: meta.description.as_str().is_empty(),
        repository: meta.repository.as_str().is_empty(),
    }
}

/// The arguments of `cargo wix init`: `--force` when forced or when the
/// user agreed to overwrite existing files.
pub fn wix_init_args(force: bool, overwrite: bool) -> (r: Vec<String>)
    ensures
        r.deep_view() == if force || overwrite {
            seq!["wix"@, "init"@, "--force"@]
        } else {
            seq!["wix"@, "init"@]
        },
{
    let r = if force || overwrite {
        strings_of(&["wix", "init", "--force"])
    } else {
        strings_of(&["wix", "init"])
    };
    assert(r.deep_view() =~= if force || overwrite {
        seq!["wix"@, "init"@, "--force"@]
    } else {
        seq!["wix"@, "init"@]
    });
    r
}

/// The entries with what stood at `from` moved to `to`.
pub open spec fn moved(m: Entries, from: TomlPath, to: TomlPath) -> Entries {
    graft(prune(prune(m, from), to), to, subtree(m, from))
}

/// Moves `[lib]` to `[lib-disabled]` in a `Cargo.toml` text, so that
/// `cargo deb` packages a musl build without a shared library. `None` when
/// there is no `[lib]`.
///
/// # Errors
/// When the text is not TOML.
pub fn disable_lib_section(content: &str) -> (r: Result<Option<String>, RefineryError>)
    ensures
        match toml_parse(content@) {
            None => r matches Err(RefineryError::Toml(_)),
            Some(m) => if m.contains_key(seq!["lib"@]) {
                r matches Ok(Some(s)) && renders(s@, moved(m, seq!["lib"@], seq!["lib-disabled"@]))
            } else {
                r matches Ok(None)
            },
        },
{
    let mut doc = match parse_document(content) {
        Ok(d) => d,
        Err(e) => return Err(RefineryError::Toml(e)),
    };
    if kind1(&doc, "lib").is_none() {
        return Ok(None);
    }
    match remove1(&mut doc, "lib") {
        Some(item) => {
            insert_item1(&mut doc, "lib-disabled", item);
            Ok(Some(render_manifest(&doc)))
        },
        None => Ok(None),
    }
}

/// The name of a file whose extension (what follows its last `.`, the
/// name not being only a leading dot) is `so`, in any letter case: the
/// name ends in `.so` and holds something before that dot.
pub open spec fn shared_object_name(name: Seq<char>) -> bool {
    &&& name.len() >= 4
    &&& name[name.len() - 3] == '.'
    &&& (name[name.len() - 2] == 's' || name[name.len() - 2] == 'S')
    &&& (name[name.len() - 1] == 'o' || name[name.len() - 1] == 'O')
}

/// Whether a file name is that of a shared object (`*.so`).
pub fn is_shared_object(name: &str) -> (r: bool)
    ensures
        r == shared_object_name(name@),
{
    let cs = crate::text::chars_of(name);
    let n = cs.len();
    if n < 4 {
        return false;
    }
    let dot = cs[n - 3] == '.';
    let s = cs[n - 2] == 's' || cs[n - 2] == 'S';
    let o = cs[n - 1] == 'o' || cs[n - 1] == 'O';
    dot && s && o
}

/// `cargo deb` needs `[lib]` set aside: a musl target whose release build
/// produced no shared object.
pub fn deb_needs_lib_disabled(triple: &str, shared_object_built: bool) -> (r: bool)
    ensures
        r == (crate::text::contains_seq(triple@, "musl"@) && !shared_object_built),
{
    crate::text::contains(triple, "musl") && !shared_object_built
}

/// The manifest `cargo deb` runs with: `Some` text to write for the run
/// (restoring the original afterwards) when `[lib]` has to be set aside,
/// `None` when the manifest is used as it is.
///
/// # Errors
/// When the text has to be edited and is not TOML.
pub fn deb_manifest(content: &str, triple: &str, shared_object_built: bool) -> (r: Result<
    Option<String>,
    RefineryError,
>)
    ensures
        !(crate::text::contains_seq(triple@, "musl"@) && !shared_object_built) ==> r matches Ok(None),
        crate::text::contains_seq(triple@, "musl"@) && !shared_object_built ==> match toml_parse(content@) {
            None => r matches Err(RefineryError::Toml(_)),
            Some(m) => if m.contains_key(seq!["lib"@]) {
                r matches Ok(Some(s)) && renders(s@, moved(m, seq!["lib"@], seq!["lib-disabled"@]))
            } else {
                r matches Ok(None)
            },
        },
{
    if deb_needs_lib_disabled(triple, shared_object_built) {
        disable_lib_section(content)
    } else {
        Ok(None)
    }
}

/// A package format that needs metadata finds its section in the entries.
pub open spec fn packaging_metadata_ok(m: Entries, format: Seq<char>) -> bool {
    match metadata_key_of(format) {
        Some(k) => m.contains_key(seq!["package"@, "metadata"@, k]),
        None => true,
    }
}

/// Checks that `Cargo.toml` holds the metadata section a package format
/// needs (`deb` for `.deb`, `generate-rpm` for `.rpm`).
///
/// # Errors
/// When the text is not TOML, or the section is missing.
pub fn validate_packaging_metadata(content: &str, format: &str) -> (r: Result<(), RefineryError>)
    ensures
        match toml_parse(content@) {
            None => r matches Err(RefineryError::Toml(_)),
            Some(m) => match metadata_key_of(format@) {
                None => r is Ok,
                Some(k) => if m.contains_key(seq!["package"@, "metadata"@, k]) {
                    r is Ok
                } else {
                    r matches Err(RefineryError::Generic(e)) && e@ == "Missing [package.metadata."@
                        + k + "] in Cargo.toml. Run 'refinery setup' first."@
                },
            },
        },
{
    let doc = match parse_document(content) {
        Ok(d) => d,
        Err(e) => return Err(RefineryError::Toml(e)),
    };
    let key = match packaging_metadata_key(format) {
        Some(k) => k,
        None => return Ok(()),
    };
    if kind3(&doc, "package", "metadata", key.as_str()).is_none() {
        return Err(missing_metadata_error(key.as_str()));
    }
    Ok(())
}

/// The version WiX is given: `package.version`, `0.1.0` when it is not a
/// string.
pub open spec fn wix_manifest_version(m: Entries) -> Seq<char> {
    str_or(str_at(m, seq!["package"@, "version"@]), "0.1.0"@)
}

/// Reading `package.version` does not panic: the entry exists.
pub open spec fn has_version_entry(text: Seq<char>) -> bool {
    toml_parse(text) matches Some(m) ==> m.contains_key(seq!["package"@, "version"@])
}

/// The version the WiX installer is built with.
///
/// # Errors
/// When the text is not TOML.
pub fn read_wix_version(content: &str) -> (r: Result<String, RefineryError>)
    requires
        has_version_entry(content@),
    ensures
        match toml_parse(content@) {
            None => r matches Err(RefineryError::Toml(_)),
            Some(m) => r matches Ok(v) && v@ == wix_manifest_version(m),
        },
{
    let doc = match parse_document(content) {
        Ok(d) => d,
        Err(e) => return Err(RefineryError::Toml(e)),
    };
    match get_str(&doc, "package", "version") {
        Some(v) => Ok(v),
        None => Ok(owned("0.1.0")),
    }
}

/// [`read_wix_version`] where `package.version` exists; `None` where
/// reading it would fail.
pub fn try_read_wix_version(content: &str) -> (r: Option<Result<String, RefineryError>>)
    ensures
        r is Some <==> has_version_entry(content@),
        r matches Some(x) ==> match toml_parse(content@) {
            None => x matches Err(RefineryError::Toml(_)),
            Some(m) => x matches Ok(v) && v@ == wix_manifest_version(m),
        },
{
    match parse_document(content) {
        Ok(doc) => {
            if kind2(&doc, "package", "version").is_none() {
                None
            } else {
                Some(read_wix_version(content))
            }
        },
        Err(e) => Some(Err(RefineryError::Toml(e))),
    }
}

} // verus!
