//! `Cargo.toml` editing: the package metadata that packagers read, the
//! fields the wizard injects, and the `[[bin]]` and `[lib]` sections.
//!
//! Each edit is stated on the entries of the parsed document (see
//! [`super::document`]); the text returned is `toml_edit`'s rendering of a
//! document holding exactly those entries.
use vstd::prelude::*;

use toml_edit::DocumentMut;

use super::artifacts::{Binary, BinaryModel};
use super::document::{
    array_at, at_or_below, below, get_array, get_str, insert_table1, insert_table2, insert_table3,
    insert_table_rows1, kind1, kind2, kind3, kind4, kind_at, parse_document, prune, put,
    remove1, render_document, rows_keys_distinct, rows_model, set_inline_rows4, set_str2,
    set_str4, set_str_array2, str_at, str_values, table_like_at, toml_entries, toml_parse,
    toml_render, Entries, NodeKind, TomlEntry, TomlPath, TomlValue,
};
use crate::errors::RefineryError;
use crate::text::{cat, concat, owned, replace, replace_all, str_eq};

verus! {

/// Package metadata read from `Cargo.toml`.
pub struct CargoMetadata {
    pub name: String,
    pub description: String,
    pub authors: Vec<String>,
    pub license: String,
    pub repository: String,
}

/// Abstract value of [`CargoMetadata`].
pub struct CargoMetadataModel {
    pub name: Seq<char>,
    pub description: Seq<char>,
    pub authors: Seq<Seq<char>>,
    pub license: Seq<char>,
    pub repository: Seq<char>,
}

impl View for CargoMetadata {
    type V = CargoMetadataModel;

    open spec fn view(&self) -> CargoMetadataModel {
        CargoMetadataModel {
            name: self.name@,
            description: self.description@,
            authors: self.authors.deep_view(),
            license: self.license@,
            repository: self.repository@,
        }
    }
}

/// The path of a field of `[package]`.
pub open spec fn package_path(key: Seq<char>) -> TomlPath {
    seq!["package"@, key]
}

/// The string, or `default` when there is none.
pub open spec fn str_or(o: Option<Seq<char>>, default: Seq<char>) -> Seq<char> {
    match o {
        Some(s) => s,
        None => default,
    }
}

/// The strings among the elements, in order.
pub open spec fn strings_only(s: Seq<Option<Seq<char>>>) -> Seq<Seq<char>>
    decreases s.len(),
{
    if s.len() == 0 {
        Seq::empty()
    } else {
        let rest = strings_only(s.drop_last());
        match s.last() {
            Some(x) => rest.push(x),
            None => rest,
        }
    }
}

/// The metadata of a document: the string fields of `[package]` (the name
/// defaulting to `project`, the others to the empty string) and the string
/// elements of `package.authors`.
pub open spec fn metadata_of(m: Entries) -> CargoMetadataModel {
    CargoMetadataModel {
        name: str_or(str_at(m, package_path("name"@)), "project"@),
        description: str_or(str_at(m, package_path("description"@)), ""@),
        authors: match array_at(m, package_path("authors"@)) {
            Some(a) => strings_only(a),
            None => Seq::empty(),
        },
        license: str_or(str_at(m, package_path("license"@)), ""@),
        repository: str_or(str_at(m, package_path("repository"@)), ""@),
    }
}

fn keep_strings(v: &Vec<Option<String>>) -> (r: Vec<String>)
    ensures
        r.deep_view() == strings_only(v.deep_view()),
{
    let mut out: Vec<String> = Vec::new();
    let mut i: usize = 0;
    while i < v.len()
        invariant
            i <= v@.len(),
            out.deep_view() == strings_only(v.deep_view().take(i as int)),
        decreases v@.len() - i,
    {
        let ghost before = out.deep_view();
        assert(v.deep_view().take(i as int + 1).drop_last() =~= v.deep_view().take(i as int));
        match &v[i] {
            Some(s) => {
                out.push(s.clone());
                assert(out.deep_view() =~= before.push(s@));
            },
            None => {},
        }
        i = i + 1;
    }
    assert(v.deep_view().take(v@.len() as int) =~= v.deep_view());
    out
}

fn string_or(o: Option<String>, default: &str) -> (r: String)
    ensures
        r@ == str_or(o.deep_view(), default@),
{
    match o {
        Some(s) => s,
        None => owned(default),
    }
}

/// Reads the package metadata of a document.
pub fn get_cargo_metadata(doc: &DocumentMut) -> (r: CargoMetadata)
    ensures
        r@ == metadata_of(toml_entries(*doc)),
{
    let name = string_or(get_str(doc, "package", "name"), "project");
    let description = string_or(get_str(doc, "package", "description"), "");
    let authors = match get_array(doc, "package", "authors") {
        Some(a) => keep_strings(&a),
        None => Vec::new(),
    };
    let license = string_or(get_str(doc, "package", "license"), "");
    let repository = string_or(get_str(doc, "package", "repository"), "");
    let r = CargoMetadata { name, description, authors, license, repository };
    assert(r.authors.deep_view() =~= metadata_of(toml_entries(*doc)).authors);
    r
}

/// The message for a top-level key that holds something other than a table.
pub open spec fn not_table_message(key: Seq<char>) -> Seq<char> {
    "Key '"@ + key + "' in Cargo.toml is not a table"@
}

/// The message for a nested key that holds something other than a table.
pub open spec fn not_sub_table_message(key: Seq<char>) -> Seq<char> {
    "Sub-key "@ + key + " in Cargo.toml is not a table"@
}

/// Makes sure a table stands at `p`: an empty one is added where nothing
/// stands; anything but a (non-inline) table is refused with `msg`.
pub open spec fn ensure_table(m: Entries, p: TomlPath, msg: Seq<char>) -> Result<Entries, Seq<char>> {
    match kind_at(m, p) {
        None => Ok(m.insert(p, TomlEntry::Table)),
        Some(NodeKind::Table) => Ok(m),
        Some(_) => Err(msg),
    }
}

/// The outcome of an edit on a document: the new entries, or the message of
/// the configuration error.
pub open spec fn edit_outcome(
    r: Result<(), RefineryError>,
    before: Entries,
    after: Entries,
    expected: Result<Entries, Seq<char>>,
) -> bool {
    match expected {
        Ok(m) => r is Ok && after == m,
        Err(msg) => r matches Err(RefineryError::Config(e)) && e@ == msg && after == before,
    }
}

fn config_error(prefix: &str, key: &str, suffix: &str) -> (r: RefineryError)
    ensures
        r matches RefineryError::Config(e) && e@ == prefix@ + key@ + suffix@,
{
    RefineryError::Config(cat(concat(prefix, key), suffix))
}

fn ensure_table_exists(doc: &mut DocumentMut, key: &str) -> (r: Result<(), RefineryError>)
    ensures
        edit_outcome(
            r,
            toml_entries(*old(doc)),
            toml_entries(*final(doc)),
            ensure_table(toml_entries(*old(doc)), seq![key@], not_table_message(key@)),
        ),
{
    match kind1(doc, key) {
        None => {
            insert_table1(doc, key);
            Ok(())
        },
        Some(NodeKind::Table) => Ok(()),
        Some(_) => Err(config_error("Key '", key, "' in Cargo.toml is not a table")),
    }
}

fn ensure_sub_table2(doc: &mut DocumentMut, k1: &str, k2: &str) -> (r: Result<(), RefineryError>)
    requires
        kind_at(toml_entries(*old(doc)), seq![k1@]) == Some(NodeKind::Table),
    ensures
        edit_outcome(
            r,
            toml_entries(*old(doc)),
            toml_entries(*final(doc)),
            ensure_table(toml_entries(*old(doc)), seq![k1@, k2@], not_sub_table_message(k2@)),
        ),
{
    match kind2(doc, k1, k2) {
        None => {
            insert_table2(doc, k1, k2);
            Ok(())
        },
        Some(NodeKind::Table) => Ok(()),
        Some(_) => Err(config_error("Sub-key ", k2, " in Cargo.toml is not a table")),
    }
}

fn ensure_sub_table3(doc: &mut DocumentMut, k1: &str, k2: &str, k3: &str) -> (r: Result<
    (),
    RefineryError,
>)
    requires
        kind_at(toml_entries(*old(doc)), seq![k1@]) == Some(NodeKind::Table),
        kind_at(toml_entries(*old(doc)), seq![k1@, k2@]) == Some(NodeKind::Table),
    ensures
        edit_outcome(
            r,
            toml_entries(*old(doc)),
            toml_entries(*final(doc)),
            ensure_table(
                toml_entries(*old(doc)),
                seq![k1@, k2@, k3@],
                not_sub_table_message(k3@),
            ),
        ),
{
    match kind3(doc, k1, k2, k3) {
        None => {
            insert_table3(doc, k1, k2, k3);
            Ok(())
        },
        Some(NodeKind::Table) => Ok(()),
        Some(_) => Err(config_error("Sub-key ", k3, " in Cargo.toml is not a table")),
    }
}

/// `s` is the rendering of a document whose entries are `m`.
pub open spec fn renders(s: Seq<char>, m: Entries) -> bool {
    exists|d: DocumentMut| toml_entries(d) == m && #[trigger] toml_render(d) == s
}

/// The outcome of an edit of a `Cargo.toml` text: a parse error, the
/// configuration error of the edit, or the rendering of the edited entries.
pub open spec fn text_outcome(
    r: Result<String, RefineryError>,
    text: Seq<char>,
    edit: spec_fn(Entries) -> Result<Entries, Seq<char>>,
) -> bool {
    match toml_parse(text) {
        None => r matches Err(RefineryError::Toml(_)),
        Some(m) => match edit(m) {
            Ok(m2) => r matches Ok(s) && renders(s@, m2),
            Err(msg) => r matches Err(RefineryError::Config(e)) && e@ == msg,
        },
    }
}

/// Parses a `Cargo.toml` text.
fn parse_manifest(content: &str) -> (r: Result<DocumentMut, RefineryError>)
    ensures
        match toml_parse(content@) {
            Some(m) => r matches Ok(d) && toml_entries(d) == m,
            None => r matches Err(RefineryError::Toml(_)),
        },
{
    match parse_document(content) {
        Ok(d) => Ok(d),
        Err(e) => Err(RefineryError::Toml(e)),
    }
}

/// Renders an edited document.
pub(crate) fn render_manifest(doc: &DocumentMut) -> (r: String)
    ensures
        renders(r@, toml_entries(*doc)),
{
    let s = render_document(doc);
    assert(toml_entries(*doc) == toml_entries(*doc) && toml_render(*doc) == s@);
    s
}

/// `package.metadata`.
pub open spec fn meta_path() -> TomlPath {
    seq!["package"@, "metadata"@]
}

/// A path below `package.metadata`.
pub open spec fn meta_sub(a: Seq<char>) -> TomlPath {
    seq!["package"@, "metadata"@, a]
}

/// A path two levels below `package.metadata`.
pub open spec fn meta_sub2(a: Seq<char>, b: Seq<char>) -> TomlPath {
    seq!["package"@, "metadata"@, a, b]
}

/// The default asset of the RPM package: the release binary, installed in
/// `/usr/bin` with mode 755.
pub open spec fn asset_row(name: Seq<char>) -> Seq<(Seq<char>, Seq<char>)> {
    seq![
        ("source"@, "target/release/"@ + name),
        ("dest"@, "/usr/bin/"@ + name),
        ("mode"@, "755"@),
    ]
}

/// The installer sections after the `deb` table was ensured: the names of
/// both packages, and the default RPM asset where none is declared.
pub open spec fn installer_tail(m3: Entries, name: Seq<char>) -> Result<Entries, Seq<char>> {
    let m4 = put(m3, meta_sub2("deb"@, "name"@), TomlEntry::Str(name));
    match ensure_table(m4, meta_sub("generate-rpm"@), not_sub_table_message("generate-rpm"@)) {
        Err(e) => Err(e),
        Ok(m5) => {
            let m6 = put(m5, meta_sub2("generate-rpm"@, "name"@), TomlEntry::Str(name));
            let assets = meta_sub2("generate-rpm"@, "assets"@);
            if m6.contains_key(assets) {
                Ok(m6)
            } else {
                Ok(
                    put(
                        m6,
                        assets,
                        TomlEntry::Array(seq![TomlValue::InlineTable(asset_row(name))]),
                    ),
                )
            }
        },
    }
}

/// The entries after adding the installer metadata: `[package]`,
/// `[package.metadata]`, `[package.metadata.deb]` and
/// `[package.metadata.generate-rpm]` made sure of, in that order, each
/// package named after the crate.
pub open spec fn installer_entries(m0: Entries) -> Result<Entries, Seq<char>> {
    let name = metadata_of(m0).name;
    match ensure_table(m0, seq!["package"@], not_table_message("package"@)) {
        Err(e) => Err(e),
        Ok(m1) => match ensure_table(m1, meta_path(), not_sub_table_message("metadata"@)) {
            Err(e) => Err(e),
            Ok(m2) => match ensure_table(m2, meta_sub("deb"@), not_sub_table_message("deb"@)) {
                Err(e) => Err(e),
                Ok(m3) => installer_tail(m3, name),
            },
        },
    }
}

fn asset_rows(name: &str) -> (r: Vec<Vec<(String, String)>>)
    ensures
        rows_model(r@) == seq![asset_row(name@)],
        rows_keys_distinct(r@),
{
    let mut row: Vec<(String, String)> = Vec::new();
    row.push((owned("source"), concat("target/release/", name)));
    row.push((owned("dest"), concat("/usr/bin/", name)));
    row.push((owned("mode"), owned("755")));
    let mut rows: Vec<Vec<(String, String)>> = Vec::new();
    rows.push(row);
    proof {
        reveal_strlit("source");
        reveal_strlit("dest");
        reveal_strlit("mode");
        assert(row.deep_view() =~= asset_row(name@));
        assert(rows_model(rows@) =~= seq![asset_row(name@)]);
        assert("source"@ != "dest"@ && "source"@ != "mode"@ && "dest"@ != "mode"@) by {
            assert("source"@.len() != "dest"@.len());
            assert("source"@.len() != "mode"@.len());
            assert("dest"@[0] != "mode"@[0]);
        }
    }
    rows
}

fn add_installer_sections(doc: &mut DocumentMut, name: &str) -> (r: Result<(), RefineryError>)
    requires
        name@ == metadata_of(toml_entries(*old(doc))).name,
    ensures
        match installer_entries(toml_entries(*old(doc))) {
            Ok(m) => r is Ok && toml_entries(*final(doc)) == m,
            Err(msg) => r matches Err(RefineryError::Config(e)) && e@ == msg,
        },
{
    if let Err(e) = ensure_table_exists(doc, "package") {
        return Err(e);
    }
    if let Err(e) = ensure_sub_table2(doc, "package", "metadata") {
        return Err(e);
    }
    if let Err(e) = ensure_sub_table3(doc, "package", "metadata", "deb") {
        return Err(e);
    }
    let ghost m3 = toml_entries(*doc);
    set_str4(doc, "package", "metadata", "deb", "name", name);
    if let Err(e) = ensure_sub_table3(doc, "package", "metadata", "generate-rpm") {
        return Err(e);
    }
    set_str4(doc, "package", "metadata", "generate-rpm", "name", name);
    if kind4(doc, "package", "metadata", "generate-rpm", "assets").is_none() {
        let rows = asset_rows(name);
        set_inline_rows4(doc, "package", "metadata", "generate-rpm", "assets", &rows);
        assert(rows_model(rows@).map_values(
            |r: Seq<(Seq<char>, Seq<char>)>| TomlValue::InlineTable(r),
        ) =~= seq![TomlValue::InlineTable(asset_row(name@))]);
        assert(installer_tail(m3, name@) == Ok::<Entries, Seq<char>>(toml_entries(*doc)));
    }
    Ok(())
}

/// Adds the metadata that installers need to a `Cargo.toml` text: the
/// `deb` and `generate-rpm` sections under `[package.metadata]`, both named
/// after the package, with a default RPM asset when none is declared.
///
/// # Errors
/// When the text is not TOML, or when one of the sections to create is
/// held by something other than a table.
pub fn update_cargo_toml_with_metadata(content: &str) -> (r: Result<String, RefineryError>)
    ensures
        text_outcome(r, content@, |m: Entries| installer_entries(m)),
{
    let mut doc = match parse_manifest(content) {
        Ok(d) => d,
        Err(e) => return Err(e),
    };
    let metadata = get_cargo_metadata(&doc);
    match add_installer_sections(&mut doc, metadata.name.as_str()) {
        Ok(()) => Ok(render_manifest(&doc)),
        Err(e) => Err(e),
    }
}


/// Stores a string at `[package, key]` when one is given.
pub open spec fn put_opt_str(m: Entries, key: Seq<char>, v: Option<Seq<char>>) -> Entries {
    match v {
        Some(x) => put(m, package_path(key), TomlEntry::Str(x)),
        None => m,
    }
}

/// The entries after injecting the given `[package]` fields (authors as an
/// array of strings), `[package]` made sure of first.
pub open spec fn injected_entries(
    m0: Entries,
    authors: Option<Seq<Seq<char>>>,
    license: Option<Seq<char>>,
    description: Option<Seq<char>>,
    repository: Option<Seq<char>>,
) -> Result<Entries, Seq<char>> {
    match ensure_table(m0, seq!["package"@], not_table_message("package"@)) {
        Err(e) => Err(e),
        Ok(m1) => {
            let m2 = match authors {
                Some(a) => put(m1, package_path("authors"@), TomlEntry::Array(str_values(a))),
                None => m1,
            };
            let m3 = put_opt_str(m2, "license"@, license);
            let m4 = put_opt_str(m3, "description"@, description);
            Ok(put_opt_str(m4, "repository"@, repository))
        },
    }
}

fn put_package_str(doc: &mut DocumentMut, key: &str, v: Option<String>)
    requires
        table_like_at(toml_entries(*old(doc)), seq!["package"@]),
    ensures
        toml_entries(*final(doc)) == put_opt_str(toml_entries(*old(doc)), key@, v.deep_view()),
        table_like_at(toml_entries(*final(doc)), seq!["package"@]),
{
    if let Some(x) = v {
        set_str2(doc, "package", key, x.as_str());
    }
}

/// Sets the given fields of `[package]` in a `Cargo.toml` text: the authors
/// (as an array), the license, the description and the repository.
///
/// # Errors
/// When the text is not TOML, or when `package` holds something other than
/// a table.
pub fn inject_cargo_fields(
    content: &str,
    authors: Option<Vec<String>>,
    license: Option<String>,
    description: Option<String>,
    repository: Option<String>,
) -> (r: Result<String, RefineryError>)
    ensures
        text_outcome(
            r,
            content@,
            |m: Entries|
                injected_entries(
                    m,
                    authors.deep_view(),
                    license.deep_view(),
                    description.deep_view(),
                    repository.deep_view(),
                ),
        ),
{
    let mut doc = match parse_manifest(content) {
        Ok(d) => d,
        Err(e) => return Err(e),
    };
    if let Err(e) = ensure_table_exists(&mut doc, "package") {
        return Err(e);
    }
    if let Some(a) = authors {
        set_str_array2(&mut doc, "package", "authors", &a);
    }
    put_package_str(&mut doc, "license", license);
    put_package_str(&mut doc, "description", description);
    put_package_str(&mut doc, "repository", repository);
    Ok(render_manifest(&doc))
}

/// The `[[bin]]` table of a binary: its name and its path.
pub open spec fn bin_row(b: BinaryModel) -> Seq<(Seq<char>, Seq<char>)> {
    seq![("name"@, b.name), ("path"@, b.path)]
}

/// The entries after replacing the `[[bin]]` sections with one per binary
/// (none at all for no binaries).
pub open spec fn bins_entries(m0: Entries, bins: Seq<BinaryModel>) -> Result<Entries, Seq<char>> {
    let m1 = prune(m0, seq!["bin"@]);
    if bins.len() == 0 {
        Ok(m1)
    } else {
        Ok(m1.insert(seq!["bin"@], TomlEntry::TableArray(bins.map_values(|b: BinaryModel| bin_row(b)))))
    }
}

/// Rewrites the `[[bin]]` sections of a `Cargo.toml` text for `bins`.
///
/// # Errors
/// When the text is not TOML.
pub fn prepare_cargo_bins(content: &str, bins: &[Binary]) -> (r: Result<String, RefineryError>)
    ensures
        text_outcome(
            r,
            content@,
            |m: Entries| bins_entries(m, bins@.map_values(|b: Binary| b@)),
        ),
{
    let mut doc = match parse_manifest(content) {
        Ok(d) => d,
        Err(e) => return Err(e),
    };
    let _ = remove1(&mut doc, "bin");
    if bins.len() == 0 {
        return Ok(render_manifest(&doc));
    }
    let ghost model = bins@.map_values(|b: Binary| b@);
    let mut rows: Vec<Vec<(String, String)>> = Vec::new();
    let mut i: usize = 0;
    proof {
        reveal_strlit("name");
        reveal_strlit("path");
        assert("name"@[0] != "path"@[0]);
    }
    while i < bins.len()
        invariant
            i <= bins@.len(),
            model == bins@.map_values(|b: Binary| b@),
            rows@.len() == i,
            forall|k: int| 0 <= k < i ==> #[trigger] rows@[k].deep_view() == bin_row(model[k]),
            "name"@ != "path"@,
        decreases bins@.len() - i,
    {
        let mut row: Vec<(String, String)> = Vec::new();
        row.push((owned("name"), bins[i].name.clone()));
        row.push((owned("path"), bins[i].path.clone()));
        assert(row.deep_view() =~= bin_row(model[i as int]));
        rows.push(row);
        i = i + 1;
    }
    assert(rows_model(rows@) =~= model.map_values(|b: BinaryModel| bin_row(b)));
    assert(rows_keys_distinct(rows@)) by {
        assert forall|j: int, x: int, y: int|
            0 <= j < rows@.len() && 0 <= x < y < rows@[j]@.len() implies rows@[j]@[x].0@
            != rows@[j]@[y].0@ by {
            assert(rows@[j].deep_view() == bin_row(model[j]));
            assert(rows@[j].deep_view()[x] == (rows@[j]@[x].0@, rows@[j]@[x].1@));
            assert(rows@[j].deep_view()[y] == (rows@[j]@[y].0@, rows@[j]@[y].1@));
        }
    }
    insert_table_rows1(&mut doc, "bin", &rows);
    Ok(render_manifest(&doc))
}

/// The library name written to `[lib]`: the requested name with `-` turned
/// into `_`, suffixed with `_lib` when it would equal the package's own
/// crate name.
pub open spec fn lib_name(name: Seq<char>, package: Seq<char>) -> Seq<char> {
    let n = replace_all(name, "-"@, "_"@);
    if n == replace_all(package, "-"@, "_"@) {
        n + "_lib"@
    } else {
        n
    }
}

/// The entries after preparing the library export: `[lib]` made sure of,
/// its name and crate types set, and with `cbindgen` a build dependency on
/// `cbindgen` 0.27.
pub open spec fn lib_entries(m0: Entries, name: Seq<char>, types: Seq<Seq<char>>, cbindgen: bool) -> Result<
    Entries,
    Seq<char>,
> {
    let package = metadata_of(m0).name;
    match ensure_table(m0, seq!["lib"@], not_table_message("lib"@)) {
        Err(e) => Err(e),
        Ok(m1) => {
            let m2 = put(m1, seq!["lib"@, "name"@], TomlEntry::Str(lib_name(name, package)));
            let m3 = put(m2, seq!["lib"@, "crate-type"@], TomlEntry::Array(str_values(types)));
            if cbindgen {
                match ensure_table(
                    m3,
                    seq!["build-dependencies"@],
                    not_table_message("build-dependencies"@),
                ) {
                    Err(e) => Err(e),
                    Ok(m4) => Ok(
                        put(m4, seq!["build-dependencies"@, "cbindgen"@], TomlEntry::Str("0.27"@)),
                    ),
                }
            } else {
                Ok(m3)
            }
        },
    }
}

/// Prepares a `Cargo.toml` text for exporting a library named `name` with
/// the given crate types, adding `cbindgen` as a build dependency when
/// headers are wanted.
///
/// # Errors
/// When the text is not TOML, or when `lib` or `build-dependencies` holds
/// something other than a table.
pub fn prepare_cargo_lib(content: &str, name: &str, crate_types: Vec<String>, cbindgen: bool) -> (r:
    Result<String, RefineryError>)
    ensures
        text_outcome(
            r,
            content@,
            |m: Entries| lib_entries(m, name@, crate_types.deep_view(), cbindgen),
        ),
{
    let mut doc = match parse_manifest(content) {
        Ok(d) => d,
        Err(e) => return Err(e),
    };
    let metadata = get_cargo_metadata(&doc);
    if let Err(e) = ensure_table_exists(&mut doc, "lib") {
        return Err(e);
    }
    proof {
        reveal_strlit("-");
    }
    let mut final_name = replace(name, "-", "_");
    let package = replace(metadata.name.as_str(), "-", "_");
    if str_eq(final_name.as_str(), package.as_str()) {
        final_name = cat(final_name, "_lib");
    }
    set_str2(&mut doc, "lib", "name", final_name.as_str());
    set_str_array2(&mut doc, "lib", "crate-type", &crate_types);
    if cbindgen {
        if let Err(e) = ensure_table_exists(&mut doc, "build-dependencies") {
            return Err(e);
        }
        set_str2(&mut doc, "build-dependencies", "cbindgen", "0.27");
    }
    Ok(render_manifest(&doc))
}


/// The library's crate name never collides with the package's own: when
/// the requested name matches it, `_lib` is appended.
pub proof fn law_lib_name_avoids_package(name: Seq<char>, package: Seq<char>)
    ensures
        lib_name(name, package) != replace_all(package, "-"@, "_"@),
{
    let n = replace_all(name, "-"@, "_"@);
    let p = replace_all(package, "-"@, "_"@);
    if n == p {
        assert((n + "_lib"@).len() == p.len() + "_lib"@.len());
        reveal_strlit("_lib");
    }
}

/// Nothing stands below `p`.
pub open spec fn nothing_below(m: Entries, p: TomlPath) -> bool {
    forall|q: TomlPath| #[trigger] m.contains_key(q) ==> !below(p, q)
}

proof fn lemma_put_same(m: Entries, p: TomlPath, e: TomlEntry)
    requires
        m.contains_key(p),
        m[p] == e,
        nothing_below(m, p),
    ensures
        put(m, p, e) == m,
{
    assert(put(m, p, e) =~= m);
}

/// Adding the installer metadata a second time changes nothing: the
/// tables are there, both packages already carry the name, and the RPM
/// assets are declared.
pub proof fn law_installer_metadata_idempotent(m: Entries)
    requires
        installer_entries(m) is Ok,
    ensures
        installer_entries(installer_entries(m)->Ok_0) == installer_entries(m),
{
    let name = metadata_of(m).name;
    let pk: TomlPath = seq!["package"@];
    let meta = meta_path();
    let deb = meta_sub("deb"@);
    let rpm = meta_sub("generate-rpm"@);
    let debn = meta_sub2("deb"@, "name"@);
    let rpmn = meta_sub2("generate-rpm"@, "name"@);
    let assets = meta_sub2("generate-rpm"@, "assets"@);
    let pn = package_path("name"@);
    reveal_strlit("package");
    reveal_strlit("metadata");
    reveal_strlit("deb");
    reveal_strlit("generate-rpm");
    reveal_strlit("name");
    reveal_strlit("assets");
    let m1 = ensure_table(m, pk, not_table_message("package"@))->Ok_0;
    let m2 = ensure_table(m1, meta, not_sub_table_message("metadata"@))->Ok_0;
    let m3 = ensure_table(m2, deb, not_sub_table_message("deb"@))->Ok_0;
    let m4 = put(m3, debn, TomlEntry::Str(name));
    let m5 = ensure_table(m4, rpm, not_sub_table_message("generate-rpm"@))->Ok_0;
    let m6 = put(m5, rpmn, TomlEntry::Str(name));
    let a = TomlEntry::Array(seq![TomlValue::InlineTable(asset_row(name))]);
    let m7 = if m6.contains_key(assets) {
        m6
    } else {
        put(m6, assets, a)
    };
    assert(installer_entries(m) == Ok::<Entries, Seq<char>>(m7));
    assert("deb"@ != "generate-rpm"@);
    assert("name"@.len() != "assets"@.len());
    assert("name"@ != "assets"@);
    assert("metadata"@ != "name"@);
    assert(!below(rpmn, debn) && !below(assets, debn) && !below(debn, rpmn) && !below(assets, rpmn));
    assert(!below(debn, pn) && !below(rpmn, pn) && !below(assets, pn));
    assert(!below(debn, rpm) && !below(debn, pk) && !below(debn, meta) && !below(debn, deb));
    assert(!below(rpmn, pk) && !below(rpmn, meta) && !below(rpmn, deb) && !below(rpmn, rpm));
    assert(!below(assets, pk) && !below(assets, meta) && !below(assets, deb) && !below(assets, rpm));
    assert(nothing_below(m4, debn));
    assert(nothing_below(m6, debn));
    assert(nothing_below(m6, rpmn));
    assert(nothing_below(m7, debn));
    assert(nothing_below(m7, rpmn));
    assert(str_at(m7, pn) == str_at(m, pn));
    assert(metadata_of(m7).name == name);
    assert(m7.contains_key(pk) && m7[pk] == TomlEntry::Table);
    assert(m7.contains_key(meta) && m7[meta] == TomlEntry::Table);
    assert(m7.contains_key(deb) && m7[deb] == TomlEntry::Table);
    assert(m7.contains_key(rpm) && m7[rpm] == TomlEntry::Table);
    assert(m7.contains_key(debn) && m7[debn] == TomlEntry::Str(name));
    assert(m7.contains_key(rpmn) && m7[rpmn] == TomlEntry::Str(name));
    assert(m7.contains_key(assets));
    lemma_put_same(m7, debn, TomlEntry::Str(name));
    lemma_put_same(m7, rpmn, TomlEntry::Str(name));
    assert(installer_tail(m7, name) == Ok::<Entries, Seq<char>>(m7));
}


/// Rewriting the `[[bin]]` sections a second time for the same binaries
/// changes nothing.
pub proof fn law_bins_idempotent(m: Entries, bins: Seq<BinaryModel>)
    ensures
        bins_entries(bins_entries(m, bins)->Ok_0, bins) == bins_entries(m, bins),
{
    let b: TomlPath = seq!["bin"@];
    let m1 = bins_entries(m, bins)->Ok_0;
    assert(prune(m1, b) =~= prune(m, b));
}

/// Preparing `[lib]` a second time with the same request changes nothing.
pub proof fn law_lib_idempotent(m: Entries, name: Seq<char>, types: Seq<Seq<char>>, cbindgen: bool)
    requires
        lib_entries(m, name, types, cbindgen) is Ok,
    ensures
        lib_entries(lib_entries(m, name, types, cbindgen)->Ok_0, name, types, cbindgen)
            == lib_entries(m, name, types, cbindgen),
{
    reveal_strlit("lib");
    reveal_strlit("name");
    reveal_strlit("crate-type");
    reveal_strlit("build-dependencies");
    reveal_strlit("cbindgen");
    reveal_strlit("package");
    let package = metadata_of(m).name;
    let l: TomlPath = seq!["lib"@];
    let ln: TomlPath = seq!["lib"@, "name"@];
    let lt: TomlPath = seq!["lib"@, "crate-type"@];
    let bd: TomlPath = seq!["build-dependencies"@];
    let bc: TomlPath = seq!["build-dependencies"@, "cbindgen"@];
    let pn = package_path("name"@);
    let n = TomlEntry::Str(lib_name(name, package));
    let t = TomlEntry::Array(str_values(types));
    let c = TomlEntry::Str("0.27"@);
    let m1 = ensure_table(m, l, not_table_message("lib"@))->Ok_0;
    let m2 = put(m1, ln, n);
    let m3 = put(m2, lt, t);
    assert("name"@.len() != "crate-type"@.len());
    assert("lib"@ != "build-dependencies"@);
    assert("lib"@ != "package"@ && "build-dependencies"@ != "package"@);
    assert(!below(ln, lt) && !below(lt, ln) && !below(ln, pn) && !below(lt, pn));
    assert(!below(ln, l) && !below(lt, l) && !below(bc, l) && !below(bc, ln) && !below(bc, lt));
    assert(!below(bc, pn) && !below(ln, bd) && !below(lt, bd) && !below(bc, bd));
    assert(nothing_below(m3, ln));
    assert(nothing_below(m3, lt));
    assert(str_at(m3, pn) == str_at(m, pn));
    if cbindgen {
        let m4 = ensure_table(m3, bd, not_table_message("build-dependencies"@))->Ok_0;
        let m5 = put(m4, bc, c);
        assert(lib_entries(m, name, types, cbindgen) == Ok::<Entries, Seq<char>>(m5));
        assert(nothing_below(m5, ln));
        assert(nothing_below(m5, lt));
        assert(nothing_below(m5, bc));
        assert(str_at(m5, pn) == str_at(m, pn));
        assert(metadata_of(m5).name == package);
        assert(m5.contains_key(l) && m5[l] == TomlEntry::Table);
        assert(m5.contains_key(bd) && m5[bd] == TomlEntry::Table);
        assert(m5.contains_key(ln) && m5[ln] == n);
        assert(m5.contains_key(lt) && m5[lt] == t);
        assert(m5.contains_key(bc) && m5[bc] == c);
        lemma_put_same(m5, ln, n);
        lemma_put_same(m5, lt, t);
        lemma_put_same(m5, bc, c);
    } else {
        assert(lib_entries(m, name, types, cbindgen) == Ok::<Entries, Seq<char>>(m3));
        assert(metadata_of(m3).name == package);
        assert(m3.contains_key(l) && m3[l] == TomlEntry::Table);
        lemma_put_same(m3, ln, n);
        lemma_put_same(m3, lt, t);
    }
}


/// Both installer packages are named after the crate (`project` when the
/// package has no name), and the package's own name is untouched.
pub proof fn law_installer_packages_named_after_crate(m: Entries)
    requires
        installer_entries(m) is Ok,
    ensures
        str_at(installer_entries(m)->Ok_0, meta_sub2("deb"@, "name"@)) == Some(metadata_of(m).name),
        str_at(installer_entries(m)->Ok_0, meta_sub2("generate-rpm"@, "name"@)) == Some(
            metadata_of(m).name,
        ),
        metadata_of(installer_entries(m)->Ok_0).name == metadata_of(m).name,
{
    law_installer_metadata_idempotent(m);
    let name = metadata_of(m).name;
    reveal_strlit("deb");
    reveal_strlit("generate-rpm");
    reveal_strlit("name");
    reveal_strlit("assets");
    reveal_strlit("package");
    reveal_strlit("metadata");
    let debn = meta_sub2("deb"@, "name"@);
    let rpmn = meta_sub2("generate-rpm"@, "name"@);
    let assets = meta_sub2("generate-rpm"@, "assets"@);
    let pn = package_path("name"@);
    let m1 = ensure_table(m, seq!["package"@], not_table_message("package"@))->Ok_0;
    let m2 = ensure_table(m1, meta_path(), not_sub_table_message("metadata"@))->Ok_0;
    let m3 = ensure_table(m2, meta_sub("deb"@), not_sub_table_message("deb"@))->Ok_0;
    let m4 = put(m3, debn, TomlEntry::Str(name));
    let m5 = ensure_table(m4, meta_sub("generate-rpm"@), not_sub_table_message("generate-rpm"@))->Ok_0;
    let m6 = put(m5, rpmn, TomlEntry::Str(name));
    assert("deb"@ != "generate-rpm"@);
    assert("name"@.len() != "assets"@.len());
    assert(!below(rpmn, debn) && !below(assets, debn) && !below(assets, rpmn));
    assert(!below(debn, pn) && !below(rpmn, pn) && !below(assets, pn));
    assert(m6.contains_key(debn) && m6[debn] == TomlEntry::Str(name));
}

/// Rewriting the `[[bin]]` sections gives one table per binary, in order,
/// holding that binary's own name and path (no `[[bin]]` at all for no
/// binaries); every entry outside `bin` is kept as it was.
pub proof fn law_bin_sections(m0: Entries, bins: Seq<BinaryModel>)
    ensures
        bins_entries(m0, bins) is Ok,
        bins.len() == 0 ==> !bins_entries(m0, bins)->Ok_0.contains_key(seq!["bin"@]),
        bins.len() > 0 ==> bins_entries(m0, bins)->Ok_0.contains_key(seq!["bin"@]) && (
        bins_entries(m0, bins)->Ok_0[seq!["bin"@]] matches TomlEntry::TableArray(rows) && rows.len()
            == bins.len() && forall|k: int|
            0 <= k < bins.len() ==> #[trigger] rows[k] == seq![
                ("name"@, bins[k].name),
                ("path"@, bins[k].path),
            ]),
        forall|q: TomlPath|
            !at_or_below(seq!["bin"@], q) ==> (bins_entries(m0, bins)->Ok_0.contains_key(q)
                == m0.contains_key(q) && (m0.contains_key(q) ==> bins_entries(m0, bins)->Ok_0[q]
                == m0[q])),
{
    let m1 = prune(m0, seq!["bin"@]);
    assert(at_or_below(seq!["bin"@], seq!["bin"@]));
    assert(!m1.contains_key(seq!["bin"@]));
}

} // verus!
