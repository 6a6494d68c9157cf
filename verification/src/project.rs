//! Keeping `Cargo.toml` in step with `refinery.toml`, and what a build
//! needs installed.
use vstd::prelude::*;

use crate::builder::{CommandModel, CommandSpec};
use crate::errors::RefineryError;
use crate::schema::artifacts::{BinaryModel, LibraryModel};
use crate::schema::config::RefineryConfig;
use crate::schema::document::Entries;
use crate::schema::metadata::{
    bins_entries, lib_entries, prepare_cargo_bins, prepare_cargo_lib, text_outcome,
};
use crate::schema::types::{crate_type_name, LibType};
use crate::text::{contains, contains_seq, owned, strings_of};

verus! {

/// The Cargo crate types of library kinds, in order.
pub open spec fn crate_type_names(types: Seq<LibType>) -> Seq<Seq<char>> {
    types.map_values(|t: LibType| crate_type_name(t))
}

/// The Cargo crate types of library kinds (`cdylib`, `staticlib`).
pub fn crate_types(types: &Vec<LibType>) -> (r: Vec<String>)
    ensures
        r.deep_view() == crate_type_names(types@),
{
    let mut r: Vec<String> = Vec::new();
    let mut i: usize = 0;
    while i < types.len()
        invariant
            i <= types@.len(),
            r@.len() == i,
            forall|j: int| 0 <= j < i ==> #[trigger] r@[j]@ == crate_type_name(types@[j]),
        decreases types@.len() - i,
    {
        r.push(types[i].crate_type());
        i = i + 1;
    }
    assert(r.deep_view() =~= crate_type_names(types@));
    r
}

/// The edit that prepares `[lib]` for a library.
pub open spec fn lib_edit(l: LibraryModel) -> spec_fn(Entries) -> Result<Entries, Seq<char>> {
    |m: Entries| lib_entries(m, l.name, crate_type_names(l.types), l.headers)
}

/// `r` is the outcome of preparing `[lib]` for each library in turn,
/// starting from `text`, each step on the text the previous one rendered,
/// and stopping at the first error.
pub open spec fn libs_prepared(r: Result<String, RefineryError>, text: Seq<char>, libs: Seq<LibraryModel>) -> bool
    decreases libs.len(),
{
    if libs.len() == 0 {
        r matches Ok(s) && s@ == text
    } else {
        exists|mid: Result<String, RefineryError>|
            #[trigger] text_outcome(mid, text, lib_edit(libs[0])) && match mid {
                Ok(s) => libs_prepared(r, s@, libs.skip(1)),
                Err(e) => r == Err::<String, RefineryError>(e),
            }
    }
}

/// The edit that rewrites the `[[bin]]` sections for binaries.
pub open spec fn bins_edit(bins: Seq<BinaryModel>) -> spec_fn(Entries) -> Result<Entries, Seq<char>> {
    |m: Entries| bins_entries(m, bins)
}

/// `r` is the outcome of synchronising a `Cargo.toml` text with a
/// configuration: the `[[bin]]` sections first, then `[lib]` for each
/// library.
pub open spec fn metadata_synced(
    r: Result<String, RefineryError>,
    text: Seq<char>,
    bins: Seq<BinaryModel>,
    libs: Seq<LibraryModel>,
) -> bool {
    exists|mid: Result<String, RefineryError>|
        #[trigger] text_outcome(mid, text, bins_edit(bins)) && match mid {
            Ok(s) => libs_prepared(r, s@, libs),
            Err(e) => r == Err::<String, RefineryError>(e),
        }
}

/// Synchronises a `Cargo.toml` text with the configuration: one `[[bin]]`
/// section per binary, then `[lib]` (name, crate types, `cbindgen` when
/// headers are wanted) for each library in turn. The caller writes the
/// file back when the text changed.
///
/// # Errors
/// The first error of a step.
pub fn sync_metadata(content: &str, config: &RefineryConfig) -> (r: Result<String, RefineryError>)
    ensures
        metadata_synced(
            r,
            content@,
            config.binaries@.map_values(|b: crate::schema::artifacts::Binary| b@),
            config.libraries@.map_values(|l: crate::schema::artifacts::Library| l@),
        ),
{
    let ghost bins = config.binaries@.map_values(|b: crate::schema::artifacts::Binary| b@);
    let ghost libs = config.libraries@.map_values(|l: crate::schema::artifacts::Library| l@);
    let bin_slice = config.binaries.as_slice();
    let first = prepare_cargo_bins(content, bin_slice);
    let ghost first_outcome = first;
    assert(bin_slice@ == config.binaries@);
    assert((|m: Entries| bins_entries(m, bin_slice@.map_values(|b: crate::schema::artifacts::Binary| b@)))
        =~= bins_edit(bins));
    let mut current = match first {
        Ok(s) => s,
        Err(e) => {
            assert(text_outcome(first, content@, bins_edit(bins)));
            return Err(e);
        },
    };
    let ghost start = current@;
    assert(text_outcome(first, content@, bins_edit(bins)));
    assert(libs.skip(0) =~= libs);
    let mut i: usize = 0;
    while i < config.libraries.len()
        invariant
            i <= libs.len(),
            first_outcome matches Ok(s0) && s0@ == start,
            text_outcome(first_outcome, content@, bins_edit(bins)),
            bins == config.binaries@.map_values(|b: crate::schema::artifacts::Binary| b@),
            libs == config.libraries@.map_values(|l: crate::schema::artifacts::Library| l@),
            forall|r: Result<String, RefineryError>|
                libs_prepared(r, current@, libs.skip(i as int)) ==> #[trigger] libs_prepared(
                    r,
                    start,
                    libs,
                ),
        decreases libs.len() - i,
    {
        let lib = &config.libraries[i];
        let types = crate_types(&lib.types);
        let step = prepare_cargo_lib(current.as_str(), lib.name.as_str(), types, lib.headers);
        let ghost l = libs[i as int];
        assert(l == lib@);
        assert((|m: Entries| lib_entries(m, lib.name@, crate_type_names(lib.types@), lib.headers))
            =~= lib_edit(l));
        assert(text_outcome(step, current@, lib_edit(l)));
        let ghost rest = libs.skip(i as int);
        assert(rest[0] == l);
        assert(rest.skip(1) =~= libs.skip(i as int + 1));
        match step {
            Ok(s) => {
                let ghost prev = current@;
                proof {
                    assert forall|r: Result<String, RefineryError>|
                        libs_prepared(r, s@, libs.skip(i as int + 1)) implies #[trigger] libs_prepared(
                            r,
                            start,
                            libs,
                        ) by {
                        assert(text_outcome(step, prev, lib_edit(rest[0])));
                        assert(libs_prepared(r, prev, rest));
                    }
                }
                current = s;
            },
            Err(e) => {
                proof {
                    assert(text_outcome(step, current@, lib_edit(rest[0])));
                    assert(libs_prepared(Err::<String, RefineryError>(e), current@, rest));
                    assert(libs_prepared(Err::<String, RefineryError>(e), start, libs));
                    assert(text_outcome(first_outcome, content@, bins_edit(bins)));
                }
                return Err(e);
            },
        }
        i = i + 1;
    }
    assert(libs.skip(i as int) =~= Seq::<LibraryModel>::empty());
    assert(libs_prepared(Ok::<String, RefineryError>(current), start, libs));
    Ok(current)
}

/// The commands that prepare a build for `target`: add the Rust target,
/// and install `cross` for a musl target when it is not available.
pub open spec fn toolchain_commands(target: Seq<char>, cross_available: bool) -> Seq<CommandModel> {
    let add = CommandModel {
        program: "rustup"@,
        args: seq!["target"@, "add"@, target],
        cwd: None,
        failure: Seq::empty(),
    };
    if contains_seq(target, "musl"@) && !cross_available {
        seq![
            add,
            CommandModel {
                program: "cargo"@,
                args: seq!["install"@, "cross"@],
                cwd: None,
                failure: Seq::empty(),
            },
        ]
    } else {
        seq![add]
    }
}

/// The commands that prepare a build for `target` (their failures are
/// ignored), given whether `cross` is on the `PATH`.
pub fn setup_toolchain(target: &str, cross_available: bool) -> (r: Vec<CommandSpec>)
    ensures
        r.deep_view() == toolchain_commands(target@, cross_available),
{
    let mut add_args = strings_of(&["target", "add"]);
    assert(add_args.deep_view() =~= seq!["target"@, "add"@]);
    let ghost before = add_args.deep_view();
    add_args.push(owned(target));
    assert(add_args.deep_view() =~= before.push(target@));
    let add = CommandSpec { program: owned("rustup"), args: add_args, cwd: None, failure: String::new() };
    assert(add@.args =~= seq!["target"@, "add"@, target@]);
    let mut r: Vec<CommandSpec> = Vec::new();
    r.push(add);
    if contains(target, "musl") && !cross_available {
        let install = CommandSpec {
            program: owned("cargo"),
            args: strings_of(&["install", "cross"]),
            cwd: None,
            failure: String::new(),
        };
        assert(install@.args =~= seq!["install"@, "cross"@]);
        r.push(install);
    }
    assert(r.deep_view() =~= toolchain_commands(target@, cross_available));
    r
}

} // verus!
