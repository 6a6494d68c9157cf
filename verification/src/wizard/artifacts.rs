//! Adding and editing binaries and libraries from the wizard's answers.
use vstd::prelude::*;

use super::input::{csv_items, optional, optional_text, or_default, split_csv, text_or_default, trim, trimmed};
use crate::schema::artifacts::{Binary, BinaryModel, Library, LibraryModel};
use crate::schema::config::{artifact_names, name_taken, names_distinct, ConfigModel, RefineryConfig};
use crate::schema::types::LibType;
use crate::errors::RefineryError;
use crate::text::{owned, str_eq};

verus! {

/// What the wizard does with a typed artifact name.
pub enum NameChoice {
    /// `!`: go back.
    Back,
    /// The name is already used by another artifact; ask again.
    Taken(String),
    /// The name to use.
    Accepted(String),
}

/// The name a typed answer stands for: the default when empty, else the
/// answer as typed.
pub open spec fn typed_name(input: Seq<char>, default: Seq<char>) -> Seq<char> {
    if input.len() == 0 {
        default
    } else {
        input
    }
}

/// Decides what a typed artifact name does.
pub fn choose_artifact_name(config: &RefineryConfig, input: &str, default: &str) -> (r: NameChoice)
    ensures
        input@ == "!"@ ==> r is Back,
        input@ != "!"@ ==> match r {
            NameChoice::Taken(n) => n@ == typed_name(input@, default@) && name_taken(config@, n@),
            NameChoice::Accepted(n) => n@ == typed_name(input@, default@) && !name_taken(
                config@,
                n@,
            ),
            NameChoice::Back => false,
        },
{
    if str_eq(input, "!") {
        return NameChoice::Back;
    }
    let n = if input.is_empty() {
        owned(default)
    } else {
        owned(input)
    };
    if config.is_name_taken(n.as_str()) {
        NameChoice::Taken(n)
    } else {
        NameChoice::Accepted(n)
    }
}

/// The binary the setup wizard declares: the path as typed (`src/main.rs`
/// when empty), the features of the comma-separated answer if one was
/// asked for.
pub open spec fn declared_binary(
    name: Seq<char>,
    path: Seq<char>,
    no_default_features: bool,
    features: Option<Seq<char>>,
) -> BinaryModel {
    BinaryModel {
        name,
        path: typed_name(path, "src/main.rs"@),
        out_name: None,
        features: match features {
            Some(f) => csv_items(f),
            None => Seq::empty(),
        },
        no_default_features,
    }
}

/// A binary declared in the setup wizard (see [`declared_binary`]).
pub fn new_binary(name: &str, path_input: &str, no_default_features: bool, features: Option<&str>) -> (r:
    Binary)
    ensures
        r@ == declared_binary(
            name@,
            path_input@,
            no_default_features,
            match features {
                Some(f) => Some(f@),
                None => None,
            },
        ),
{
    let path = if path_input.is_empty() {
        owned("src/main.rs")
    } else {
        owned(path_input)
    };
    let fs = match features {
        Some(f) => split_csv(f),
        None => Vec::new(),
    };
    let r = Binary { name: owned(name), path, out_name: None, features: fs, no_default_features };
    assert(features is None ==> r.features.deep_view() =~= Seq::<Seq<char>>::empty());
    r
}

/// The library the setup wizard declares: the path as typed (`src/lib.rs`
/// when empty).
pub open spec fn declared_library(name: Seq<char>, path: Seq<char>, types: Seq<LibType>, headers: bool) -> LibraryModel {
    LibraryModel { name, path: typed_name(path, "src/lib.rs"@), out_name: None, types, headers }
}

/// A library declared in the setup wizard (see [`declared_library`]).
pub fn new_library(name: &str, path_input: &str, types: Vec<LibType>, headers: bool) -> (r: Library)
    ensures
        r@ == declared_library(name@, path_input@, types@, headers),
{
    let path = if path_input.is_empty() {
        owned("src/lib.rs")
    } else {
        owned(path_input)
    };
    Library { name: owned(name), path, out_name: None, types, headers }
}

/// Adds the binary of the editor's "Add New Binary": nothing for a blank
/// name; else the trimmed name, the trimmed path (default `src/main.rs`)
/// and default settings. Returns whether a binary was added.
pub fn add_binary(bins: &mut Vec<Binary>, name_input: &str, path_input: &str) -> (r: bool)
    ensures
        r == (trimmed(name_input@).len() > 0),
        !r ==> final(bins)@ == old(bins)@,
        r ==> final(bins)@.len() == old(bins)@.len() + 1,
        r ==> final(bins)@.drop_last() == old(bins)@,
        r ==> final(bins)@.last()@ == (BinaryModel {
            name: trimmed(name_input@),
            path: or_default(path_input@, "src/main.rs"@),
            out_name: None,
            features: Seq::empty(),
            no_default_features: false,
        }),
{
    let name = trim(name_input);
    if name.as_str().is_empty() {
        return false;
    }
    let path = text_or_default(path_input, "src/main.rs");
    let b = Binary { name, path, out_name: None, features: Vec::new(), no_default_features: false };
    assert(b.features.deep_view() =~= Seq::<Seq<char>>::empty());
    let ghost before = bins@;
    bins.push(b);
    assert(bins@.drop_last() =~= before);
    true
}

/// Adds the library of the editor's "Add New Library": nothing for a
/// blank name; else the trimmed name, the trimmed path (default
/// `src/lib.rs`), a static library without headers. Returns whether a
/// library was added.
pub fn add_library(libs: &mut Vec<Library>, name_input: &str, path_input: &str) -> (r: bool)
    ensures
        r == (trimmed(name_input@).len() > 0),
        !r ==> final(libs)@ == old(libs)@,
        r ==> final(libs)@.len() == old(libs)@.len() + 1,
        r ==> final(libs)@.drop_last() == old(libs)@,
        r ==> final(libs)@.last()@ == (LibraryModel {
            name: trimmed(name_input@),
            path: or_default(path_input@, "src/lib.rs"@),
            out_name: None,
            types: seq![LibType::Static],
            headers: false,
        }),
{
    let name = trim(name_input);
    if name.as_str().is_empty() {
        return false;
    }
    let path = text_or_default(path_input, "src/lib.rs");
    let mut types: Vec<LibType> = Vec::new();
    types.push(LibType::Static);
    let l = Library { name, path, out_name: None, types, headers: false };
    assert(l.types@ =~= seq![LibType::Static]);
    let ghost before = libs@;
    libs.push(l);
    assert(libs@.drop_last() =~= before);
    true
}

/// The position of the first artifact called `name`.
pub open spec fn first_named(names: Seq<Seq<char>>, name: Seq<char>) -> Option<int> {
    if exists|i: int| 0 <= i < names.len() && names[i] == name {
        Some(
            choose|i: int|
                0 <= i < names.len() && names[i] == name && forall|j: int|
                    0 <= j < i ==> names[j] != name,
        )
    } else {
        None
    }
}

/// The names of binaries.
pub open spec fn binary_names(bins: Seq<Binary>) -> Seq<Seq<char>> {
    bins.map_values(|b: Binary| b.name@)
}

/// The names of libraries.
pub open spec fn library_names(libs: Seq<Library>) -> Seq<Seq<char>> {
    libs.map_values(|l: Library| l.name@)
}

proof fn lemma_first_named(names: Seq<Seq<char>>, name: Seq<char>, i: int)
    requires
        0 <= i < names.len(),
        names[i] == name,
        forall|j: int| 0 <= j < i ==> names[j] != name,
    ensures
        first_named(names, name) == Some(i),
{
    let c = choose|x: int|
        0 <= x < names.len() && names[x] == name && forall|j: int| 0 <= j < x ==> names[j] != name;
    assert(exists|x: int|
        0 <= x < names.len() && names[x] == name && forall|j: int| 0 <= j < x ==> names[j] != name);
    if c < i {
        assert(names[c] != name);
    }
    if i < c {
        assert(names[i] != name);
    }
}

/// The position of the first binary called `name`.
pub fn find_binary(bins: &Vec<Binary>, name: &str) -> (r: Option<usize>)
    ensures
        match first_named(binary_names(bins@), name@) {
            Some(i) => r == Some(i as usize),
            None => r is None,
        },
{
    let ghost names = binary_names(bins@);
    let mut i: usize = 0;
    while i < bins.len()
        invariant
            i <= bins@.len(),
            names == binary_names(bins@),
            forall|j: int| 0 <= j < i ==> names[j] != name@,
        decreases bins@.len() - i,
    {
        if str_eq(bins[i].name.as_str(), name) {
            proof {
                lemma_first_named(names, name@, i as int);
            }
            return Some(i);
        }
        i = i + 1;
    }
    None
}

/// The position of the first library called `name`.
pub fn find_library(libs: &Vec<Library>, name: &str) -> (r: Option<usize>)
    ensures
        match first_named(library_names(libs@), name@) {
            Some(i) => r == Some(i as usize),
            None => r is None,
        },
{
    let ghost names = library_names(libs@);
    let mut i: usize = 0;
    while i < libs.len()
        invariant
            i <= libs@.len(),
            names == library_names(libs@),
            forall|j: int| 0 <= j < i ==> names[j] != name@,
        decreases libs@.len() - i,
    {
        if str_eq(libs[i].name.as_str(), name) {
            proof {
                lemma_first_named(names, name@, i as int);
            }
            return Some(i);
        }
        i = i + 1;
    }
    None
}

/// An answer in the binary editor.
pub enum BinaryEdit {
    /// A new name; blank keeps the current one.
    Name(String),
    /// A new path; blank keeps the current one.
    Path(String),
    /// A new output name; blank resets it to the default.
    OutName(String),
    /// A comma-separated list of features.
    Features(String),
    /// Flip whether default features are disabled.
    ToggleDefaultFeatures,
}

/// A binary after an edit.
pub open spec fn binary_edited(b: BinaryModel, e: BinaryEdit) -> BinaryModel {
    match e {
        BinaryEdit::Name(s) => BinaryModel { name: or_default(s@, b.name), ..b },
        BinaryEdit::Path(s) => BinaryModel { path: or_default(s@, b.path), ..b },
        BinaryEdit::OutName(s) => BinaryModel { out_name: optional(s@), ..b },
        BinaryEdit::Features(s) => BinaryModel { features: csv_items(s@), ..b },
        BinaryEdit::ToggleDefaultFeatures => BinaryModel {
            no_default_features: !b.no_default_features,
            ..b
        },
    }
}

/// Applies an edit to binary `idx`; the others are unchanged.
///
/// # Errors
/// When there is no binary `idx`; nothing changes then.
pub fn edit_binary(bins: &mut Vec<Binary>, idx: usize, edit: BinaryEdit) -> (r: Result<(), RefineryError>)
    ensures
        idx >= old(bins)@.len() ==> (r matches Err(RefineryError::Generic(e)) && e@
            == "Binary index out of bounds"@ && final(bins)@ == old(bins)@),
        idx < old(bins)@.len() ==> r is Ok && final(bins)@.len() == old(bins)@.len()
            && final(bins)@[idx as int]@ == binary_edited(old(bins)@[idx as int]@, edit) && forall|
            k: int,
        | 0 <= k < old(bins)@.len() && k != idx ==> final(bins)@[k] == old(bins)@[k],
{
    if idx >= bins.len() {
        return Err(RefineryError::Generic(owned("Binary index out of bounds")));
    }
    let b = &bins[idx];
    let updated = match edit {
        BinaryEdit::Name(s) => Binary {
            name: text_or_default(s.as_str(), b.name.as_str()),
            ..b.duplicate()
        },
        BinaryEdit::Path(s) => Binary {
            path: text_or_default(s.as_str(), b.path.as_str()),
            ..b.duplicate()
        },
        BinaryEdit::OutName(s) => Binary { out_name: optional_text(s.as_str()), ..b.duplicate() },
        BinaryEdit::Features(s) => Binary { features: split_csv(s.as_str()), ..b.duplicate() },
        BinaryEdit::ToggleDefaultFeatures => Binary {
            no_default_features: !b.no_default_features,
            ..b.duplicate()
        },
    };
    bins.set(idx, updated);
    Ok(())
}

/// Removes binary `idx` (after the user confirmed the deletion).
///
/// # Errors
/// When there is no binary `idx`; nothing changes then.
pub fn remove_binary(bins: &mut Vec<Binary>, idx: usize) -> (r: Result<(), RefineryError>)
    ensures
        idx >= old(bins)@.len() ==> (r matches Err(RefineryError::Generic(e)) && e@
            == "Binary index out of bounds"@ && final(bins)@ == old(bins)@),
        idx < old(bins)@.len() ==> r is Ok && final(bins)@ == old(bins)@.remove(idx as int),
{
    if idx >= bins.len() {
        return Err(RefineryError::Generic(owned("Binary index out of bounds")));
    }
    let _ = bins.remove(idx);
    Ok(())
}

/// An answer in the library editor.
pub enum LibraryEdit {
    /// A new name; blank keeps the current one.
    Name(String),
    /// A new path; blank keeps the current one.
    Path(String),
    /// The selected library types.
    Types(Vec<LibType>),
    /// Flip whether C headers are generated.
    ToggleHeaders,
}

/// A library after an edit.
pub open spec fn library_edited(l: LibraryModel, e: LibraryEdit) -> LibraryModel {
    match e {
        LibraryEdit::Name(s) => LibraryModel { name: or_default(s@, l.name), ..l },
        LibraryEdit::Path(s) => LibraryModel { path: or_default(s@, l.path), ..l },
        LibraryEdit::Types(t) => LibraryModel { types: t@, ..l },
        LibraryEdit::ToggleHeaders => LibraryModel { headers: !l.headers, ..l },
    }
}

/// Applies an edit to library `idx`; the others are unchanged.
///
/// # Errors
/// When there is no library `idx`; nothing changes then.
pub fn edit_library(libs: &mut Vec<Library>, idx: usize, edit: LibraryEdit) -> (r: Result<(), RefineryError>)
    ensures
        idx >= old(libs)@.len() ==> (r matches Err(RefineryError::Generic(e)) && e@
            == "Library index out of bounds"@ && final(libs)@ == old(libs)@),
        idx < old(libs)@.len() ==> r is Ok && final(libs)@.len() == old(libs)@.len()
            && final(libs)@[idx as int]@ == library_edited(old(libs)@[idx as int]@, edit) && forall|
            k: int,
        | 0 <= k < old(libs)@.len() && k != idx ==> final(libs)@[k] == old(libs)@[k],
{
    if idx >= libs.len() {
        return Err(RefineryError::Generic(owned("Library index out of bounds")));
    }
    let l = &libs[idx];
    let updated = match edit {
        LibraryEdit::Name(s) => Library {
            name: text_or_default(s.as_str(), l.name.as_str()),
            ..l.duplicate()
        },
        LibraryEdit::Path(s) => Library {
            path: text_or_default(s.as_str(), l.path.as_str()),
            ..l.duplicate()
        },
        LibraryEdit::Types(t) => Library { types: t, ..l.duplicate() },
        LibraryEdit::ToggleHeaders => Library { headers: !l.headers, ..l.duplicate() },
    };
    libs.set(idx, updated);
    Ok(())
}

/// Removes library `idx` (after the user confirmed the deletion).
///
/// # Errors
/// When there is no library `idx`; nothing changes then.
pub fn remove_library(libs: &mut Vec<Library>, idx: usize) -> (r: Result<(), RefineryError>)
    ensures
        idx >= old(libs)@.len() ==> (r matches Err(RefineryError::Generic(e)) && e@
            == "Library index out of bounds"@ && final(libs)@ == old(libs)@),
        idx < old(libs)@.len() ==> r is Ok && final(libs)@ == old(libs)@.remove(idx as int),
{
    if idx >= libs.len() {
        return Err(RefineryError::Generic(owned("Library index out of bounds")));
    }
    let _ = libs.remove(idx);
    Ok(())
}

/// The positions, among `[static, dynamic]`, of the types a library has:
/// the preselection of the types menu.
pub fn lib_type_defaults(types: &Vec<LibType>) -> (r: Vec<usize>)
    ensures
        r@ == (if types@.contains(LibType::Static) {
            seq![0usize]
        } else {
            Seq::<usize>::empty()
        }) + (if types@.contains(LibType::Dynamic) {
            seq![1usize]
        } else {
            Seq::<usize>::empty()
        }),
{
    let mut r: Vec<usize> = Vec::new();
    if has_type(types, LibType::Static) {
        r.push(0);
    }
    if has_type(types, LibType::Dynamic) {
        r.push(1);
    }
    assert(r@ =~= (if types@.contains(LibType::Static) {
        seq![0usize]
    } else {
        Seq::<usize>::empty()
    }) + (if types@.contains(LibType::Dynamic) {
        seq![1usize]
    } else {
        Seq::<usize>::empty()
    }));
    r
}

fn has_type(types: &Vec<LibType>, t: LibType) -> (r: bool)
    ensures
        r == types@.contains(t),
{
    let mut i: usize = 0;
    while i < types.len()
        invariant
            i <= types@.len(),
            forall|j: int| 0 <= j < i ==> types@[j] != t,
        decreases types@.len() - i,
    {
        if types[i] == t {
            assert(types@[i as int] == t);
            return true;
        }
        i = i + 1;
    }
    false
}


/// A name the wizard accepts keeps the artifact names distinct: adding a
/// binary or a library under a name no artifact has keeps a configuration
/// with distinct names so.
pub proof fn law_accepted_name_keeps_names_distinct(c: ConfigModel, b: BinaryModel, l: LibraryModel)
    requires
        names_distinct(artifact_names(c)),
    ensures
        !name_taken(c, b.name) ==> names_distinct(
            artifact_names(ConfigModel { binaries: c.binaries.push(b), ..c }),
        ),
        !name_taken(c, l.name) ==> names_distinct(
            artifact_names(ConfigModel { libraries: c.libraries.push(l), ..c }),
        ),
{
    let old = artifact_names(c);
    let nb = c.binaries.len();
    let nl = c.libraries.len();
    if !name_taken(c, b.name) {
        let c2 = ConfigModel { binaries: c.binaries.push(b), ..c };
        let new = artifact_names(c2);
        assert forall|i: int, j: int| 0 <= j < i < new.len() implies new[j] != new[i] by {
            let old_index = |k: int| if k < nb { k } else { k - 1 };
            if i == nb {
                if j < nb {
                    assert(new[j] == c.binaries[j].name);
                }
            } else if j == nb {
                assert(new[i] == c.libraries[i - nb - 1].name);
            } else {
                assert(new[i] == old[old_index(i)]);
                assert(new[j] == old[old_index(j)]);
            }
        }
    }
    if !name_taken(c, l.name) {
        let c2 = ConfigModel { libraries: c.libraries.push(l), ..c };
        let new = artifact_names(c2);
        assert forall|i: int, j: int| 0 <= j < i < new.len() implies new[j] != new[i] by {
            if i == nb + nl {
                if j < nb {
                    assert(new[j] == c.binaries[j].name);
                } else {
                    assert(new[j] == c.libraries[j - nb].name);
                }
            } else {
                assert(new[i] == old[i]);
                assert(new[j] == old[j]);
            }
        }
    }
}

} // verus!
