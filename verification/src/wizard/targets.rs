//! Configuring target matrices from the wizard's answers: the menus and
//! their preselections, and what a completed answer does to the targets.
use vstd::prelude::*;

use super::input::{csv_items, optional, optional_text, split_csv};
use crate::errors::RefineryError;
use crate::schema::artifacts::{clone_strings, Binary, Library};
use crate::schema::targets::{
    matrix_wf, overrides_wf, targets_wf, LinuxModel, LinuxTargets, MatrixModel, NameOverride,
    TargetMatrix, Targets, TargetsModel,
};
use crate::schema::types::{Arch, LibC, OS};
use crate::text::{owned, str_eq, strings_of};

verus! {

/// The options of the target-OS menu.
pub open spec fn os_menu() -> Seq<Seq<char>> {
    seq!["linux"@, "windows"@, "macos"@, "Back"@]
}

/// The target-OS menu: the three systems, then `Back`.
pub fn os_options() -> (r: Vec<String>)
    ensures
        r.deep_view() == os_menu(),
{
    let r = strings_of(&["linux", "windows", "macos", "Back"]);
    assert(r.deep_view() =~= os_menu());
    r
}

/// The system an OS-menu answer names; `None` ends the menu.
pub open spec fn os_of_choice(choice: Seq<char>) -> Option<OS> {
    if choice == "linux"@ {
        Some(OS::Linux)
    } else if choice == "windows"@ {
        Some(OS::Windows)
    } else if choice == "macos"@ {
        Some(OS::Macos)
    } else {
        None
    }
}

/// Reads an OS-menu answer.
pub fn parse_os(choice: &str) -> (r: Option<OS>)
    ensures
        r == os_of_choice(choice@),
{
    if str_eq(choice, "linux") {
        Some(OS::Linux)
    } else if str_eq(choice, "windows") {
        Some(OS::Windows)
    } else if str_eq(choice, "macos") {
        Some(OS::Macos)
    } else {
        None
    }
}

/// The matrix an OS already has (for Linux, the GNU one, else the musl
/// one): where the menus take their preselections from.
pub open spec fn existing_model(t: TargetsModel, os: OS) -> Option<MatrixModel> {
    match os {
        OS::Windows => t.windows,
        OS::Macos => t.macos,
        OS::Linux => match t.linux {
            Some(l) => if l.gnu is Some {
                l.gnu
            } else {
                l.musl
            },
            None => None,
        },
    }
}

/// The matrix an OS already has (see [`existing_model`]).
pub fn existing_matrix(targets: &Targets, os: OS) -> (r: Option<&TargetMatrix>)
    ensures
        match existing_model(targets@, os) {
            Some(m) => r matches Some(x) && x@ == m,
            None => r is None,
        },
{
    match os {
        OS::Windows => match &targets.windows {
            Some(m) => Some(m),
            None => None,
        },
        OS::Macos => match &targets.macos {
            Some(m) => Some(m),
            None => None,
        },
        OS::Linux => match &targets.linux {
            Some(l) => match &l.gnu {
                Some(m) => Some(m),
                None => match &l.musl {
                    Some(m) => Some(m),
                    None => None,
                },
            },
            None => None,
        },
    }
}

/// The preselection of the C-library menu (`[gnu, musl]`): the flavours
/// Linux already has.
pub open spec fn libc_preselection(t: TargetsModel) -> Seq<usize> {
    match t.linux {
        Some(l) => (if l.gnu is Some {
            seq![0usize]
        } else {
            Seq::<usize>::empty()
        }) + (if l.musl is Some {
            seq![1usize]
        } else {
            Seq::<usize>::empty()
        }),
        None => Seq::empty(),
    }
}

/// The preselection of the C-library menu.
pub fn libc_defaults(targets: &Targets) -> (r: Vec<usize>)
    ensures
        r@ == libc_preselection(targets@),
{
    let mut r: Vec<usize> = Vec::new();
    if let Some(l) = &targets.linux {
        if l.gnu.is_some() {
            r.push(0);
        }
        if l.musl.is_some() {
            r.push(1);
        }
    }
    assert(r@ =~= libc_preselection(targets@));
    r
}

/// The architectures offered when adding a target: macOS has no `i686`.
pub open spec fn setup_archs(os: OS) -> Seq<Arch> {
    if os == OS::Macos {
        seq![Arch::X86_64, Arch::Aarch64]
    } else {
        seq![Arch::X86_64, Arch::Aarch64, Arch::I686]
    }
}

/// The architectures offered when editing a matrix: macOS has no `i686`.
pub open spec fn edit_archs(os: OS) -> Seq<Arch> {
    if os == OS::Macos {
        seq![Arch::X86_64, Arch::Aarch64]
    } else {
        seq![Arch::X86_64, Arch::I686, Arch::Aarch64]
    }
}

/// The architecture menu when adding a target.
pub fn setup_arch_options(os: OS) -> (r: Vec<Arch>)
    ensures
        r@ == setup_archs(os),
{
    let mut r: Vec<Arch> = Vec::new();
    r.push(Arch::X86_64);
    r.push(Arch::Aarch64);
    if os != OS::Macos {
        r.push(Arch::I686);
    }
    assert(r@ =~= setup_archs(os));
    r
}

/// The architecture menu when editing a matrix.
pub fn edit_arch_options(os: OS) -> (r: Vec<Arch>)
    ensures
        r@ == edit_archs(os),
{
    let mut r: Vec<Arch> = Vec::new();
    r.push(Arch::X86_64);
    if os != OS::Macos {
        r.push(Arch::I686);
    }
    r.push(Arch::Aarch64);
    assert(r@ =~= edit_archs(os));
    r
}

/// The positions of the options that `present` holds, in order.
pub open spec fn positions_in<T>(options: Seq<T>, present: Seq<T>) -> Seq<usize>
    decreases options.len(),
{
    if options.len() == 0 {
        Seq::empty()
    } else {
        let rest = positions_in(options.drop_last(), present);
        if present.contains(options.last()) {
            rest.push((options.len() - 1) as usize)
        } else {
            rest
        }
    }
}

fn contains_arch(v: &Vec<Arch>, a: Arch) -> (r: bool)
    ensures
        r == v@.contains(a),
{
    let mut i: usize = 0;
    while i < v.len()
        invariant
            i <= v@.len(),
            forall|j: int| 0 <= j < i ==> v@[j] != a,
        decreases v@.len() - i,
    {
        if v[i] == a {
            assert(v@[i as int] == a);
            return true;
        }
        i = i + 1;
    }
    false
}

fn contains_name(v: &Vec<String>, s: &str) -> (r: bool)
    ensures
        r == v.deep_view().contains(s@),
{
    let mut i: usize = 0;
    while i < v.len()
        invariant
            i <= v@.len(),
            forall|j: int| 0 <= j < i ==> v.deep_view()[j] != s@,
        decreases v@.len() - i,
    {
        if str_eq(v[i].as_str(), s) {
            assert(v.deep_view()[i as int] == s@);
            return true;
        }
        i = i + 1;
    }
    false
}

/// The preselected architectures: the positions of those the matrix has.
pub fn arch_defaults(options: &Vec<Arch>, present: &Vec<Arch>) -> (r: Vec<usize>)
    ensures
        r@ == positions_in(options@, present@),
{
    let mut r: Vec<usize> = Vec::new();
    let mut i: usize = 0;
    while i < options.len()
        invariant
            i <= options@.len(),
            r@ == positions_in(options@.take(i as int), present@),
        decreases options@.len() - i,
    {
        assert(options@.take(i as int + 1).drop_last() =~= options@.take(i as int));
        if contains_arch(present, options[i]) {
            r.push(i);
        }
        i = i + 1;
    }
    assert(options@.take(options@.len() as int) =~= options@);
    r
}

/// The preselected names: the positions of those the matrix has.
pub fn name_defaults(options: &Vec<String>, present: &Vec<String>) -> (r: Vec<usize>)
    ensures
        r@ == positions_in(options.deep_view(), present.deep_view()),
{
    let ghost opts = options.deep_view();
    let mut r: Vec<usize> = Vec::new();
    let mut i: usize = 0;
    while i < options.len()
        invariant
            i <= options@.len(),
            opts == options.deep_view(),
            r@ == positions_in(opts.take(i as int), present.deep_view()),
        decreases options@.len() - i,
    {
        assert(opts.take(i as int + 1).drop_last() =~= opts.take(i as int));
        assert(opts.take(i as int + 1).last() == options@[i as int]@);
        if contains_name(present, options[i].as_str()) {
            r.push(i);
        }
        i = i + 1;
    }
    assert(opts.take(opts.len() as int) =~= opts);
    r
}

/// The artifacts offered for a target: binaries, then libraries.
pub open spec fn artifact_menu(bins: Seq<Binary>, libs: Seq<Library>) -> Seq<Seq<char>> {
    bins.map_values(|b: Binary| b.name@) + libs.map_values(|l: Library| l.name@)
}

/// The artifact menu of a target.
pub fn artifact_options(bins: &[Binary], libs: &[Library]) -> (r: Vec<String>)
    ensures
        r.deep_view() == artifact_menu(bins@, libs@),
{
    let mut r: Vec<String> = Vec::new();
    let mut i: usize = 0;
    while i < bins.len()
        invariant
            i <= bins@.len(),
            r@.len() == i,
            forall|j: int| 0 <= j < i ==> #[trigger] r@[j]@ == bins@[j].name@,
        decreases bins@.len() - i,
    {
        r.push(bins[i].name.clone());
        i = i + 1;
    }
    let n = bins.len();
    let mut k: usize = 0;
    while k < libs.len()
        invariant
            k <= libs@.len(),
            n == bins@.len(),
            r@.len() == n + k,
            forall|j: int| 0 <= j < n ==> #[trigger] r@[j]@ == bins@[j].name@,
            forall|j: int| 0 <= j < k ==> #[trigger] r@[n + j]@ == libs@[j].name@,
        decreases libs@.len() - k,
    {
        r.push(libs[k].name.clone());
        assert(r@[n + k as int]@ == libs@[k as int].name@);
        k = k + 1;
    }
    assert forall|j: int| 0 <= j < r@.len() implies #[trigger] r.deep_view()[j] == artifact_menu(
        bins@,
        libs@,
    )[j] by {
        if j >= n {
            assert(r@[n + (j - n)]@ == libs@[j - n].name@);
        }
    }
    assert(r.deep_view() =~= artifact_menu(bins@, libs@));
    r
}

/// All positions `0..n`.
pub open spec fn all_positions(n: nat) -> Seq<usize> {
    Seq::new(n, |i: int| i as usize)
}

/// The preselected artifacts: all of them for a new target, else those the
/// existing matrix includes.
pub fn artifact_defaults(existing: Option<&TargetMatrix>, options: &Vec<String>) -> (r: Vec<usize>)
    ensures
        r@ == match existing {
            Some(m) => positions_in(options.deep_view(), m.artifacts.deep_view()),
            None => all_positions(options@.len()),
        },
{
    match existing {
        Some(m) => name_defaults(options, &m.artifacts),
        None => {
            let mut r: Vec<usize> = Vec::new();
            let mut i: usize = 0;
            while i < options.len()
                invariant
                    i <= options@.len(),
                    r@ == all_positions(i as nat),
                decreases options@.len() - i,
            {
                r.push(i);
                i = i + 1;
                assert(r@ =~= all_positions(i as nat));
            }
            r
        },
    }
}

/// The package formats offered for an OS.
pub open spec fn pkg_menu(os: OS) -> Seq<Seq<char>> {
    match os {
        OS::Linux => seq!["deb"@, "rpm"@, "tar.gz"@],
        OS::Windows => seq!["msi"@, "zip"@],
        OS::Macos => seq!["dmg"@, "pkg"@, "tar.gz"@],
    }
}

/// The package-format menu of an OS.
pub fn pkg_options(os: OS) -> (r: Vec<String>)
    ensures
        r.deep_view() == pkg_menu(os),
{
    let r = match os {
        OS::Linux => strings_of(&["deb", "rpm", "tar.gz"]),
        OS::Windows => strings_of(&["msi", "zip"]),
        OS::Macos => strings_of(&["dmg", "pkg", "tar.gz"]),
    };
    assert(r.deep_view() =~= pkg_menu(os));
    r
}

/// Some binary is among the selected artifacts (packages and stripping are
/// only asked about then).
pub open spec fn selects_binary(bins: Seq<Binary>, artifacts: Seq<Seq<char>>) -> bool {
    exists|i: int| 0 <= i < bins.len() && artifacts.contains(#[trigger] bins[i].name@)
}

/// Whether some binary is among the selected artifacts.
pub fn includes_binary(bins: &[Binary], artifacts: &Vec<String>) -> (r: bool)
    ensures
        r == selects_binary(bins@, artifacts.deep_view()),
{
    let mut i: usize = 0;
    while i < bins.len()
        invariant
            i <= bins@.len(),
            forall|j: int| 0 <= j < i ==> !artifacts.deep_view().contains(#[trigger] bins@[j].name@),
        decreases bins@.len() - i,
    {
        if contains_name(artifacts, bins[i].name.as_str()) {
            return true;
        }
        i = i + 1;
    }
    false
}

/// The preselection of the strip question: what the existing matrix has.
pub fn strip_default(existing: Option<&TargetMatrix>) -> (r: bool)
    ensures
        r == match existing {
            Some(m) => m.strip,
            None => false,
        },
{
    match existing {
        Some(m) => m.strip,
        None => false,
    }
}

/// The answers of the target wizard for one OS.
pub struct TargetChoice {
    pub archs: Vec<Arch>,
    pub artifacts: Vec<String>,
    pub pkg: Vec<String>,
    pub strip: bool,
}

/// The matrix the answers make: Windows binaries get `.exe`, and no
/// overrides are kept.
pub open spec fn chosen_matrix(os: OS, c: TargetChoice) -> MatrixModel {
    MatrixModel {
        archs: c.archs@,
        artifacts: c.artifacts.deep_view(),
        pkg: c.pkg.deep_view(),
        ext: if os == OS::Windows {
            Some(".exe"@)
        } else {
            None
        },
        strip: c.strip,
        overrides: None,
    }
}

/// The targets with `m` stored for `(os, libc)` (the flavour only matters
/// on Linux); the other matrices are kept.
pub open spec fn with_matrix(t: TargetsModel, os: OS, libc: LibC, m: MatrixModel) -> TargetsModel {
    match os {
        OS::Linux => {
            let l = match t.linux {
                Some(l) => l,
                None => LinuxModel { gnu: None, musl: None },
            };
            let l2 = match libc {
                LibC::Gnu => LinuxModel { gnu: Some(m), ..l },
                LibC::Musl => LinuxModel { musl: Some(m), ..l },
            };
            TargetsModel { linux: Some(l2), ..t }
        },
        OS::Windows => TargetsModel { windows: Some(m), ..t },
        OS::Macos => TargetsModel { macos: Some(m), ..t },
    }
}

/// The targets after storing `m` for each flavour in turn.
pub open spec fn with_matrices(t: TargetsModel, os: OS, libcs: Seq<LibC>, m: MatrixModel) -> TargetsModel
    decreases libcs.len(),
{
    if libcs.len() == 0 {
        t
    } else {
        with_matrix(with_matrices(t, os, libcs.drop_last(), m), os, libcs.last(), m)
    }
}

fn dup_matrix(m: &Option<TargetMatrix>) -> (r: Option<TargetMatrix>)
    ensures
        r.deep_view() == m.deep_view(),
{
    match m {
        Some(x) => Some(x.duplicate()),
        None => None,
    }
}

/// Stores `m` for `(os, libc)`, keeping the other matrices.
pub fn set_matrix(targets: &mut Targets, os: OS, libc: LibC, m: TargetMatrix)
    ensures
        final(targets)@ == with_matrix(old(targets)@, os, libc, m@),
        targets_wf(old(targets)@) && matrix_wf(m@) ==> targets_wf(final(targets)@),
{
    match os {
        OS::Linux => {
            let (gnu, musl) = match &targets.linux {
                Some(l) => (dup_matrix(&l.gnu), dup_matrix(&l.musl)),
                None => (None, None),
            };
            let l = match libc {
                LibC::Gnu => LinuxTargets { gnu: Some(m), musl },
                LibC::Musl => LinuxTargets { gnu, musl: Some(m) },
            };
            targets.linux = Some(l);
        },
        OS::Windows => {
            targets.windows = Some(m);
        },
        OS::Macos => {
            targets.macos = Some(m);
        },
    }
}

fn matrix_of_choice(os: OS, choice: &TargetChoice) -> (r: TargetMatrix)
    ensures
        r@ == chosen_matrix(os, *choice),
{
    let mut archs: Vec<Arch> = Vec::new();
    let mut i: usize = 0;
    while i < choice.archs.len()
        invariant
            i <= choice.archs@.len(),
            archs@ == choice.archs@.take(i as int),
        decreases choice.archs@.len() - i,
    {
        archs.push(choice.archs[i]);
        i = i + 1;
        assert(archs@ =~= choice.archs@.take(i as int));
    }
    assert(choice.archs@.take(choice.archs@.len() as int) =~= choice.archs@);
    TargetMatrix {
        archs,
        artifacts: clone_strings(&choice.artifacts),
        pkg: clone_strings(&choice.pkg),
        ext: if os == OS::Windows {
            Some(owned(".exe"))
        } else {
            None
        },
        strip: choice.strip,
        overrides: None,
    }
}

/// Stores the answers of the target wizard for each selected C-library
/// flavour (one, ignored, for Windows and macOS).
fn apply_target_choice(targets: &mut Targets, os: OS, libcs: &Vec<LibC>, choice: &TargetChoice)
    ensures
        final(targets)@ == with_matrices(old(targets)@, os, libcs@, chosen_matrix(os, *choice)),
        targets_wf(old(targets)@) ==> targets_wf(final(targets)@),
{
    let ghost start = targets@;
    let mut i: usize = 0;
    while i < libcs.len()
        invariant
            i <= libcs@.len(),
            targets@ == with_matrices(start, os, libcs@.take(i as int), chosen_matrix(os, *choice)),
            targets_wf(start) ==> targets_wf(targets@),
        decreases libcs@.len() - i,
    {
        assert(libcs@.take(i as int + 1).drop_last() =~= libcs@.take(i as int));
        let m = matrix_of_choice(os, choice);
        set_matrix(targets, os, libcs[i], m);
        i = i + 1;
    }
    assert(libcs@.take(libcs@.len() as int) =~= libcs@);
}


/// The matrix stored for `(os, libc)`, if any (Linux needs a flavour).
pub open spec fn matrix_model_at(t: TargetsModel, os: OS, libc: Option<LibC>) -> Option<MatrixModel> {
    match (os, libc) {
        (OS::Linux, Some(LibC::Gnu)) => match t.linux {
            Some(l) => l.gnu,
            None => None,
        },
        (OS::Linux, Some(LibC::Musl)) => match t.linux {
            Some(l) => l.musl,
            None => None,
        },
        (OS::Linux, None) => None,
        (OS::Windows, _) => t.windows,
        (OS::Macos, _) => t.macos,
    }
}

/// The matrix stored for `(os, libc)`.
///
/// # Errors
/// When there is none.
pub fn matrix_at(targets: &Targets, os: OS, libc: Option<LibC>) -> (r: Result<&TargetMatrix, RefineryError>)
    ensures
        match matrix_model_at(targets@, os, libc) {
            Some(m) => r matches Ok(x) && x@ == m,
            None => r matches Err(RefineryError::Generic(e)) && e@
                == "Target configuration not found"@,
        },
{
    let found: Option<&TargetMatrix> = match (os, libc) {
        (OS::Linux, Some(LibC::Gnu)) => match &targets.linux {
            Some(l) => match &l.gnu {
                Some(m) => Some(m),
                None => None,
            },
            None => None,
        },
        (OS::Linux, Some(LibC::Musl)) => match &targets.linux {
            Some(l) => match &l.musl {
                Some(m) => Some(m),
                None => None,
            },
            None => None,
        },
        (OS::Linux, None) => None,
        (OS::Windows, _) => match &targets.windows {
            Some(m) => Some(m),
            None => None,
        },
        (OS::Macos, _) => match &targets.macos {
            Some(m) => Some(m),
            None => None,
        },
    };
    match found {
        Some(m) => Ok(m),
        None => Err(RefineryError::Generic(owned("Target configuration not found"))),
    }
}

/// The target an entry of the targets menu stands for, by its prefix.
pub open spec fn target_of_choice(choice: Seq<char>) -> Option<(OS, Option<LibC>)> {
    if crate::text::has_prefix(choice, "linux-gnu"@) {
        Some((OS::Linux, Some(LibC::Gnu)))
    } else if crate::text::has_prefix(choice, "linux-musl"@) {
        Some((OS::Linux, Some(LibC::Musl)))
    } else if crate::text::has_prefix(choice, "windows"@) {
        Some((OS::Windows, None))
    } else if crate::text::has_prefix(choice, "macos"@) {
        Some((OS::Macos, None))
    } else {
        None
    }
}

/// Reads an entry of the targets menu.
pub fn parse_target_choice(choice: &str) -> (r: Option<(OS, Option<LibC>)>)
    ensures
        r == target_of_choice(choice@),
{
    if crate::text::starts_with(choice, "linux-gnu") {
        Some((OS::Linux, Some(LibC::Gnu)))
    } else if crate::text::starts_with(choice, "linux-musl") {
        Some((OS::Linux, Some(LibC::Musl)))
    } else if crate::text::starts_with(choice, "windows") {
        Some((OS::Windows, None))
    } else if crate::text::starts_with(choice, "macos") {
        Some((OS::Macos, None))
    } else {
        None
    }
}

/// The targets without the matrix of `(os, libc)`.
pub open spec fn without_matrix(t: TargetsModel, os: OS, libc: Option<LibC>) -> TargetsModel {
    match (os, libc) {
        (OS::Linux, Some(LibC::Gnu)) => match t.linux {
            Some(l) => TargetsModel { linux: Some(LinuxModel { gnu: None, ..l }), ..t },
            None => t,
        },
        (OS::Linux, Some(LibC::Musl)) => match t.linux {
            Some(l) => TargetsModel { linux: Some(LinuxModel { musl: None, ..l }), ..t },
            None => t,
        },
        (OS::Linux, None) => t,
        (OS::Windows, _) => TargetsModel { windows: None, ..t },
        (OS::Macos, _) => TargetsModel { macos: None, ..t },
    }
}

/// Removes the matrix of `(os, libc)`.
pub fn remove_matrix(targets: &mut Targets, os: OS, libc: Option<LibC>)
    ensures
        final(targets)@ == without_matrix(old(targets)@, os, libc),
        targets_wf(old(targets)@) ==> targets_wf(final(targets)@),
{
    match (os, libc) {
        (OS::Linux, Some(LibC::Gnu)) => {
            let kept = match &targets.linux {
                Some(l) => Some(LinuxTargets { gnu: None, musl: dup_matrix(&l.musl) }),
                None => None,
            };
            targets.linux = kept;
        },
        (OS::Linux, Some(LibC::Musl)) => {
            let kept = match &targets.linux {
                Some(l) => Some(LinuxTargets { gnu: dup_matrix(&l.gnu), musl: None }),
                None => None,
            };
            targets.linux = kept;
        },
        (OS::Linux, None) => {},
        (OS::Windows, _) => {
            targets.windows = None;
        },
        (OS::Macos, _) => {
            targets.macos = None;
        },
    }
}

/// An answer in the matrix editor.
pub enum MatrixEdit {
    /// The selected architectures.
    Archs(Vec<Arch>),
    /// The selected artifacts.
    Artifacts(Vec<String>),
    /// A comma-separated list of package formats.
    Packages(String),
    /// A binary suffix; blank removes it.
    Suffix(String),
    /// Flip symbol stripping.
    ToggleStrip,
    /// The naming rules edited in the overrides manager; an empty list is
    /// stored as none.
    Overrides(Vec<(String, NameOverride)>),
}

/// The naming rules stored for an edited list: none when it is empty.
pub open spec fn stored_rules(
    ovs: Seq<(Seq<char>, crate::schema::targets::NameOverrideModel)>,
) -> Option<Seq<(Seq<char>, crate::schema::targets::NameOverrideModel)>> {
    if ovs.len() == 0 {
        None
    } else {
        Some(ovs)
    }
}

/// An edit keeps a matrix well formed: new naming rules must be.
pub open spec fn edit_wf(e: MatrixEdit) -> bool {
    match e {
        MatrixEdit::Overrides(o) => overrides_wf(o.deep_view()),
        _ => true,
    }
}

/// A matrix after an edit.
pub open spec fn matrix_edited(m: MatrixModel, e: MatrixEdit) -> MatrixModel {
    match e {
        MatrixEdit::Archs(a) => MatrixModel { archs: a@, ..m },
        MatrixEdit::Artifacts(a) => MatrixModel { artifacts: a.deep_view(), ..m },
        MatrixEdit::Packages(s) => MatrixModel { pkg: csv_items(s@), ..m },
        MatrixEdit::Suffix(s) => MatrixModel { ext: optional(s@), ..m },
        MatrixEdit::ToggleStrip => MatrixModel { strip: !m.strip, ..m },
        MatrixEdit::Overrides(o) => MatrixModel { overrides: stored_rules(o.deep_view()), ..m },
    }
}

/// Applies an edit to the matrix of `(os, libc)`.
///
/// # Errors
/// When there is no such matrix; the targets are then unchanged.
pub fn edit_matrix(targets: &mut Targets, os: OS, libc: Option<LibC>, edit: MatrixEdit) -> (r: Result<
    (),
    RefineryError,
>)
    ensures
        match matrix_model_at(old(targets)@, os, libc) {
            Some(m) => r is Ok && final(targets)@ == with_matrix(
                old(targets)@,
                os,
                match libc {
                    Some(l) => l,
                    None => LibC::Gnu,
                },
                matrix_edited(m, edit),
            ),
            None => r matches Err(RefineryError::Generic(e)) && e@
                == "Failed to get mutable target"@ && final(targets)@ == old(targets)@,
        },
        targets_wf(old(targets)@) && edit_wf(edit) ==> targets_wf(final(targets)@),
{
    let current = match matrix_at(targets, os, libc) {
        Ok(m) => m.duplicate(),
        Err(_) => {
            return Err(RefineryError::Generic(owned("Failed to get mutable target")));
        },
    };
    let updated = match edit {
        MatrixEdit::Archs(a) => TargetMatrix { archs: a, ..current },
        MatrixEdit::Artifacts(a) => TargetMatrix { artifacts: a, ..current },
        MatrixEdit::Packages(s) => TargetMatrix { pkg: split_csv(s.as_str()), ..current },
        MatrixEdit::Suffix(s) => TargetMatrix { ext: optional_text(s.as_str()), ..current },
        MatrixEdit::ToggleStrip => TargetMatrix { strip: !current.strip, ..current },
        MatrixEdit::Overrides(o) => {
            let stored = if o.len() == 0 {
                None
            } else {
                Some(o)
            };
            TargetMatrix { overrides: stored, ..current }
        },
    };
    let flavour = match libc {
        Some(l) => l,
        None => LibC::Gnu,
    };
    set_matrix(targets, os, flavour, updated);
    Ok(())
}


/// What the target wizard stores is what the matrix editor then finds for
/// that system (and flavour on Linux); storing one Linux flavour keeps the
/// other, and storing for one system keeps the others.
pub proof fn law_stored_matrix_found(t: TargetsModel, os: OS, libc: LibC, m: MatrixModel)
    ensures
        matrix_model_at(
            with_matrix(t, os, libc, m),
            os,
            if os == OS::Linux {
                Some(libc)
            } else {
                None
            },
        ) == Some(m),
        existing_model(with_matrix(t, os, libc, m), os) is Some,
        os == OS::Linux ==> matrix_model_at(
            with_matrix(t, os, libc, m),
            os,
            Some(
                match libc {
                    LibC::Gnu => LibC::Musl,
                    LibC::Musl => LibC::Gnu,
                },
            ),
        ) == matrix_model_at(
            t,
            os,
            Some(
                match libc {
                    LibC::Gnu => LibC::Musl,
                    LibC::Musl => LibC::Gnu,
                },
            ),
        ),
        os != OS::Linux ==> with_matrix(t, os, libc, m).linux == t.linux,
        os != OS::Windows ==> with_matrix(t, os, libc, m).windows == t.windows,
        os != OS::Macos ==> with_matrix(t, os, libc, m).macos == t.macos,
{
}

/// A removed matrix is no longer found; the other matrices stay.
pub proof fn law_removed_matrix_gone(t: TargetsModel, os: OS, libc: Option<LibC>)
    ensures
        matrix_model_at(without_matrix(t, os, libc), os, libc) is None,
        os != OS::Windows ==> without_matrix(t, os, libc).windows == t.windows,
        os != OS::Macos ==> without_matrix(t, os, libc).macos == t.macos,
{
}


/// What the target wizard did with a set of answers.
#[derive(Clone, Copy, Debug, PartialEq, Eq, Structural)]
pub enum TargetAnswer {
    /// The matrix was stored.
    Stored,
    /// No architecture was selected: the target is skipped.
    NoArchs,
    /// No artifact was selected: the target is skipped.
    NoArtifacts,
    /// An answer was not among the options offered: the target is skipped.
    Unoffered,
}

/// Every architecture is among those offered for the system.
pub open spec fn archs_offered(archs: Seq<Arch>, os: OS) -> bool {
    forall|i: int| 0 <= i < archs.len() ==> setup_archs(os).contains(#[trigger] archs[i])
}

/// Every artifact is a configured binary or library.
pub open spec fn artifacts_configured(
    artifacts: Seq<Seq<char>>,
    bins: Seq<Binary>,
    libs: Seq<Library>,
) -> bool {
    forall|i: int| 0 <= i < artifacts.len() ==> artifact_menu(bins, libs).contains(#[trigger] artifacts[i])
}

/// The matrix stored for the answers: packages and stripping only when a
/// binary is among the artifacts.
pub open spec fn stored_matrix(os: OS, c: TargetChoice, bins: Seq<Binary>) -> MatrixModel {
    let has_bins = selects_binary(bins, c.artifacts.deep_view());
    MatrixModel {
        pkg: if has_bins {
            c.pkg.deep_view()
        } else {
            Seq::empty()
        },
        strip: has_bins && c.strip,
        ..chosen_matrix(os, c)
    }
}

/// A matrix the wizard may store: architectures and artifacts selected,
/// artifacts configured, `.exe` exactly on Windows, no packages and no
/// stripping without a binary, and no `i686` on macOS.
pub open spec fn matrix_sound(m: MatrixModel, os: OS, bins: Seq<Binary>, libs: Seq<Library>) -> bool {
    &&& m.archs.len() > 0
    &&& m.artifacts.len() > 0
    &&& artifacts_configured(m.artifacts, bins, libs)
    &&& m.ext == (if os == OS::Windows {
        Some(".exe"@)
    } else {
        None
    })
    &&& (!selects_binary(bins, m.artifacts) ==> m.pkg.len() == 0 && !m.strip)
    &&& (os == OS::Macos ==> !m.archs.contains(Arch::I686))
    &&& matrix_wf(m)
}

/// What the wizard does with a set of answers.
pub open spec fn answer_of(
    os: OS,
    c: TargetChoice,
    bins: Seq<Binary>,
    libs: Seq<Library>,
) -> TargetAnswer {
    if c.archs@.len() == 0 {
        TargetAnswer::NoArchs
    } else if c.artifacts@.len() == 0 {
        TargetAnswer::NoArtifacts
    } else if !archs_offered(c.archs@, os) || !artifacts_configured(
        c.artifacts.deep_view(),
        bins,
        libs,
    ) {
        TargetAnswer::Unoffered
    } else {
        TargetAnswer::Stored
    }
}

fn all_archs_offered(archs: &Vec<Arch>, os: OS) -> (r: bool)
    ensures
        r == archs_offered(archs@, os),
{
    let offered = setup_arch_options(os);
    let mut i: usize = 0;
    while i < archs.len()
        invariant
            i <= archs@.len(),
            offered@ == setup_archs(os),
            forall|k: int| 0 <= k < i ==> setup_archs(os).contains(#[trigger] archs@[k]),
        decreases archs@.len() - i,
    {
        if !contains_arch(&offered, archs[i]) {
            return false;
        }
        i = i + 1;
    }
    true
}

fn all_configured(artifacts: &Vec<String>, bins: &[Binary], libs: &[Library]) -> (r: bool)
    ensures
        r == artifacts_configured(artifacts.deep_view(), bins@, libs@),
{
    let names = artifact_options(bins, libs);
    let mut i: usize = 0;
    while i < artifacts.len()
        invariant
            i <= artifacts@.len(),
            names.deep_view() == artifact_menu(bins@, libs@),
            forall|k: int|
                0 <= k < i ==> artifact_menu(bins@, libs@).contains(
                    #[trigger] artifacts.deep_view()[k],
                ),
        decreases artifacts@.len() - i,
    {
        if !contains_name(&names, artifacts[i].as_str()) {
            assert(!artifact_menu(bins@, libs@).contains(artifacts.deep_view()[i as int]));
            return false;
        }
        i = i + 1;
    }
    true
}

fn copy_archs(v: &Vec<Arch>) -> (r: Vec<Arch>)
    ensures
        r@ == v@,
{
    let mut r: Vec<Arch> = Vec::new();
    let mut i: usize = 0;
    while i < v.len()
        invariant
            i <= v@.len(),
            r@ == v@.take(i as int),
        decreases v@.len() - i,
    {
        r.push(v[i]);
        i = i + 1;
        assert(r@ =~= v@.take(i as int));
    }
    assert(v@.take(v@.len() as int) =~= v@);
    r
}

/// Stores the answers of the target wizard for one OS, for each selected
/// C-library flavour (one, ignored, for Windows and macOS). A target without
/// architectures or artifacts, or with an answer that was not offered, is
/// skipped; packages and stripping are only kept when a binary is selected.
/// Every stored matrix is sound (see [`matrix_sound`]).
pub fn store_target_answers(
    targets: &mut Targets,
    os: OS,
    libcs: &Vec<LibC>,
    choice: &TargetChoice,
    bins: &[Binary],
    libs: &[Library],
) -> (r: TargetAnswer)
    ensures
        r == answer_of(os, *choice, bins@, libs@),
        r != TargetAnswer::Stored ==> final(targets)@ == old(targets)@,
        targets_wf(old(targets)@) ==> targets_wf(final(targets)@),
        r == TargetAnswer::Stored ==> final(targets)@ == with_matrices(
            old(targets)@,
            os,
            libcs@,
            stored_matrix(os, *choice, bins@),
        ) && matrix_sound(stored_matrix(os, *choice, bins@), os, bins@, libs@),
{
    if choice.archs.len() == 0 {
        return TargetAnswer::NoArchs;
    }
    if choice.artifacts.len() == 0 {
        return TargetAnswer::NoArtifacts;
    }
    if !all_archs_offered(&choice.archs, os) || !all_configured(&choice.artifacts, bins, libs) {
        return TargetAnswer::Unoffered;
    }
    let has_bins = includes_binary(bins, &choice.artifacts);
    let kept = TargetChoice {
        archs: copy_archs(&choice.archs),
        artifacts: clone_strings(&choice.artifacts),
        pkg: if has_bins {
            clone_strings(&choice.pkg)
        } else {
            Vec::new()
        },
        strip: has_bins && choice.strip,
    };
    assert(!has_bins ==> kept.pkg.deep_view() =~= Seq::<Seq<char>>::empty());
    assert(chosen_matrix(os, kept) == stored_matrix(os, *choice, bins@));
    proof {
        if os == OS::Macos && choice.archs@.contains(Arch::I686) {
            let i = choose|i: int| 0 <= i < choice.archs@.len() && choice.archs@[i] == Arch::I686;
            assert(setup_archs(os).contains(choice.archs@[i]));
            assert(setup_archs(os) =~= seq![Arch::X86_64, Arch::Aarch64]);
        }
    }
    apply_target_choice(targets, os, libcs, &kept);
    TargetAnswer::Stored
}

/// A sound matrix resolves to triples: its `get_triples` succeeds on every
/// flavour the wizard stores it for.
pub proof fn law_sound_matrix_resolves(
    m: MatrixModel,
    os: OS,
    libc: LibC,
    bins: Seq<Binary>,
    libs: Seq<Library>,
)
    requires
        matrix_sound(m, os, bins, libs),
    ensures
        crate::schema::targets::all_supported(
            m.archs,
            os,
            if os == OS::Linux {
                Some(libc)
            } else {
                None
            },
        ),
{
    crate::schema::targets::law_supported_platforms(
        m.archs,
        os,
        if os == OS::Linux {
            Some(libc)
        } else {
            None
        },
    );
}

} // verus!
