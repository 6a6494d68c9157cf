//! Target matrices: which architectures, artifacts and package formats are
//! built for each operating system, and how artifacts are named.
use vstd::prelude::*;

use super::artifacts::{clone_opt_string, clone_strings};
use super::types::{arch_part, Arch, LibC, OS};
use crate::errors::RefineryError;
use crate::text::{concat, ends_with, has_suffix, owned, str_eq};

verus! {

/// Fine-grained naming rule for one artifact.
pub struct NameOverride {
    pub out_name: Option<String>,
    pub per_arch: Option<Vec<(Arch, String)>>,
    pub per_pkg: Option<Vec<(String, String)>>,
}

/// Build settings for one operating system (and C library flavour).
pub struct TargetMatrix {
    pub archs: Vec<Arch>,
    pub artifacts: Vec<String>,
    pub pkg: Vec<String>,
    pub ext: Option<String>,
    pub strip: bool,
    pub overrides: Option<Vec<(String, NameOverride)>>,
}

/// Linux target matrices, one per C library flavour.
pub struct LinuxTargets {
    pub gnu: Option<TargetMatrix>,
    pub musl: Option<TargetMatrix>,
}

/// All target matrices of a project.
pub struct Targets {
    pub linux: Option<LinuxTargets>,
    pub windows: Option<TargetMatrix>,
    pub macos: Option<TargetMatrix>,
}

/// Abstract value of a [`NameOverride`].
pub struct NameOverrideModel {
    pub out_name: Option<Seq<char>>,
    pub per_arch: Option<Seq<(Arch, Seq<char>)>>,
    pub per_pkg: Option<Seq<(Seq<char>, Seq<char>)>>,
}

/// Abstract value of a [`TargetMatrix`].
pub struct MatrixModel {
    pub archs: Seq<Arch>,
    pub artifacts: Seq<Seq<char>>,
    pub pkg: Seq<Seq<char>>,
    pub ext: Option<Seq<char>>,
    pub strip: bool,
    pub overrides: Option<Seq<(Seq<char>, NameOverrideModel)>>,
}

/// Abstract value of [`LinuxTargets`].
pub struct LinuxModel {
    pub gnu: Option<MatrixModel>,
    pub musl: Option<MatrixModel>,
}

/// Abstract value of [`Targets`].
pub struct TargetsModel {
    pub linux: Option<LinuxModel>,
    pub windows: Option<MatrixModel>,
    pub macos: Option<MatrixModel>,
}

impl DeepView for Arch {
    type V = Arch;

    open spec fn deep_view(&self) -> Arch {
        *self
    }
}

impl View for NameOverride {
    type V = NameOverrideModel;

    open spec fn view(&self) -> NameOverrideModel {
        NameOverrideModel {
            out_name: self.out_name.deep_view(),
            per_arch: self.per_arch.deep_view(),
            per_pkg: self.per_pkg.deep_view(),
        }
    }
}

impl DeepView for NameOverride {
    type V = NameOverrideModel;

    open spec fn deep_view(&self) -> NameOverrideModel {
        self@
    }
}

impl View for TargetMatrix {
    type V = MatrixModel;

    open spec fn view(&self) -> MatrixModel {
        MatrixModel {
            archs: self.archs@,
            artifacts: self.artifacts.deep_view(),
            pkg: self.pkg.deep_view(),
            ext: self.ext.deep_view(),
            strip: self.strip,
            overrides: self.overrides.deep_view(),
        }
    }
}

impl DeepView for TargetMatrix {
    type V = MatrixModel;

    open spec fn deep_view(&self) -> MatrixModel {
        self@
    }
}

impl View for LinuxTargets {
    type V = LinuxModel;

    open spec fn view(&self) -> LinuxModel {
        LinuxModel { gnu: self.gnu.deep_view(), musl: self.musl.deep_view() }
    }
}

impl DeepView for LinuxTargets {
    type V = LinuxModel;

    open spec fn deep_view(&self) -> LinuxModel {
        self@
    }
}

impl View for Targets {
    type V = TargetsModel;

    open spec fn view(&self) -> TargetsModel {
        TargetsModel {
            linux: self.linux.deep_view(),
            windows: self.windows.deep_view(),
            macos: self.macos.deep_view(),
        }
    }
}

/// The value bound to the first occurrence of `k` in an association list.
pub open spec fn lookup<K, V>(s: Seq<(K, V)>, k: K) -> Option<V>
    decreases s.len(),
{
    if s.len() == 0 {
        None
    } else if s[0].0 == k {
        Some(s[0].1)
    } else {
        lookup(s.subrange(1, s.len() as int), k)
    }
}

/// No key occurs twice.
pub open spec fn keys_distinct<K, V>(s: Seq<(K, V)>) -> bool {
    forall|a: int, b: int| 0 <= a < b < s.len() ==> s[a].0 != s[b].0
}

/// The pairs of an optional list, none when absent.
pub open spec fn pairs_of<K, V>(s: Option<Seq<(K, V)>>) -> Seq<(K, V)> {
    match s {
        Some(x) => x,
        None => Seq::empty(),
    }
}

/// A naming rule names each architecture and each package format at most
/// once.
pub open spec fn rule_wf(r: NameOverrideModel) -> bool {
    keys_distinct(pairs_of(r.per_arch)) && keys_distinct(pairs_of(r.per_pkg))
}

/// A list of naming rules holds at most one rule per artifact, each well
/// formed.
pub open spec fn overrides_wf(ovs: Seq<(Seq<char>, NameOverrideModel)>) -> bool {
    keys_distinct(ovs) && forall|i: int| 0 <= i < ovs.len() ==> rule_wf(#[trigger] ovs[i].1)
}

/// A matrix's naming rules, when present, are well formed: they behave as
/// maps.
pub open spec fn matrix_wf(m: MatrixModel) -> bool {
    m.overrides matches Some(ovs) ==> overrides_wf(ovs)
}

/// An optional matrix is absent or well formed.
pub open spec fn opt_matrix_wf(m: Option<MatrixModel>) -> bool {
    m matches Some(x) ==> matrix_wf(x)
}

/// Every matrix of the targets is well formed.
pub open spec fn targets_wf(t: TargetsModel) -> bool {
    &&& (t.linux matches Some(l) ==> opt_matrix_wf(l.gnu) && opt_matrix_wf(l.musl))
    &&& opt_matrix_wf(t.windows)
    &&& opt_matrix_wf(t.macos)
}

/// In a list without repeated keys, looking up the key of any entry finds
/// that entry: the first match is the only one.
pub proof fn lemma_lookup_distinct<K, V>(s: Seq<(K, V)>, i: int)
    requires
        keys_distinct(s),
        0 <= i < s.len(),
    ensures
        lookup(s, s[i].0) == Some(s[i].1),
    decreases s.len(),
{
    if i > 0 {
        let t = s.subrange(1, s.len() as int);
        assert(s[0].0 != s[i].0);
        assert(t[i - 1] == s[i]);
        assert forall|a: int, b: int| 0 <= a < b < t.len() implies t[a].0 != t[b].0 by {
            assert(t[a] == s[a + 1] && t[b] == s[b + 1]);
        }
        lemma_lookup_distinct(t, i - 1);
    }
}

/// The naming rules of a well-formed matrix behave as a map: each rule,
/// and within it each per-architecture and per-package name, is the one
/// that name resolution finds for its key, whatever the order of the list.
pub proof fn law_overrides_are_maps(m: MatrixModel, i: int)
    requires
        matrix_wf(m),
        m.overrides is Some,
        0 <= i < m.overrides.unwrap().len(),
    ensures
        lookup(m.overrides.unwrap(), m.overrides.unwrap()[i].0) == Some(m.overrides.unwrap()[i].1),
        forall|j: int|
            0 <= j < pairs_of(m.overrides.unwrap()[i].1.per_arch).len() ==> lookup(
                pairs_of(m.overrides.unwrap()[i].1.per_arch),
                #[trigger] pairs_of(m.overrides.unwrap()[i].1.per_arch)[j].0,
            ) == Some(pairs_of(m.overrides.unwrap()[i].1.per_arch)[j].1),
        forall|j: int|
            0 <= j < pairs_of(m.overrides.unwrap()[i].1.per_pkg).len() ==> lookup(
                pairs_of(m.overrides.unwrap()[i].1.per_pkg),
                #[trigger] pairs_of(m.overrides.unwrap()[i].1.per_pkg)[j].0,
            ) == Some(pairs_of(m.overrides.unwrap()[i].1.per_pkg)[j].1),
{
    let ovs = m.overrides.unwrap();
    lemma_lookup_distinct(ovs, i);
    let r = ovs[i].1;
    assert(rule_wf(r));
    assert forall|j: int| 0 <= j < pairs_of(r.per_arch).len() implies lookup(
        pairs_of(r.per_arch),
        #[trigger] pairs_of(r.per_arch)[j].0,
    ) == Some(pairs_of(r.per_arch)[j].1) by {
        lemma_lookup_distinct(pairs_of(r.per_arch), j);
    }
    assert forall|j: int| 0 <= j < pairs_of(r.per_pkg).len() implies lookup(
        pairs_of(r.per_pkg),
        #[trigger] pairs_of(r.per_pkg)[j].0,
    ) == Some(pairs_of(r.per_pkg)[j].1) by {
        lemma_lookup_distinct(pairs_of(r.per_pkg), j);
    }
}

/// Looking a key up after appending a pair: what was found before is still
/// found; otherwise the new pair answers for its own key.
pub proof fn lemma_lookup_push<K, V>(s: Seq<(K, V)>, p: (K, V), q: K)
    ensures
        lookup(s.push(p), q) == match lookup(s, q) {
            Some(x) => Some(x),
            None => if p.0 == q {
                Some(p.1)
            } else {
                None
            },
        },
    decreases s.len(),
{
    let t = s.push(p);
    if s.len() == 0 {
        assert(t.subrange(1, t.len() as int) =~= Seq::<(K, V)>::empty());
        assert(lookup(Seq::<(K, V)>::empty(), q) is None);
        assert(t[0] == p);
    } else {
        assert(t[0] == s[0]);
        assert(t.subrange(1, t.len() as int) =~= s.subrange(1, s.len() as int).push(p));
        lemma_lookup_push(s.subrange(1, s.len() as int), p, q);
    }
}

proof fn lemma_lookup_step<K, V>(s: Seq<(K, V)>, i: int, k: K)
    requires
        0 <= i < s.len(),
        s[i].0 != k,
    ensures
        lookup(s.subrange(i, s.len() as int), k) == lookup(s.subrange(i + 1, s.len() as int), k),
{
    let t = s.subrange(i, s.len() as int);
    assert(t.subrange(1, t.len() as int) =~= s.subrange(i + 1, s.len() as int));
}

/// The full target triple for an architecture on an OS, if supported.
pub open spec fn triple_of(os: OS, libc: Option<LibC>, arch: Arch) -> Option<Seq<char>> {
    match (os, libc) {
        (OS::Linux, Some(LibC::Gnu)) => Some(arch_part(arch) + "-unknown-linux-gnu"@),
        (OS::Linux, Some(LibC::Musl)) => Some(arch_part(arch) + "-unknown-linux-musl"@),
        (OS::Linux, None) => None,
        (OS::Windows, _) => match arch {
            Arch::X86_64 => Some("x86_64-pc-windows-msvc"@),
            Arch::I686 => Some("i686-pc-windows-msvc"@),
            Arch::Aarch64 => Some("aarch64-pc-windows-msvc"@),
        },
        (OS::Macos, _) => match arch {
            Arch::X86_64 => Some("x86_64-apple-darwin"@),
            Arch::Aarch64 => Some("aarch64-apple-darwin"@),
            Arch::I686 => None,
        },
    }
}

/// The configuration error reported for an unsupported triple on `os`.
pub open spec fn triple_error(os: OS) -> Seq<char> {
    match os {
        OS::Macos => "macOS does not support x32 (i686) architecture"@,
        _ => "Linux target requires libc (gnu/musl)"@,
    }
}

/// Every architecture of `archs` has a triple on the given platform.
pub open spec fn all_supported(archs: Seq<Arch>, os: OS, libc: Option<LibC>) -> bool {
    forall|i: int| 0 <= i < archs.len() ==> (#[trigger] triple_of(os, libc, archs[i])) is Some
}

/// The triples of `archs`, in order.
pub open spec fn triples_of(archs: Seq<Arch>, os: OS, libc: Option<LibC>) -> Seq<Seq<char>> {
    archs.map_values(|a: Arch| triple_of(os, libc, a).unwrap())
}

/// The base name of an artifact after applying the matrix's overrides.
pub open spec fn override_base(
    m: MatrixModel,
    name: Seq<char>,
    arch: Arch,
    pkg: Option<Seq<char>>,
) -> Seq<char> {
    match m.overrides {
        None => name,
        Some(ovs) => match lookup(ovs, name) {
            None => name,
            Some(rule) => {
                if pkg is Some && rule.per_pkg is Some && lookup(
                    rule.per_pkg.unwrap(),
                    pkg.unwrap(),
                ) is Some {
                    lookup(rule.per_pkg.unwrap(), pkg.unwrap()).unwrap()
                } else if rule.per_arch is Some && lookup(rule.per_arch.unwrap(), arch) is Some {
                    lookup(rule.per_arch.unwrap(), arch).unwrap()
                } else {
                    match rule.out_name {
                        Some(o) => o,
                        None => name,
                    }
                }
            },
        },
    }
}

/// The file extension applied to binaries of the matrix on `os`.
pub open spec fn binary_ext(m: MatrixModel, os: OS) -> Seq<char> {
    match m.ext {
        Some(e) => e,
        None => if os == OS::Windows {
            ".exe"@
        } else {
            Seq::empty()
        },
    }
}

/// The final output name of an artifact.
pub open spec fn resolved_name(
    m: MatrixModel,
    name: Seq<char>,
    arch: Arch,
    os: OS,
    pkg: Option<Seq<char>>,
    is_library: bool,
) -> Seq<char> {
    let base = override_base(m, name, arch, pkg);
    let ext = binary_ext(m, os);
    if !is_library && ext.len() > 0 && !has_suffix(base, ext) {
        base + ext
    } else {
        base
    }
}

/// The view of an optional string slice.
pub open spec fn opt_str(o: Option<&str>) -> Option<Seq<char>> {
    match o {
        Some(s) => Some(s@),
        None => None,
    }
}

/// The naming rule of artifact `key`, if the list has one.
pub fn find_override<'a>(ovs: &'a Vec<(String, NameOverride)>, key: &str) -> (r: Option<
    &'a NameOverride,
>)
    ensures
        match lookup(ovs.deep_view(), key@) {
            Some(v) => r is Some && r.unwrap()@ == v,
            None => r is None,
        },
{
    let ghost s = ovs.deep_view();
    let mut i: usize = 0;
    assert(s.subrange(0, s.len() as int) =~= s);
    while i < ovs.len()
        invariant
            s == ovs.deep_view(),
            i <= s.len(),
            lookup(s, key@) == lookup(s.subrange(i as int, s.len() as int), key@),
        decreases s.len() - i,
    {
        if str_eq(ovs[i].0.as_str(), key) {
            return Some(&ovs[i].1);
        }
        proof {
            lemma_lookup_step(s, i as int, key@);
        }
        i = i + 1;
    }
    None
}

fn find_by_str<'a>(v: &'a Vec<(String, String)>, key: &str) -> (r: Option<&'a String>)
    ensures
        match lookup(v.deep_view(), key@) {
            Some(x) => r is Some && r.unwrap()@ == x,
            None => r is None,
        },
{
    let ghost s = v.deep_view();
    let mut i: usize = 0;
    assert(s.subrange(0, s.len() as int) =~= s);
    while i < v.len()
        invariant
            s == v.deep_view(),
            i <= s.len(),
            lookup(s, key@) == lookup(s.subrange(i as int, s.len() as int), key@),
        decreases s.len() - i,
    {
        if str_eq(v[i].0.as_str(), key) {
            return Some(&v[i].1);
        }
        proof {
            lemma_lookup_step(s, i as int, key@);
        }
        i = i + 1;
    }
    None
}

fn find_by_arch<'a>(v: &'a Vec<(Arch, String)>, key: Arch) -> (r: Option<&'a String>)
    ensures
        match lookup(v.deep_view(), key) {
            Some(x) => r is Some && r.unwrap()@ == x,
            None => r is None,
        },
{
    let ghost s = v.deep_view();
    let mut i: usize = 0;
    assert(s.subrange(0, s.len() as int) =~= s);
    while i < v.len()
        invariant
            s == v.deep_view(),
            i <= s.len(),
            lookup(s, key) == lookup(s.subrange(i as int, s.len() as int), key),
        decreases s.len() - i,
    {
        if v[i].0 == key {
            return Some(&v[i].1);
        }
        proof {
            lemma_lookup_step(s, i as int, key);
        }
        i = i + 1;
    }
    None
}

impl Targets {
    /// No target matrix is configured.
    pub fn is_empty(&self) -> (r: bool)
        ensures
            r == (self.linux is None && self.windows is None && self.macos is None),
    {
        self.linux.is_none() && self.windows.is_none() && self.macos.is_none()
    }

    /// The standard target set: Linux GNU (deb) and Windows (msi).
    pub fn default_standard() -> (r: Self)
        ensures
            r@.linux == Some(
                LinuxModel { gnu: Some(default_linux_gnu_model()), musl: None },
            ),
            r@.windows == Some(default_windows_model()),
            r@.macos is None,
            targets_wf(r@),
    {
        Targets {
            linux: Some(LinuxTargets { gnu: Some(TargetMatrix::default_linux_gnu()), musl: None }),
            windows: Some(TargetMatrix::default_windows()),
            macos: None,
        }
    }
}

impl Default for Targets {
    fn default() -> (r: Self)
        ensures
            r.linux is None,
            r.windows is None,
            r.macos is None,
            targets_wf(r@),
    {
        Targets { linux: None, windows: None, macos: None }
    }
}

impl Default for LinuxTargets {
    fn default() -> (r: Self)
        ensures
            r.gnu is None,
            r.musl is None,
    {
        LinuxTargets { gnu: None, musl: None }
    }
}

impl Default for NameOverride {
    fn default() -> (r: Self)
        ensures
            r.out_name is None,
            r.per_arch is None,
            r.per_pkg is None,
            rule_wf(r@),
    {
        NameOverride { out_name: None, per_arch: None, per_pkg: None }
    }
}

/// The default matrix: `x86_64` only, nothing else set.
pub open spec fn default_matrix_model() -> MatrixModel {
    MatrixModel {
        archs: seq![Arch::X86_64],
        artifacts: Seq::empty(),
        pkg: Seq::empty(),
        ext: None,
        strip: false,
        overrides: None,
    }
}

/// The default Linux GNU matrix: the project binary packaged as `deb`.
pub open spec fn default_linux_gnu_model() -> MatrixModel {
    MatrixModel {
        artifacts: seq!["my-project"@],
        pkg: seq!["deb"@],
        ..default_matrix_model()
    }
}

/// The default Windows matrix: the project binary packaged as `msi`.
pub open spec fn default_windows_model() -> MatrixModel {
    MatrixModel {
        artifacts: seq!["my-project"@],
        pkg: seq!["msi"@],
        ..default_matrix_model()
    }
}

/// The default architecture list (`x86_64`).
pub fn default_archs() -> (r: Vec<Arch>)
    ensures
        r@ == seq![Arch::X86_64],
{
    let mut v: Vec<Arch> = Vec::new();
    v.push(Arch::X86_64);
    v
}

fn one_string(s: &str) -> (r: Vec<String>)
    ensures
        r.deep_view() == seq![s@],
{
    let mut v: Vec<String> = Vec::new();
    v.push(owned(s));
    assert(v.deep_view() =~= seq![s@]);
    v
}

impl Default for TargetMatrix {
    fn default() -> (r: Self)
        ensures
            r@ == default_matrix_model(),
            matrix_wf(r@),
    {
        let r = TargetMatrix {
            archs: default_archs(),
            artifacts: Vec::new(),
            pkg: Vec::new(),
            ext: None,
            strip: false,
            overrides: None,
        };
        assert(r.artifacts.deep_view() =~= Seq::<Seq<char>>::empty());
        assert(r.pkg.deep_view() =~= Seq::<Seq<char>>::empty());
        r
    }
}

impl TargetMatrix {
    /// The default Linux GNU matrix.
    pub fn default_linux_gnu() -> (r: Self)
        ensures
            r@ == default_linux_gnu_model(),
            matrix_wf(r@),
    {
        let r = TargetMatrix {
            archs: default_archs(),
            artifacts: one_string("my-project"),
            pkg: one_string("deb"),
            ext: None,
            strip: false,
            overrides: None,
        };
        r
    }

    /// The default Windows matrix.
    pub fn default_windows() -> (r: Self)
        ensures
            r@ == default_windows_model(),
            matrix_wf(r@),
    {
        TargetMatrix {
            archs: default_archs(),
            artifacts: one_string("my-project"),
            pkg: one_string("msi"),
            ext: None,
            strip: false,
            overrides: None,
        }
    }

    /// The official Rust target triples of this matrix, one per architecture.
    ///
    /// # Errors
    /// A Linux matrix without a C library flavour, or `i686` on macOS.
    pub fn get_triples(&self, os: OS, libc: Option<LibC>) -> (r: Result<Vec<String>, RefineryError>)
        ensures
            r is Ok <==> all_supported(self.archs@, os, libc),
            r matches Ok(v) ==> v.deep_view() == triples_of(self.archs@, os, libc),
            r matches Err(e) ==> e matches RefineryError::Config(m) && m@ == triple_error(os),
    {
        let mut triples: Vec<String> = Vec::new();
        let mut i: usize = 0;
        while i < self.archs.len()
            invariant
                i <= self.archs@.len(),
                triples@.len() == i,
                forall|k: int|
                    0 <= k < i ==> (#[trigger] triple_of(os, libc, self.archs@[k])) is Some,
                forall|k: int|
                    0 <= k < i ==> triples@[k]@ == triple_of(os, libc, self.archs@[k]).unwrap(),
            decreases self.archs@.len() - i,
        {
            let a = self.archs[i];
            let triple = match (os, libc) {
                (OS::Linux, Some(LibC::Gnu)) => {
                    let p = a.to_triple_part();
                    concat(p.as_str(), "-unknown-linux-gnu")
                },
                (OS::Linux, Some(LibC::Musl)) => {
                    let p = a.to_triple_part();
                    concat(p.as_str(), "-unknown-linux-musl")
                },
                (OS::Linux, None) => {
                    assert(triple_of(os, libc, self.archs@[i as int]) is None);
                    return Err(RefineryError::Config(owned("Linux target requires libc (gnu/musl)")));
                },
                (OS::Windows, _) => match a {
                    Arch::X86_64 => owned("x86_64-pc-windows-msvc"),
                    Arch::I686 => owned("i686-pc-windows-msvc"),
                    Arch::Aarch64 => owned("aarch64-pc-windows-msvc"),
                },
                (OS::Macos, _) => match a {
                    Arch::X86_64 => owned("x86_64-apple-darwin"),
                    Arch::Aarch64 => owned("aarch64-apple-darwin"),
                    Arch::I686 => {
                        assert(triple_of(os, libc, self.archs@[i as int]) is None);
                        return Err(
                            RefineryError::Config(
                                owned("macOS does not support x32 (i686) architecture"),
                            ),
                        );
                    },
                },
            };
            triples.push(triple);
            i = i + 1;
        }
        assert(triples.deep_view() =~= triples_of(self.archs@, os, libc));
        Ok(triples)
    }

    /// The output file name of an artifact built from this matrix: the
    /// override for the package format, else for the architecture, else the
    /// override's base name, else the artifact name; binaries then get the
    /// matrix extension (default `.exe` on Windows) unless already present.
    pub fn resolve_name(
        &self,
        artifact_name: &str,
        arch: Arch,
        os: OS,
        pkg_format: Option<&str>,
        is_library: bool,
    ) -> (r: String)
        ensures
            r@ == resolved_name(self@, artifact_name@, arch, os, opt_str(pkg_format), is_library),
    {
        let ghost m = self@;
        let base: String = match &self.overrides {
            None => owned(artifact_name),
            Some(ovs) => match find_override(ovs, artifact_name) {
                None => owned(artifact_name),
                Some(rule) => {
                    let by_pkg: Option<&String> = match (pkg_format, &rule.per_pkg) {
                        (Some(pkg), Some(map)) => find_by_str(map, pkg),
                        _ => None,
                    };
                    match by_pkg {
                        Some(name) => name.clone(),
                        None => {
                            let by_arch: Option<&String> = match &rule.per_arch {
                                Some(map) => find_by_arch(map, arch),
                                None => None,
                            };
                            match by_arch {
                                Some(name) => name.clone(),
                                None => match &rule.out_name {
                                    Some(o) => o.clone(),
                                    None => owned(artifact_name),
                                },
                            }
                        },
                    }
                },
            },
        };
        assert(base@ == override_base(m, artifact_name@, arch, opt_str(pkg_format)));
        if !is_library {
            let extension: String = match &self.ext {
                Some(e) => e.clone(),
                None => if os == OS::Windows {
                    owned(".exe")
                } else {
                    String::new()
                },
            };
            assert(extension@ == binary_ext(m, os));
            if !extension.as_str().is_empty() && !ends_with(base.as_str(), extension.as_str()) {
                return concat(base.as_str(), extension.as_str());
            }
        }
        base
    }

    /// An exact copy of this matrix.
    pub fn duplicate(&self) -> (r: Self)
        ensures
            r@ == self@,
    {
        let mut archs: Vec<Arch> = Vec::new();
        let mut i: usize = 0;
        while i < self.archs.len()
            invariant
                i <= self.archs@.len(),
                archs@ == self.archs@.subrange(0, i as int),
            decreases self.archs@.len() - i,
        {
            archs.push(self.archs[i]);
            i = i + 1;
            assert(archs@ =~= self.archs@.subrange(0, i as int));
        }
        assert(archs@ =~= self.archs@);
        TargetMatrix {
            archs,
            artifacts: clone_strings(&self.artifacts),
            pkg: clone_strings(&self.pkg),
            ext: clone_opt_string(&self.ext),
            strip: self.strip,
            overrides: match &self.overrides {
                Some(o) => Some(clone_overrides(o)),
                None => None,
            },
        }
    }
}

/// A copy of an architecture-keyed list.
pub fn clone_arch_pairs(v: &Vec<(Arch, String)>) -> (r: Vec<(Arch, String)>)
    ensures
        r.deep_view() == v.deep_view(),
{
    let mut r: Vec<(Arch, String)> = Vec::new();
    let mut i: usize = 0;
    while i < v.len()
        invariant
            i <= v@.len(),
            r@.len() == i,
            forall|k: int| 0 <= k < i ==> (#[trigger] r@[k]).deep_view() == v@[k].deep_view(),
        decreases v@.len() - i,
    {
        r.push((v[i].0, v[i].1.clone()));
        i = i + 1;
    }
    assert(r.deep_view() =~= v.deep_view());
    r
}

/// A copy of a string-keyed list.
pub fn clone_str_pairs(v: &Vec<(String, String)>) -> (r: Vec<(String, String)>)
    ensures
        r.deep_view() == v.deep_view(),
{
    let mut r: Vec<(String, String)> = Vec::new();
    let mut i: usize = 0;
    while i < v.len()
        invariant
            i <= v@.len(),
            r@.len() == i,
            forall|k: int| 0 <= k < i ==> (#[trigger] r@[k]).deep_view() == v@[k].deep_view(),
        decreases v@.len() - i,
    {
        r.push((v[i].0.clone(), v[i].1.clone()));
        i = i + 1;
    }
    assert(r.deep_view() =~= v.deep_view());
    r
}

impl NameOverride {
    /// An exact copy of this rule.
    pub fn duplicate(&self) -> (r: Self)
        ensures
            r@ == self@,
    {
        NameOverride {
            out_name: clone_opt_string(&self.out_name),
            per_arch: match &self.per_arch {
                Some(m) => Some(clone_arch_pairs(m)),
                None => None,
            },
            per_pkg: match &self.per_pkg {
                Some(m) => Some(clone_str_pairs(m)),
                None => None,
            },
        }
    }
}

fn clone_overrides(v: &Vec<(String, NameOverride)>) -> (r: Vec<(String, NameOverride)>)
    ensures
        r.deep_view() == v.deep_view(),
{
    let mut r: Vec<(String, NameOverride)> = Vec::new();
    let mut i: usize = 0;
    while i < v.len()
        invariant
            i <= v@.len(),
            r@.len() == i,
            forall|k: int| 0 <= k < i ==> (#[trigger] r@[k]).deep_view() == v@[k].deep_view(),
        decreases v@.len() - i,
    {
        r.push((v[i].0.clone(), v[i].1.duplicate()));
        i = i + 1;
    }
    assert(r.deep_view() =~= v.deep_view());
    r
}

impl LinuxTargets {
    /// An exact copy.
    pub fn duplicate(&self) -> (r: Self)
        ensures
            r@ == self@,
    {
        LinuxTargets {
            gnu: match &self.gnu {
                Some(m) => Some(m.duplicate()),
                None => None,
            },
            musl: match &self.musl {
                Some(m) => Some(m.duplicate()),
                None => None,
            },
        }
    }
}

impl Targets {
    /// An exact copy.
    pub fn duplicate(&self) -> (r: Self)
        ensures
            r@ == self@,
    {
        Targets {
            linux: match &self.linux {
                Some(l) => Some(l.duplicate()),
                None => None,
            },
            windows: match &self.windows {
                Some(m) => Some(m.duplicate()),
                None => None,
            },
            macos: match &self.macos {
                Some(m) => Some(m.duplicate()),
                None => None,
            },
        }
    }
}


/// A binary's output name ends with the matrix extension whenever there is
/// one (`.exe` by default on Windows); a library's name never gets it.
pub proof fn law_binary_names_carry_extension(
    m: MatrixModel,
    name: Seq<char>,
    arch: Arch,
    os: OS,
    pkg: Option<Seq<char>>,
)
    ensures
        binary_ext(m, os).len() > 0 ==> has_suffix(
            resolved_name(m, name, arch, os, pkg, false),
            binary_ext(m, os),
        ),
        resolved_name(m, name, arch, os, pkg, true) == override_base(m, name, arch, pkg),
{
    let base = override_base(m, name, arch, pkg);
    let ext = binary_ext(m, os);
    if ext.len() > 0 && !has_suffix(base, ext) {
        let r = base + ext;
        assert(r.subrange(r.len() - ext.len(), r.len() as int) =~= ext);
    }
}

/// The extension is applied once: resolving a name that a matrix without
/// overrides already resolved changes nothing.
pub proof fn law_resolve_name_idempotent(
    m: MatrixModel,
    name: Seq<char>,
    arch: Arch,
    os: OS,
    pkg: Option<Seq<char>>,
    is_library: bool,
)
    requires
        m.overrides is None,
    ensures
        resolved_name(m, resolved_name(m, name, arch, os, pkg, is_library), arch, os, pkg, is_library)
            == resolved_name(m, name, arch, os, pkg, is_library),
{
    law_binary_names_carry_extension(m, name, arch, os, pkg);
}

/// Which platforms resolve to triples: Linux needs a C library flavour,
/// macOS has no `i686`, and every other combination has a triple, one per
/// architecture.
pub proof fn law_supported_platforms(archs: Seq<Arch>, os: OS, libc: Option<LibC>)
    ensures
        all_supported(archs, os, libc) <==> (archs.len() == 0 || match os {
            OS::Linux => libc is Some,
            OS::Windows => true,
            OS::Macos => !archs.contains(Arch::I686),
        }),
        all_supported(archs, os, libc) ==> triples_of(archs, os, libc).len() == archs.len(),
{
    if archs.len() > 0 {
        assert(triple_of(os, libc, archs[0]) is Some ==> (os == OS::Linux ==> libc is Some));
        if os == OS::Macos && archs.contains(Arch::I686) {
            let i = choose|i: int| 0 <= i < archs.len() && archs[i] == Arch::I686;
            assert(triple_of(os, libc, archs[i]) is None);
        }
    }
}

/// A binary's output name carries the matrix's configured extension on
/// every system; without one, Windows binaries get `.exe` and others keep
/// their base name. Libraries keep their base name.
pub proof fn law_configured_extension(
    m: MatrixModel,
    name: Seq<char>,
    arch: Arch,
    os: OS,
    pkg: Option<Seq<char>>,
)
    ensures
        m.ext is Some && m.ext.unwrap().len() > 0 ==> has_suffix(
            resolved_name(m, name, arch, os, pkg, false),
            m.ext.unwrap(),
        ),
        m.ext is None && os == OS::Windows ==> has_suffix(
            resolved_name(m, name, arch, os, pkg, false),
            ".exe"@,
        ),
        m.ext is None && os != OS::Windows ==> resolved_name(m, name, arch, os, pkg, false)
            == override_base(m, name, arch, pkg),
        resolved_name(m, name, arch, os, pkg, true) == override_base(m, name, arch, pkg),
{
    reveal_strlit(".exe");
    let base = override_base(m, name, arch, pkg);
    let ext = match m.ext {
        Some(e) => e,
        None => ".exe"@,
    };
    if ext.len() > 0 && !has_suffix(base, ext) {
        let r = base + ext;
        assert(r.subrange(r.len() - ext.len(), r.len() as int) =~= ext);
    }
}

} // verus!
