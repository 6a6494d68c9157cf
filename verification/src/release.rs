//! Release management: semantic version bumps and the git commands that
//! publish a release.
use vstd::prelude::*;

use toml_edit::DocumentMut;

use crate::errors::RefineryError;
use crate::schema::document::{
    get_str, kind1, kind2, parse_document, put, set_str2, str_at, table_like_at,
    toml_entries, toml_parse, Entries, NodeKind, TomlEntry, TomlPath,
};
use crate::schema::metadata::{render_manifest, renders};
use crate::text::{cat, chars_of, decimal, digit_char, has_prefix, owned, push_string, starts_with, u64_to_string};

verus! {

/// The kind of version bump.
#[derive(Clone, Copy, Debug, PartialEq, Eq, Structural)]
pub enum BumpType {
    Major,
    Minor,
    Patch,
}

/// The components of a semantic version.
pub struct VersionParts {
    pub major: u64,
    pub minor: u64,
    pub patch: u64,
    /// Pre-release identifiers (without the leading `-`), empty if none.
    pub pre: String,
    /// Build metadata (without the leading `+`), empty if none.
    pub build: String,
}

/// Abstract value of [`VersionParts`].
pub struct VersionModel {
    pub major: u64,
    pub minor: u64,
    pub patch: u64,
    pub pre: Seq<char>,
    pub build: Seq<char>,
}

impl View for VersionParts {
    type V = VersionModel;

    open spec fn view(&self) -> VersionModel {
        VersionModel {
            major: self.major,
            minor: self.minor,
            patch: self.patch,
            pre: self.pre@,
            build: self.build@,
        }
    }
}

/// What `semver::Version::parse` yields for a text: the components of the
/// version whose canonical text it is (numeric components in decimal without
/// leading zeros, then `-pre` and `+build` when present, the pre-release and
/// build following the identifier rules), or `None` when it is the text of
/// no such version.
#[verifier::opaque]
pub open spec fn semver_parse(text: Seq<char>) -> Option<(u64, u64, u64, Seq<char>, Seq<char>)> {
    if exists|v: VersionModel| #[trigger] version_text(v) == text && pre_valid(v) && build_valid(v) {
        Some(
            parts_tuple(
                choose|v: VersionModel| #[trigger] version_text(v) == text && pre_valid(v) && build_valid(v),
            ),
        )
    } else {
        None
    }
}

/// A character of a `semver` identifier: an ASCII letter, digit or `-`.
pub open spec fn ident_char(c: char) -> bool {
    ('A' <= c <= 'Z') || ('a' <= c <= 'z') || ('0' <= c <= '9') || c == '-'
}

/// `t[i..j]` is one whole dot-separated segment of `t`.
pub open spec fn segment_at(t: Seq<char>, i: int, j: int) -> bool {
    &&& 0 <= i < j <= t.len()
    &&& i == 0 || t[i - 1] == '.'
    &&& j == t.len() || t[j] == '.'
    &&& forall|k: int| i <= k < j ==> #[trigger] t[k] != '.'
}

/// `t[i..j]` holds digits only.
pub open spec fn numeric_segment(t: Seq<char>, i: int, j: int) -> bool {
    forall|k: int| i <= k < j ==> '0' <= #[trigger] t[k] <= '9'
}

/// The empty text, or dot-separated non-empty segments of identifier
/// characters.
pub open spec fn identifier_ok(t: Seq<char>) -> bool {
    t.len() == 0 || {
        &&& forall|k: int| 0 <= k < t.len() ==> ident_char(#[trigger] t[k]) || t[k] == '.'
        &&& t[0] != '.'
        &&& t[t.len() - 1] != '.'
        &&& forall|k: int| 0 <= k < t.len() - 1 && #[trigger] t[k] == '.' ==> t[k + 1] != '.'
    }
}

/// A pre-release text `semver` accepts: an identifier whose numeric
/// segments have no leading zero.
pub open spec fn semver_pre_ok(t: Seq<char>) -> bool {
    &&& identifier_ok(t)
    &&& forall|i: int, j: int|
        #![trigger segment_at(t, i, j)]
        segment_at(t, i, j) && numeric_segment(t, i, j) && j - i > 1 ==> t[i] != '0'
}

/// A build-metadata text `semver` accepts: an identifier.
pub open spec fn semver_build_ok(t: Seq<char>) -> bool {
    identifier_ok(t)
}

/// The result of `a <= b` on two `semver::Version` values.
pub uninterp spec fn semver_le(a: VersionModel, b: VersionModel) -> bool;

/// The version components as `semver_parse` reports them.
pub open spec fn parts_tuple(v: VersionModel) -> (u64, u64, u64, Seq<char>, Seq<char>) {
    (v.major, v.minor, v.patch, v.pre, v.build)
}

/// The pre-release of `v` is one `Prerelease::new` accepts (the empty one
/// always is).
pub open spec fn pre_valid(v: VersionModel) -> bool {
    v.pre.len() == 0 || semver_pre_ok(v.pre)
}

/// The build metadata of `v` is one `BuildMetadata::new` accepts (the empty
/// one always is).
pub open spec fn build_valid(v: VersionModel) -> bool {
    v.build.len() == 0 || semver_build_ok(v.build)
}

/// Both versions can be built as `semver::Version` values.
pub open spec fn comparable(a: VersionModel, b: VersionModel) -> bool {
    pre_valid(a) && build_valid(a) && pre_valid(b) && build_valid(b)
}

/// Same numeric components, `a` a release and `b` a pre-release.
pub open spec fn release_vs_pre(a: VersionModel, b: VersionModel) -> bool {
    same_triple(a, b) && a.pre.len() == 0 && b.pre.len() > 0
}

/// All components equal.
pub open spec fn identical(a: VersionModel, b: VersionModel) -> bool {
    same_triple(a, b) && a.pre == b.pre && a.build == b.build
}

/// Lexicographic order on (major, minor, patch).
pub open spec fn triple_le(a: VersionModel, b: VersionModel) -> bool {
    a.major < b.major || (a.major == b.major && (a.minor < b.minor || (a.minor == b.minor
        && a.patch <= b.patch)))
}

/// Same (major, minor, patch).
pub open spec fn same_triple(a: VersionModel, b: VersionModel) -> bool {
    a.major == b.major && a.minor == b.minor && a.patch == b.patch
}

/// Parses a semantic version (`semver::Version::parse`).
/// Claimed, from `Version::from_str`: the text is accepted exactly when it
/// is the canonical text of a version (three `.`-separated decimal numbers
/// that fit in `u64`, without leading zeros; then, when present, `-` and a
/// non-empty pre-release and `+` and non-empty build metadata, both
/// following the identifier rules of `Prerelease::new` and
/// `BuildMetadata::new`, which the parser applies with the same scanner),
/// and the components are that version's.
#[verifier::external_body]
fn parse_semver(text: &str) -> (r: Option<VersionParts>)
    ensures
        match semver_parse(text@) {
            Some(t) => r is Some && parts_tuple(r.unwrap()@) == t,
            None => r is None,
        },
        r matches Some(v) ==> (v.pre@.len() == 0 || semver_pre_ok(v.pre@)) && (v.build@.len() == 0
            || semver_build_ok(v.build@)),
{
    match semver::Version::parse(text) {
        Ok(v) => Some(
            VersionParts {
                major: v.major,
                minor: v.minor,
                patch: v.patch,
                pre: v.pre.as_str().to_string(),
                build: v.build.as_str().to_string(),
            },
        ),
        Err(_) => None,
    }
}

/// Whether `semver::Prerelease::new` accepts `text`.
/// Claimed, from the identifier scanner of `semver`'s parser: the text is
/// accepted exactly when it is empty or made of non-empty dot-separated
/// segments of ASCII letters, digits and `-`, no all-digit segment of more
/// than one character starting with `0`.
#[verifier::external_body]
fn prerelease_ok(text: &str) -> (r: bool)
    ensures
        r == semver_pre_ok(text@),
{
    semver::Prerelease::new(text).is_ok()
}

/// `a <= b` on the `semver::Version` values built from two component sets,
/// or `None` when a pre-release or build text is rejected.
/// Claimed, from the derived `Ord` of `Version` (major, minor, patch, pre,
/// build in turn) and the `Ord` of `Prerelease` (a release is greater than
/// any pre-release; equal identifiers compare equal) and of
/// `BuildMetadata` (equal identifiers compare equal): differing numeric
/// components decide; otherwise a version without pre-release is greater
/// than one with; equal components are equal. Other comparisons of
/// pre-release and build texts are only named.
#[verifier::external_body]
fn version_le(a: &VersionParts, b: &VersionParts) -> (r: Option<bool>)
    ensures
        r is Some <==> comparable(a@, b@),
        r matches Some(x) ==> x == semver_le(a@, b@),
        r matches Some(x) ==> (!same_triple(a@, b@) ==> x == triple_le(a@, b@)),
        r matches Some(x) ==> (release_vs_pre(a@, b@) ==> !x),
        r matches Some(x) ==> (release_vs_pre(b@, a@) ==> x),
        r matches Some(x) ==> (identical(a@, b@) ==> x),
{
    let va = semver::Version {
        major: a.major,
        minor: a.minor,
        patch: a.patch,
        pre: semver::Prerelease::new(&a.pre).ok()?,
        build: semver::BuildMetadata::new(&a.build).ok()?,
    };
    let vb = semver::Version {
        major: b.major,
        minor: b.minor,
        patch: b.patch,
        pre: semver::Prerelease::new(&b.pre).ok()?,
        build: semver::BuildMetadata::new(&b.build).ok()?,
    };
    Some(va <= vb)
}

/// The canonical text of a version: `major.minor.patch`, then `-pre` and
/// `+build` when present.
pub open spec fn version_text(v: VersionModel) -> Seq<char> {
    let core = decimal(v.major as nat) + "."@ + decimal(v.minor as nat) + "."@ + decimal(
        v.patch as nat,
    );
    let with_pre = if v.pre.len() > 0 {
        core + "-"@ + v.pre
    } else {
        core
    };
    if v.build.len() > 0 {
        with_pre + "+"@ + v.build
    } else {
        with_pre
    }
}

impl VersionParts {
    /// The canonical text of the version (as `semver::Version` displays it).
    pub fn to_string(&self) -> (r: String)
        ensures
            r@ == version_text(self@),
    {
        let mut s = u64_to_string(self.major);
        s = cat(s, ".");
        s = cat(s, u64_to_string(self.minor).as_str());
        s = cat(s, ".");
        s = cat(s, u64_to_string(self.patch).as_str());
        if !self.pre.as_str().is_empty() {
            s = cat(s, "-");
            s = cat(s, self.pre.as_str());
        }
        if !self.build.as_str().is_empty() {
            s = cat(s, "+");
            s = cat(s, self.build.as_str());
        }
        s
    }

    /// Parses a semantic version.
    pub fn parse(text: &str) -> (r: Option<VersionParts>)
        ensures
            match semver_parse(text@) {
                Some(t) => r is Some && parts_tuple(r.unwrap()@) == t,
                None => r is None,
            },
            r matches Some(v) ==> pre_valid(v@) && build_valid(v@),
    {
        parse_semver(text)
    }
}

/// Value of a sequence of decimal digits.
pub open spec fn digits_value(s: Seq<char>) -> int
    decreases s.len(),
{
    if s.len() == 0 {
        0
    } else {
        digits_value(s.drop_last()) * 10 + (s.last() as int - '0' as int)
    }
}

/// Every character is an ASCII digit.
pub open spec fn all_digits(s: Seq<char>) -> bool {
    forall|i: int| 0 <= i < s.len() ==> '0' <= #[trigger] s[i] <= '9'
}

/// What `str::parse::<u64>` yields: an optional `+` followed by at least one
/// decimal digit, with a value that fits in `u64`.
pub open spec fn parse_u64_spec(s: Seq<char>) -> Option<u64> {
    let d = if s.len() > 0 && s[0] == '+' {
        s.drop_first()
    } else {
        s
    };
    if d.len() > 0 && all_digits(d) && digits_value(d) <= u64::MAX {
        Some(digits_value(d) as u64)
    } else {
        None
    }
}

proof fn lemma_digits_value_nonneg(s: Seq<char>)
    requires
        all_digits(s),
    ensures
        digits_value(s) >= 0,
    decreases s.len(),
{
    if s.len() > 0 {
        lemma_digits_value_nonneg(s.drop_last());
    }
}

proof fn lemma_digits_value_mono(s: Seq<char>, k: int)
    requires
        all_digits(s),
        0 <= k <= s.len(),
    ensures
        digits_value(s.subrange(0, k)) <= digits_value(s),
    decreases s.len(),
{
    if k < s.len() {
        assert(s.drop_last() =~= s.subrange(0, s.len() - 1));
        lemma_digits_value_mono(s.drop_last(), k);
        assert(s.drop_last().subrange(0, k) =~= s.subrange(0, k));
        lemma_digits_value_nonneg(s.drop_last());
    } else {
        assert(s.subrange(0, k) =~= s);
    }
}

/// Parses a decimal unsigned integer as `str::parse::<u64>` does.
pub fn parse_u64(s: &str) -> (r: Option<u64>)
    ensures
        r == parse_u64_spec(s@),
{
    let v = chars_of(s);
    let mut start: usize = 0;
    if v.len() > 0 && v[0] == '+' {
        start = 1;
    }
    let ghost d = if s@.len() > 0 && s@[0] == '+' {
        s@.drop_first()
    } else {
        s@
    };
    assert(d =~= v@.subrange(start as int, v@.len() as int));
    if start == v.len() {
        assert(d.len() == 0);
        return None;
    }
    let mut acc: u64 = 0;
    let mut i: usize = start;
    while i < v.len()
        invariant
            v@ == s@,
            start <= i <= v@.len(),
            d == v@.subrange(start as int, v@.len() as int),
            d == (if s@.len() > 0 && s@[0] == '+' {
                s@.drop_first()
            } else {
                s@
            }),
            start < v@.len(),
            all_digits(v@.subrange(start as int, i as int)),
            acc as int == digits_value(v@.subrange(start as int, i as int)),
        decreases v@.len() - i,
    {
        let c = v[i];
        let ghost pre = v@.subrange(start as int, i as int);
        let ghost next = v@.subrange(start as int, i + 1);
        assert(next.drop_last() =~= pre);
        if c < '0' || c > '9' {
            assert(!all_digits(d)) by {
                assert(d[i - start] == c);
                assert(!('0' <= d[i - start] <= '9'));
            }
            return None;
        }
        let digit: u64 = (c as u32 - '0' as u32) as u64;
        assert(digits_value(next) == acc * 10 + digit);
        if acc > (u64::MAX - digit) / 10 {
            proof {
                assert(all_digits(next));
                assert(digits_value(next) > u64::MAX) by (nonlinear_arith)
                    requires
                        acc > (u64::MAX - digit) / 10,
                        digits_value(next) == acc * 10 + digit,
                        digit <= 9,
                ;
                if all_digits(d) {
                    assert(next =~= d.subrange(0, i + 1 - start));
                    lemma_digits_value_mono(d, i + 1 - start);
                }
            }
            return None;
        }
        acc = acc * 10 + digit;
        i = i + 1;
    }
    assert(v@.subrange(start as int, i as int) =~= d);
    Some(acc)
}

/// The release-candidate number that follows pre-release `pre`: one more
/// than `n` when `pre` is `rc<n>`, otherwise 1.
pub open spec fn next_rc(pre: Seq<char>) -> u64 {
    if has_prefix(pre, "rc"@) && parse_u64_spec(pre.skip(2)) is Some {
        (parse_u64_spec(pre.skip(2)).unwrap() + 1) as u64
    } else {
        1
    }
}

/// `next_rc` does not overflow: `pre` is not `rc` followed by `u64::MAX`.
pub open spec fn rc_fits(pre: Seq<char>) -> bool {
    !(has_prefix(pre, "rc"@) && parse_u64_spec(pre.skip(2)) == Some(u64::MAX))
}

/// The (major, minor, patch) after a bump. A pre-release is promoted to its
/// release when the bump would not change the lower components.
pub open spec fn bumped(v: VersionModel, bump: BumpType) -> (int, int, int) {
    let is_pre = v.pre.len() > 0;
    match bump {
        BumpType::Major => if !is_pre || v.minor != 0 || v.patch != 0 {
            (v.major + 1, 0, 0)
        } else {
            (v.major as int, v.minor as int, v.patch as int)
        },
        BumpType::Minor => if !is_pre || v.patch != 0 {
            (v.major as int, v.minor + 1, 0)
        } else {
            (v.major as int, v.minor as int, v.patch as int)
        },
        BumpType::Patch => if !is_pre {
            (v.major as int, v.minor as int, v.patch + 1)
        } else {
            (v.major as int, v.minor as int, v.patch as int)
        },
    }
}

/// The bumped components fit in `u64`.
pub open spec fn bump_fits(v: VersionModel, bump: BumpType) -> bool {
    let (a, b, c) = bumped(v, bump);
    a <= u64::MAX && b <= u64::MAX && c <= u64::MAX
}

/// The pre-release text of a release candidate.
pub open spec fn rc_pre(n: u64) -> Seq<char> {
    "rc"@ + decimal(n as nat)
}

/// The next version: bumped components, the given release-candidate
/// pre-release (or none), and the same build metadata.
pub open spec fn next_model(v: VersionModel, bump: BumpType, rc: Option<u64>) -> VersionModel {
    let (a, b, c) = bumped(v, bump);
    VersionModel {
        major: a as u64,
        minor: b as u64,
        patch: c as u64,
        pre: match rc {
            Some(n) => rc_pre(n),
            None => Seq::empty(),
        },
        build: v.build,
    }
}

/// The release-candidate number chosen for a candidate request: 0 asks to
/// continue the current `rc<n>` series.
pub open spec fn candidate_rc(v: VersionModel, candidate: Option<u64>) -> Option<u64> {
    match candidate {
        Some(0) => Some(next_rc(v.pre)),
        Some(c) => Some(c),
        None => None,
    }
}

/// The requested bump can be computed without overflow.
pub open spec fn can_bump(v: VersionModel, bump: BumpType, candidate: Option<u64>) -> bool {
    bump_fits(v, bump) && (candidate == Some(0u64) ==> rc_fits(v.pre))
}

/// The number in a pre-release of the form `rc<n>`.
pub open spec fn rc_digits(pre: Seq<char>) -> Option<u64> {
    if has_prefix(pre, "rc"@) {
        parse_u64_spec(pre.skip(2))
    } else {
        None
    }
}

fn rc_number_of(pre: &str) -> (r: Option<u64>)
    ensures
        r == rc_digits(pre@),
{
    if starts_with(pre, "rc") {
        proof {
            reveal_strlit("rc");
        }
        let v = chars_of(pre);
        let rest_chars = crate::text::string_of(&slice_from(&v, 2));
        assert(rest_chars@ == pre@.skip(2));
        parse_u64(rest_chars.as_str())
    } else {
        None
    }
}

/// The number of the release candidate after `pre` (see [`next_rc`]).
pub fn parse_rc_number(pre: &str) -> (r: u64)
    requires
        rc_fits(pre@),
    ensures
        r == next_rc(pre@),
{
    match rc_number_of(pre) {
        Some(n) => n + 1,
        None => 1,
    }
}

fn rc_fits_exec(pre: &str) -> (r: bool)
    ensures
        r == rc_fits(pre@),
{
    match rc_number_of(pre) {
        Some(n) => n != u64::MAX,
        None => true,
    }
}

fn bump_fits_exec(v: &VersionParts, bump: BumpType) -> (r: bool)
    ensures
        r == bump_fits(v@, bump),
{
    let is_pre = !v.pre.as_str().is_empty();
    match bump {
        BumpType::Major => !(!is_pre || v.minor != 0 || v.patch != 0) || v.major < u64::MAX,
        BumpType::Minor => !(!is_pre || v.patch != 0) || v.minor < u64::MAX,
        BumpType::Patch => is_pre || v.patch < u64::MAX,
    }
}

fn slice_from(v: &Vec<char>, k: usize) -> (r: Vec<char>)
    requires
        k <= v@.len(),
    ensures
        r@ == v@.skip(k as int),
{
    let mut r: Vec<char> = Vec::new();
    let mut i: usize = k;
    while i < v.len()
        invariant
            k <= i <= v@.len(),
            r@ == v@.subrange(k as int, i as int),
        decreases v@.len() - i,
    {
        r.push(v[i]);
        i = i + 1;
        assert(r@ =~= v@.subrange(k as int, i as int));
    }
    assert(r@ =~= v@.skip(k as int));
    r
}

fn bump_components(current: &VersionParts, bump: BumpType) -> (r: (u64, u64, u64))
    requires
        bump_fits(current@, bump),
    ensures
        (r.0 as int, r.1 as int, r.2 as int) == bumped(current@, bump),
{
    let is_pre = !current.pre.as_str().is_empty();
    match bump {
        BumpType::Major => {
            if !is_pre || current.minor != 0 || current.patch != 0 {
                (current.major + 1, 0, 0)
            } else {
                (current.major, current.minor, current.patch)
            }
        },
        BumpType::Minor => {
            if !is_pre || current.patch != 0 {
                (current.major, current.minor + 1, 0)
            } else {
                (current.major, current.minor, current.patch)
            }
        },
        BumpType::Patch => {
            if !is_pre {
                (current.major, current.minor, current.patch + 1)
            } else {
                (current.major, current.minor, current.patch)
            }
        },
    }
}

/// Two texts made of a run of characters satisfying `p` followed by a rest
/// that does not start with one are split at the same place.
proof fn lemma_split_run(x1: Seq<char>, y1: Seq<char>, x2: Seq<char>, y2: Seq<char>, p: spec_fn(char) -> bool)
    requires
        x1 + y1 == x2 + y2,
        forall|i: int| 0 <= i < x1.len() ==> p(#[trigger] x1[i]),
        forall|i: int| 0 <= i < x2.len() ==> p(#[trigger] x2[i]),
        y1.len() > 0 ==> !p(y1[0]),
        y2.len() > 0 ==> !p(y2[0]),
    ensures
        x1 == x2,
        y1 == y2,
{
    let s = x1 + y1;
    if x1.len() < x2.len() {
        assert(s[x1.len() as int] == x2[x1.len() as int]);
        if y1.len() > 0 {
            assert(s[x1.len() as int] == y1[0]);
        }
    } else if x2.len() < x1.len() {
        assert(s[x2.len() as int] == x1[x2.len() as int]);
        assert((x2 + y2)[x2.len() as int] == s[x2.len() as int]);
        if y2.len() > 0 {
            assert((x2 + y2)[x2.len() as int] == y2[0]);
        }
    }
    assert(x1 =~= s.subrange(0, x1.len() as int));
    assert(x2 =~= (x2 + y2).subrange(0, x2.len() as int));
    assert(y1 =~= s.skip(x1.len() as int));
    assert(y2 =~= (x2 + y2).skip(x2.len() as int));
}

/// A decimal digit.
pub open spec fn is_digit(c: char) -> bool {
    '0' <= c <= '9'
}

/// A character of a pre-release or build text.
pub open spec fn ident_or_dot(c: char) -> bool {
    ident_char(c) || c == '.'
}

/// The text of the optional pre-release and build parts.
spec fn tail_text(v: VersionModel) -> Seq<char> {
    (if v.pre.len() > 0 {
        "-"@ + v.pre
    } else {
        Seq::empty()
    }) + build_text(v)
}

/// The numeric part of a version's canonical text.
spec fn core_text(v: VersionModel) -> Seq<char> {
    decimal(v.major as nat) + "."@ + decimal(v.minor as nat) + "."@ + decimal(v.patch as nat)
}

/// A canonical text is its numeric part followed by its tail.
proof fn lemma_version_text_parts(v: VersionModel)
    ensures
        version_text(v) == core_text(v) + tail_text(v),
{
    if v.pre.len() > 0 {
        if v.build.len() > 0 {
            assert(version_text(v) =~= core_text(v) + tail_text(v));
        } else {
            assert(version_text(v) =~= core_text(v) + tail_text(v));
        }
    } else {
        if v.build.len() > 0 {
            assert(version_text(v) =~= core_text(v) + tail_text(v));
        } else {
            assert(version_text(v) =~= core_text(v) + tail_text(v));
        }
    }
}

/// Every character of `x` is a decimal digit.
spec fn digit_run(x: Seq<char>) -> bool {
    forall|i: int| 0 <= i < x.len() ==> is_digit(#[trigger] x[i])
}

/// A run of digits, followed by a rest not starting with a digit, splits at
/// the same place in two equal texts.
proof fn lemma_digit_run_split(x1: Seq<char>, y1: Seq<char>, x2: Seq<char>, y2: Seq<char>)
    requires
        x1 + y1 == x2 + y2,
        digit_run(x1),
        digit_run(x2),
        y1.len() > 0 ==> !is_digit(y1[0]),
        y2.len() > 0 ==> !is_digit(y2[0]),
    ensures
        x1 == x2,
        y1 == y2,
{
    let p = |c: char| is_digit(c);
    assert forall|i: int| 0 <= i < x1.len() implies p(#[trigger] x1[i]) by {}
    assert forall|i: int| 0 <= i < x2.len() implies p(#[trigger] x2[i]) by {}
    lemma_split_run(x1, y1, x2, y2, p);
}

/// Three dot-separated digit runs followed by rests that do not start with
/// a digit split at the same places in two equal texts.
proof fn lemma_runs_split(
    x1: Seq<char>,
    y1: Seq<char>,
    z1: Seq<char>,
    t1: Seq<char>,
    x2: Seq<char>,
    y2: Seq<char>,
    z2: Seq<char>,
    t2: Seq<char>,
)
    requires
        x1 + "."@ + y1 + "."@ + z1 + t1 == x2 + "."@ + y2 + "."@ + z2 + t2,
        digit_run(x1),
        digit_run(y1),
        digit_run(z1),
        digit_run(x2),
        digit_run(y2),
        digit_run(z2),
        t1.len() > 0 ==> !is_digit(t1[0]),
        t2.len() > 0 ==> !is_digit(t2[0]),
    ensures
        x1 == x2,
        y1 == y2,
        z1 == z2,
        t1 == t2,
{
    reveal_strlit(".");
    let dot = "."@;
    let r1 = dot + y1 + dot + z1 + t1;
    let r2 = dot + y2 + dot + z2 + t2;
    assert(x1 + dot + y1 + dot + z1 + t1 =~= x1 + r1);
    assert(x2 + dot + y2 + dot + z2 + t2 =~= x2 + r2);
    assert(r1[0] == '.' && r2[0] == '.');
    lemma_digit_run_split(x1, r1, x2, r2);
    let s1 = dot + z1 + t1;
    let s2 = dot + z2 + t2;
    assert(r1.skip(1) =~= y1 + s1);
    assert(r2.skip(1) =~= y2 + s2);
    assert(s1[0] == '.' && s2[0] == '.');
    lemma_digit_run_split(y1, s1, y2, s2);
    assert(s1.skip(1) =~= z1 + t1);
    assert(s2.skip(1) =~= z2 + t2);
    lemma_digit_run_split(z1, t1, z2, t2);
}

/// The decimal text of a number is a run of digits that determines it.
proof fn lemma_decimal_run(n: nat)
    ensures
        digit_run(decimal(n)),
        digits_value(decimal(n)) == n,
{
    lemma_decimal_digits(n);
    assert forall|i: int| 0 <= i < decimal(n).len() implies is_digit(#[trigger] decimal(n)[i]) by {}
}

/// Equal canonical texts have equal numeric components and equal tails.
proof fn lemma_version_core_split(v: VersionModel, w: VersionModel)
    requires
        version_text(v) == version_text(w),
    ensures
        v.major == w.major,
        v.minor == w.minor,
        v.patch == w.patch,
        tail_text(v) == tail_text(w),
{
    lemma_version_text_parts(v);
    lemma_version_text_parts(w);
    lemma_tail_starts(v);
    lemma_tail_starts(w);
    assert(core_text(v) + tail_text(v) =~= decimal(v.major as nat) + "."@ + decimal(v.minor as nat) + "."@
        + decimal(v.patch as nat) + tail_text(v));
    assert(core_text(w) + tail_text(w) =~= decimal(w.major as nat) + "."@ + decimal(w.minor as nat) + "."@
        + decimal(w.patch as nat) + tail_text(w));
    lemma_decimal_run(v.major as nat);
    lemma_decimal_run(v.minor as nat);
    lemma_decimal_run(v.patch as nat);
    lemma_decimal_run(w.major as nat);
    lemma_decimal_run(w.minor as nat);
    lemma_decimal_run(w.patch as nat);
    lemma_runs_split(
        decimal(v.major as nat),
        decimal(v.minor as nat),
        decimal(v.patch as nat),
        tail_text(v),
        decimal(w.major as nat),
        decimal(w.minor as nat),
        decimal(w.patch as nat),
        tail_text(w),
    );
}

/// A tail starts with `-` or `+`, when it is not empty.
proof fn lemma_tail_starts(v: VersionModel)
    ensures
        tail_text(v).len() > 0 ==> tail_text(v)[0] == '-' || tail_text(v)[0] == '+',
{
    reveal_strlit("-");
    reveal_strlit("+");
}

/// The build part of a tail.
spec fn build_text(v: VersionModel) -> Seq<char> {
    if v.build.len() > 0 {
        "+"@ + v.build
    } else {
        Seq::empty()
    }
}

/// Equal tails of versions with valid parts have equal parts.
proof fn lemma_version_tail_split(v: VersionModel, w: VersionModel)
    requires
        pre_valid(v),
        pre_valid(w),
        tail_text(v) == tail_text(w),
    ensures
        v.pre == w.pre,
        v.build == w.build,
{
    reveal_strlit("-");
    reveal_strlit("+");
    let tv = tail_text(v);
    let tw = tail_text(w);
    let bv = build_text(v);
    let bw = build_text(w);
    assert(bv.len() > 0 ==> bv[0] == '+');
    assert(bw.len() > 0 ==> bw[0] == '+');
    if v.pre.len() > 0 && w.pre.len() > 0 {
        assert(tv.skip(1) =~= v.pre + bv);
        assert(tw.skip(1) =~= w.pre + bw);
        let p = |c: char| ident_or_dot(c);
        assert forall|i: int| 0 <= i < v.pre.len() implies p(#[trigger] v.pre[i]) by {}
        assert forall|i: int| 0 <= i < w.pre.len() implies p(#[trigger] w.pre[i]) by {}
        lemma_split_run(v.pre, bv, w.pre, bw, p);
    } else if v.pre.len() > 0 {
        assert(tv[0] == '-');
        assert(tw =~= bw);
    } else if w.pre.len() > 0 {
        assert(tw[0] == '-');
        assert(tv =~= bv);
    } else {
        assert(tv =~= bv);
        assert(tw =~= bw);
    }
    if v.build.len() > 0 && w.build.len() > 0 {
        assert(bv.skip(1) =~= v.build);
        assert(bw.skip(1) =~= w.build);
    }
}

/// The canonical text of a version with valid parts determines it.
proof fn lemma_version_text_injective(v: VersionModel, w: VersionModel)
    requires
        pre_valid(v),
        build_valid(v),
        pre_valid(w),
        build_valid(w),
        version_text(v) == version_text(w),
    ensures
        v == w,
{
    lemma_version_core_split(v, w);
    lemma_version_tail_split(v, w);
}

/// Parsing the canonical text of a version with valid parts gives that
/// version back.
pub proof fn law_canonical_text_parses(v: VersionModel)
    requires
        pre_valid(v),
        build_valid(v),
    ensures
        semver_parse(version_text(v)) == Some(parts_tuple(v)),
{
    reveal(semver_parse);
    let t = version_text(v);
    assert(version_text(v) == t && pre_valid(v) && build_valid(v));
    let w = choose|w: VersionModel| #[trigger] version_text(w) == t && pre_valid(w) && build_valid(w);
    lemma_version_text_injective(v, w);
}

/// Every release-candidate pre-release `rc<n>` is one `semver` accepts.
pub proof fn lemma_rc_pre_accepted(n: u64)
    ensures
        semver_pre_ok(rc_pre(n)),
{
    reveal_strlit("rc");
    let t = rc_pre(n);
    lemma_decimal_digits(n as nat);
    let d = decimal(n as nat);
    assert forall|k: int| 0 <= k < t.len() implies #[trigger] t[k] != '.' && ident_char(t[k]) by {
        if k >= 2 {
            assert(t[k] == d[k - 2]);
        }
    }
    assert forall|i: int, j: int|
        segment_at(t, i, j) && numeric_segment(t, i, j) && j - i > 1 implies t[i] != '0' by {
        if i > 0 {
            assert(t[i - 1] != '.');
        }
        assert(t[0] == 'r');
    }
}

/// The version after a bump with an explicit release-candidate number.
///
/// # Errors
/// None in fact: `semver::Prerelease::new` accepts every `rc<n>`
/// pre-release (see [`lemma_rc_pre_accepted`]).
pub fn next_version_with_rc(current: &VersionParts, bump: BumpType, rc: Option<u64>) -> (r: Result<
    VersionParts,
    RefineryError,
>)
    requires
        bump_fits(current@, bump),
    ensures
        r matches Ok(v) && v@ == next_model(current@, bump, rc),
{
    let (a, b, c) = bump_components(current, bump);
    let pre = match rc {
        Some(n) => {
            let p = cat(owned("rc"), u64_to_string(n).as_str());
            proof {
                lemma_rc_pre_accepted(n);
            }
            if !prerelease_ok(p.as_str()) {
                return Err(RefineryError::Generic(owned("Invalid pre-release identifier")));
            }
            p
        },
        None => String::new(),
    };
    Ok(VersionParts { major: a, minor: b, patch: c, pre, build: current.build.clone() })
}

/// A bump without a release candidate always moves the version forward: the
/// (major, minor, patch) triple grows, or it stays and a pre-release is
/// promoted to its release. The result is never a pre-release.
pub proof fn law_plain_bump_increases(v: VersionModel, bump: BumpType)
    requires
        bump_fits(v, bump),
    ensures
        !same_triple(next_model(v, bump, None), v) ==> !triple_le(next_model(v, bump, None), v),
        same_triple(next_model(v, bump, None), v) ==> v.pre.len() > 0,
        next_model(v, bump, None).pre.len() == 0,
{
}

/// The numbers after each kind of bump. A release (no pre-release) always
/// moves: a major bump gives `(major + 1).0.0`, a minor one
/// `major.(minor + 1).0`, a patch one `major.minor.(patch + 1)`. A
/// pre-release is promoted in place only when it already is the version
/// the bump aims at (`X.0.0-pre` for major, `X.Y.0-pre` for minor, any for
/// patch); otherwise the bump moves the version as for a release. The
/// result carries the release-candidate pre-release asked for (none
/// without one) and keeps the build metadata.
pub proof fn law_bump_numbers(v: VersionModel, bump: BumpType, rc: Option<u64>)
    requires
        bump_fits(v, bump),
    ensures
        bump == BumpType::Major ==> {
            let n = next_model(v, bump, rc);
            &&& n.minor == 0 && n.patch == 0
            &&& (v.pre.len() == 0 || v.minor != 0 || v.patch != 0) ==> n.major == v.major + 1
            &&& (v.pre.len() > 0 && v.minor == 0 && v.patch == 0) ==> n.major == v.major
        },
        bump == BumpType::Minor ==> {
            let n = next_model(v, bump, rc);
            &&& n.major == v.major && n.patch == 0
            &&& (v.pre.len() == 0 || v.patch != 0) ==> n.minor == v.minor + 1
            &&& (v.pre.len() > 0 && v.patch == 0) ==> n.minor == v.minor
        },
        bump == BumpType::Patch ==> {
            let n = next_model(v, bump, rc);
            &&& n.major == v.major && n.minor == v.minor
            &&& v.pre.len() == 0 ==> n.patch == v.patch + 1
            &&& v.pre.len() > 0 ==> n.patch == v.patch
        },
        rc is None ==> next_model(v, bump, rc).pre.len() == 0,
        rc matches Some(k) ==> next_model(v, bump, rc).pre == "rc"@ + decimal(k as nat),
        next_model(v, bump, rc).build == v.build,
{
}

/// A bump resets the components below the one it raises.
pub proof fn law_bump_resets_lower(v: VersionModel, bump: BumpType, rc: Option<u64>)
    requires
        bump_fits(v, bump),
    ensures
        bump == BumpType::Major && !same_triple(next_model(v, bump, rc), v) ==> next_model(
            v,
            bump,
            rc,
        ).major == v.major + 1 && next_model(v, bump, rc).minor == 0 && next_model(
            v,
            bump,
            rc,
        ).patch == 0,
        bump == BumpType::Minor && !same_triple(next_model(v, bump, rc), v) ==> next_model(
            v,
            bump,
            rc,
        ).major == v.major && next_model(v, bump, rc).minor == v.minor + 1 && next_model(
            v,
            bump,
            rc,
        ).patch == 0,
        bump == BumpType::Patch && !same_triple(next_model(v, bump, rc), v) ==> next_model(
            v,
            bump,
            rc,
        ).major == v.major && next_model(v, bump, rc).minor == v.minor && next_model(
            v,
            bump,
            rc,
        ).patch == v.patch + 1,
{
}

proof fn lemma_decimal_digits(n: nat)
    ensures
        decimal(n).len() > 0,
        all_digits(decimal(n)),
        digits_value(decimal(n)) == n,
    decreases n,
{
    let d = decimal(n);
    let last = n % 10;
    assert(digit_char(last) as int - '0' as int == last);
    if n < 10 {
        assert(d.drop_last() =~= Seq::<char>::empty());
        assert(d.last() == digit_char(n));
        assert(digits_value(d) == digits_value(d.drop_last()) * 10 + (d.last() as int - '0' as int));
    } else {
        lemma_decimal_digits(n / 10);
        assert(d.drop_last() =~= decimal(n / 10));
        assert forall|i: int| 0 <= i < d.len() implies '0' <= #[trigger] d[i] <= '9' by {
            if i < d.len() - 1 {
                assert(d[i] == decimal(n / 10)[i]);
            }
        }
        assert(d.last() == digit_char(last));
        assert(digits_value(d) == digits_value(decimal(n / 10)) * 10 + (d.last() as int - '0' as int));
        assert(n == (n / 10) * 10 + n % 10);
    }
}

/// A candidate number of 0 continues a release-candidate series: after
/// `rc<n>` comes `rc<n + 1>`.
pub proof fn law_rc_series_continues(n: u64)
    requires
        n < u64::MAX,
    ensures
        next_rc(rc_pre(n)) == n + 1,
        candidate_rc(
            VersionModel { major: 0, minor: 0, patch: 0, pre: rc_pre(n), build: Seq::empty() },
            Some(0),
        ) == Some((n + 1) as u64),
{
    reveal_strlit("rc");
    let p = rc_pre(n);
    lemma_decimal_digits(n as nat);
    assert(p.subrange(0, 2) =~= "rc"@);
    assert(p.skip(2) =~= decimal(n as nat));
    assert(decimal(n as nat)[0] != '+');
}

/// The next version for a bump and an optional candidate request, and the
/// check that it increases the version.
///
/// # Errors
/// None in fact: every `rc<n>` pre-release is accepted, and a plain bump
/// always gives a greater version (see [`law_plain_bump_increases`]).
pub fn checked_next_version(current: &VersionParts, bump: BumpType, candidate: Option<u64>, rc:
    Option<u64>) -> (r: Result<VersionParts, RefineryError>)
    requires
        bump_fits(current@, bump),
        pre_valid(current@),
        build_valid(current@),
        candidate is None <==> rc is None,
    ensures
        r matches Ok(v) && v@ == next_model(current@, bump, rc),
{
    let next = next_version_with_rc(current, bump, rc)?;
    if candidate.is_none() {
        proof {
            law_plain_bump_increases(current@, bump);
        }
        match version_le(&next, current) {
            Some(true) => {
                let mut msg = owned("Next version ");
                msg = cat(msg, next.to_string().as_str());
                msg = cat(msg, " must be greater than current version ");
                msg = cat(msg, current.to_string().as_str());
                return Err(RefineryError::Generic(msg));
            },
            Some(false) => {},
            None => {},
        }
    }
    Ok(next)
}


/// `package.version`.
pub open spec fn version_path() -> TomlPath {
    seq!["package"@, "version"@]
}

/// A version from the components `semver_parse` reports.
pub open spec fn model_of(t: (u64, u64, u64, Seq<char>, Seq<char>)) -> VersionModel {
    VersionModel { major: t.0, minor: t.1, patch: t.2, pre: t.3, build: t.4 }
}

/// The release-candidate number used: with `series`, a candidate of 0
/// continues the current `rc<n>` series; without, the candidate is taken
/// as it is.
pub open spec fn chosen_rc(v: VersionModel, candidate: Option<u64>, series: bool) -> Option<u64> {
    if series {
        candidate_rc(v, candidate)
    } else {
        candidate
    }
}

/// The bump computes without overflow.
pub open spec fn bump_safe(v: VersionModel, bump: BumpType, candidate: Option<u64>, series: bool) -> bool {
    bump_fits(v, bump) && (series && candidate == Some(0u64) ==> rc_fits(v.pre))
}

/// The entries allow the bump: a version that parses bumps without
/// overflow.
pub open spec fn entries_ready(m: Entries, bump: BumpType, candidate: Option<u64>, series: bool) -> bool {
    match manifest_version(m) {
        Some(s) => match semver_parse(s) {
            Some(t) => bump_safe(model_of(t), bump, candidate, series),
            None => true,
        },
        None => true,
    }
}

/// The version string of a manifest: `package.version` when `package` is a
/// table and the version a string.
pub open spec fn manifest_version(m: Entries) -> Option<Seq<char>> {
    if table_like_at(m, seq!["package"@]) {
        str_at(m, version_path())
    } else {
        None
    }
}

/// The manifest text allows the bump (see [`entries_ready`]): only a
/// version component at its maximum is left out.
pub open spec fn manifest_ready(text: Seq<char>, bump: BumpType, candidate: Option<u64>, series: bool) -> bool {
    match toml_parse(text) {
        Some(m) => entries_ready(m, bump, candidate, series),
        None => true,
    }
}

/// The outcome of a bump on the entries of a manifest: the error for a
/// missing or unparsable version; otherwise the text of the next version,
/// stored at `package.version`.
pub open spec fn entries_bumped(
    r: Result<String, RefineryError>,
    m: Entries,
    after: Entries,
    bump: BumpType,
    candidate: Option<u64>,
    series: bool,
) -> bool {
    match manifest_version(m) {
        None => r matches Err(RefineryError::Generic(e)) && e@ == "Missing version in Cargo.toml"@
            && after == m,
        Some(s) => match semver_parse(s) {
            None => r matches Err(RefineryError::Generic(e)) && e@
                == "Failed to parse current version"@ && after == m,
            Some(t) => {
                let rc = chosen_rc(model_of(t), candidate, series);
                let text = version_text(next_model(model_of(t), bump, rc));
                r matches Ok(v) && v@ == text && after == put(m, version_path(), TomlEntry::Str(text))
            },
        },
    }
}

/// A manifest after a version bump.
pub struct BumpedManifest {
    /// The new version.
    pub version: String,
    /// The new text of `Cargo.toml`.
    pub manifest: String,
}

/// The version of a bump's outcome.
pub open spec fn version_result(r: Result<BumpedManifest, RefineryError>) -> Result<String, RefineryError> {
    match r {
        Ok(b) => Ok(b.version),
        Err(e) => Err(e),
    }
}

/// The outcome of a bump on a manifest text: the parse error, the error of
/// the bump, or the new version with the rendering of the updated entries.
pub open spec fn manifest_bumped(
    r: Result<BumpedManifest, RefineryError>,
    text: Seq<char>,
    bump: BumpType,
    candidate: Option<u64>,
    series: bool,
) -> bool {
    match toml_parse(text) {
        None => r matches Err(RefineryError::Generic(e)) && e@ == "Failed to parse Cargo.toml"@,
        Some(m) => exists|after: Entries|
            {
                &&& #[trigger] entries_bumped(
                    version_result(r),
                    m,
                    after,
                    bump,
                    candidate,
                    series,
                )
                &&& r matches Ok(b) ==> renders(b.manifest@, after)
            },
    }
}

fn read_version(doc: &DocumentMut) -> (r: Result<VersionParts, RefineryError>)
    ensures
        match manifest_version(toml_entries(*doc)) {
            None => r matches Err(RefineryError::Generic(e)) && e@ == "Missing version in Cargo.toml"@,
            Some(s) => match semver_parse(s) {
                None => r matches Err(RefineryError::Generic(e)) && e@
                    == "Failed to parse current version"@,
                Some(t) => r matches Ok(v) && v@ == model_of(t) && pre_valid(v@) && build_valid(v@),
            },
        },
{
    match kind1(doc, "package") {
        Some(NodeKind::Table) => {},
        Some(NodeKind::InlineTable) => {},
        _ => return Err(RefineryError::Generic(owned("Missing version in Cargo.toml"))),
    }
    match get_str(doc, "package", "version") {
        None => Err(RefineryError::Generic(owned("Missing version in Cargo.toml"))),
        Some(s) => match VersionParts::parse(s.as_str()) {
            None => Err(RefineryError::Generic(owned("Failed to parse current version"))),
            Some(v) => Ok(v),
        },
    }
}

fn bump_document(doc: &mut DocumentMut, bump: BumpType, candidate: Option<u64>, series: bool) -> (r:
    Result<String, RefineryError>)
    requires
        entries_ready(toml_entries(*old(doc)), bump, candidate, series),
    ensures
        entries_bumped(
            r,
            toml_entries(*old(doc)),
            toml_entries(*final(doc)),
            bump,
            candidate,
            series,
        ),
{
    let current = match read_version(doc) {
        Ok(v) => v,
        Err(e) => return Err(e),
    };
    let rc = if series {
        match candidate {
            Some(c) => if c == 0 {
                Some(parse_rc_number(current.pre.as_str()))
            } else {
                Some(c)
            },
            None => None,
        }
    } else {
        candidate
    };
    let next = match checked_next_version(&current, bump, candidate, rc) {
        Ok(v) => v,
        Err(e) => return Err(e),
    };
    let text = next.to_string();
    set_str2(doc, "package", "version", text.as_str());
    Ok(text)
}

fn document_ready(doc: &DocumentMut, bump: BumpType, candidate: Option<u64>, series: bool) -> (r: bool)
    ensures
        r == entries_ready(toml_entries(*doc), bump, candidate, series),
{
    match read_version(doc) {
        Err(_) => true,
        Ok(v) => bump_fits_exec(&v, bump) && (!(series && candidate == Some(0u64))
            || rc_fits_exec(v.pre.as_str())),
    }
}

pub(crate) fn bump_text(content: &str, bump: BumpType, candidate: Option<u64>, series: bool, checked: bool) -> (r:
    Option<Result<BumpedManifest, RefineryError>>)
    requires
        !checked ==> manifest_ready(content@, bump, candidate, series),
    ensures
        !checked ==> r is Some,
        r is Some <==> manifest_ready(content@, bump, candidate, series),
        r matches Some(x) ==> manifest_bumped(x, content@, bump, candidate, series),
{
    let mut doc = match parse_document(content) {
        Ok(d) => d,
        Err(_) => return Some(Err(RefineryError::Generic(owned("Failed to parse Cargo.toml")))),
    };
    if checked && !document_ready(&doc, bump, candidate, series) {
        return None;
    }
    let ghost before = toml_entries(doc);
    let r = bump_document(&mut doc, bump, candidate, series);
    let ghost after = toml_entries(doc);
    let out = match r {
        Ok(version) => Ok(BumpedManifest { version, manifest: render_manifest(&doc) }),
        Err(e) => Err(e),
    };
    assert(entries_bumped(
        version_result(out),
        before,
        after,
        bump,
        candidate,
        series,
    ));
    Some(out)
}

/// Reading the version back from a bumped manifest gives the new version:
/// the rendered entries hold it at `package.version`, and it is a version
/// `semver` parses back, whose canonical text it is.
pub proof fn law_bumped_manifest_holds_version(
    r: Result<BumpedManifest, RefineryError>,
    text: Seq<char>,
    bump: BumpType,
    candidate: Option<u64>,
    series: bool,
)
    requires
        manifest_bumped(r, text, bump, candidate, series),
        r is Ok,
    ensures
        exists|after: Entries|
            renders(r->Ok_0.manifest@, after) && #[trigger] str_at(after, version_path()) == Some(
                r->Ok_0.version@,
            ),
        semver_parse(r->Ok_0.version@) matches Some(t) && version_text(model_of(t)) == r->Ok_0.version@,
{
    let m = toml_parse(text)->Some_0;
    let after = choose|after: Entries|
        #[trigger] entries_bumped(version_result(r), m, after, bump, candidate, series) && (r matches Ok(
            b,
        ) ==> renders(b.manifest@, after));
    assert(str_at(after, version_path()) == Some(r->Ok_0.version@));
    let s = manifest_version(m)->Some_0;
    let t = semver_parse(s)->Some_0;
    lemma_parsed_parts_valid(s);
    let rc = chosen_rc(model_of(t), candidate, series);
    let next = next_model(model_of(t), bump, rc);
    if let Some(n) = rc {
        lemma_rc_pre_accepted(n);
    }
    law_canonical_text_parses(next);
    assert(model_of(parts_tuple(next)) == next);
}

/// A version `semver` parses has valid parts, and the text is its
/// canonical text.
pub proof fn lemma_parsed_parts_valid(text: Seq<char>)
    ensures
        semver_parse(text) matches Some(t) ==> pre_valid(model_of(t)) && build_valid(model_of(t))
            && version_text(model_of(t)) == text,
{
    reveal(semver_parse);
    if semver_parse(text) is Some {
        let v = choose|v: VersionModel| #[trigger] version_text(v) == text && pre_valid(v) && build_valid(v);
        assert(model_of(parts_tuple(v)) == v);
    }
}

/// A git invocation of a release plan.
pub struct GitCommand {
    pub args: Vec<String>,
    /// A failure of this command aborts the release.
    pub must_succeed: bool,
}

/// Abstract value of a [`GitCommand`].
pub struct GitModel {
    pub args: Seq<Seq<char>>,
    pub must_succeed: bool,
}

impl View for GitCommand {
    type V = GitModel;

    open spec fn view(&self) -> GitModel {
        GitModel { args: self.args.deep_view(), must_succeed: self.must_succeed }
    }
}

impl DeepView for GitCommand {
    type V = GitModel;

    open spec fn deep_view(&self) -> GitModel {
        self@
    }
}

/// Drives version bumps and tags releases.
pub struct ReleaseManager<'a> {
    pub main_branch: &'a str,
    pub auto_check_cargo: bool,
}

/// The git commands that delete a tag: locally (failure ignored), then on
/// the remote.
pub open spec fn delete_tag_plan(tag: Seq<char>) -> Seq<GitModel> {
    seq![
        GitModel { args: seq!["tag"@, "-d"@, tag], must_succeed: false },
        GitModel { args: seq!["push"@, "origin"@, "--delete"@, tag], must_succeed: true },
    ]
}

/// The git commands that commit, tag and push release `version`.
pub open spec fn finalize_plan(version: Seq<char>, branch: Seq<char>, lock_exists: bool) -> Seq<
    GitModel,
> {
    let tag = "v"@ + version;
    let add = seq![GitModel { args: seq!["add"@, "Cargo.toml"@], must_succeed: true }];
    let with_lock = if lock_exists {
        add.push(GitModel { args: seq!["add"@, "Cargo.lock"@], must_succeed: true })
    } else {
        add
    };
    with_lock + seq![
        GitModel {
            args: seq!["commit"@, "-m"@, "chore: release "@ + version],
            must_succeed: true,
        },
        GitModel {
            args: seq!["tag"@, "-a"@, tag, "-m"@, "Release "@ + version],
            must_succeed: true,
        },
        GitModel { args: seq!["push"@, "origin"@, branch], must_succeed: true },
        GitModel { args: seq!["push"@, "origin"@, "--tags"@], must_succeed: true },
    ]
}

/// The arguments of the `gh` call that creates the GitHub release.
pub open spec fn gh_release_args(version: Seq<char>, notes: Seq<char>) -> Seq<Seq<char>> {
    let tag = "v"@ + version;
    seq!["release"@, "create"@, tag, "--title"@, tag, "--notes-file"@, notes]
}

fn git(args: Vec<String>, must_succeed: bool) -> (r: GitCommand)
    ensures
        r.args == args,
        r.must_succeed == must_succeed,
{
    GitCommand { args, must_succeed }
}

fn strs2(a: &str, b: &str) -> (r: Vec<String>)
    ensures
        r.deep_view() == seq![a@, b@],
{
    let mut v: Vec<String> = Vec::new();
    push_string(&mut v, owned(a));
    push_string(&mut v, owned(b));
    assert(v.deep_view() =~= seq![a@, b@]);
    v
}

fn strs3(a: &str, b: &str, c: &str) -> (r: Vec<String>)
    ensures
        r.deep_view() == seq![a@, b@, c@],
{
    let mut v = strs2(a, b);
    push_string(&mut v, owned(c));
    assert(v.deep_view() =~= seq![a@, b@, c@]);
    v
}

impl<'a> ReleaseManager<'a> {
    /// A release manager pushing to `main_branch`.
    pub fn new(main_branch: &'a str, auto_check_cargo: bool) -> (r: Self)
        ensures
            r.main_branch == main_branch,
            r.auto_check_cargo == auto_check_cargo,
    {
        ReleaseManager { main_branch, auto_check_cargo }
    }

    /// The version following `current` for a bump; a candidate number of 0
    /// continues the current `rc<n>` series.
    ///
    /// # Errors
    /// None in fact: `semver` accepts every `rc<n>` pre-release.
    pub fn calculate_next_version(current: &VersionParts, bump: BumpType, candidate: Option<u64>) -> (r:
        Result<VersionParts, RefineryError>)
        requires
            can_bump(current@, bump, candidate),
        ensures
            r matches Ok(v) && v@ == next_model(current@, bump, candidate_rc(current@, candidate)),
    {
        let rc = match candidate {
            Some(c) => if c == 0 {
                Some(parse_rc_number(current.pre.as_str()))
            } else {
                Some(c)
            },
            None => None,
        };
        next_version_with_rc(current, bump, rc)
    }

    /// Bumps the version of a `Cargo.toml` text; a candidate number of 0
    /// continues the current `rc<n>` series.
    ///
    /// # Errors
    /// When the text is not TOML, or the version is missing (no `package`
    /// table, or no string `package.version`) or unparsable.
    pub fn bump_version(&self, content: &str, bump: BumpType, candidate: Option<u64>) -> (r: Result<
        BumpedManifest,
        RefineryError,
    >)
        requires
            manifest_ready(content@, bump, candidate, true),
        ensures
            manifest_bumped(r, content@, bump, candidate, true),
    {
        bump_text(content, bump, candidate, true, false).unwrap()
    }

    /// [`Self::bump_version`] where its precondition holds; `None` where the
    /// component the bump raises is already at its maximum.
    pub fn try_bump_version(&self, content: &str, bump: BumpType, candidate: Option<u64>) -> (r: Option<
        Result<BumpedManifest, RefineryError>,
    >)
        ensures
            r is Some <==> manifest_ready(content@, bump, candidate, true),
            r matches Some(x) ==> manifest_bumped(x, content@, bump, candidate, true),
    {
        bump_text(content, bump, candidate, true, true)
    }

    /// The command run after a bump: `cargo check` (to refresh `Cargo.lock`)
    /// exactly when the manager was asked to.
    pub fn post_bump_commands(&self) -> (r: Vec<Vec<String>>)
        ensures
            self.auto_check_cargo ==> r.deep_view() == seq![seq!["cargo"@, "check"@]],
            !self.auto_check_cargo ==> r@.len() == 0,
    {
        let mut r: Vec<Vec<String>> = Vec::new();
        if self.auto_check_cargo {
            r.push(strs2("cargo", "check"));
            assert(r.deep_view() =~= seq![seq!["cargo"@, "check"@]]);
        }
        r
    }

    /// The git commands that delete `tag` locally and on the remote.
    pub fn delete_tag(tag: &str) -> (r: Vec<GitCommand>)
        ensures
            r.deep_view() == delete_tag_plan(tag@),
    {
        let mut v: Vec<GitCommand> = Vec::new();
        v.push(git(strs3("tag", "-d", tag), false));
        let mut push = strs3("push", "origin", "--delete");
        push_string(&mut push, owned(tag));
        assert(push.deep_view() =~= seq!["push"@, "origin"@, "--delete"@, tag@]);
        v.push(git(push, true));
        assert(v.deep_view() =~= delete_tag_plan(tag@));
        v
    }

    /// The git commands that commit `Cargo.toml` (and `Cargo.lock` when it
    /// exists), tag `v<version>` and push branch and tags.
    pub fn finalize_git_release(&self, version: &str, lock_exists: bool) -> (r: Vec<GitCommand>)
        ensures
            r.deep_view() == finalize_plan(version@, self.main_branch@, lock_exists),
    {
        let tag = cat(owned("v"), version);
        let mut v: Vec<GitCommand> = Vec::new();
        v.push(git(strs2("add", "Cargo.toml"), true));
        if lock_exists {
            v.push(git(strs2("add", "Cargo.lock"), true));
        }
        v.push(git(strs3("commit", "-m", cat(owned("chore: release "), version).as_str()), true));
        let mut tag_args = strs3("tag", "-a", tag.as_str());
        push_string(&mut tag_args, owned("-m"));
        push_string(&mut tag_args, cat(owned("Release "), version));
        assert(tag_args.deep_view() =~= seq![
            "tag"@,
            "-a"@,
            "v"@ + version@,
            "-m"@,
            "Release "@ + version@,
        ]);
        v.push(git(tag_args, true));
        v.push(git(strs3("push", "origin", self.main_branch), true));
        v.push(git(strs3("push", "origin", "--tags"), true));
        assert(v.deep_view() =~= finalize_plan(version@, self.main_branch@, lock_exists));
        v
    }

    /// The `gh` arguments that create the GitHub release of `version` with
    /// the notes in `notes_file`.
    pub fn gh_release(version: &str, notes_file: &str) -> (r: Vec<String>)
        ensures
            r.deep_view() == gh_release_args(version@, notes_file@),
    {
        let tag = cat(owned("v"), version);
        let mut v = strs3("release", "create", tag.as_str());
        push_string(&mut v, owned("--title"));
        push_string(&mut v, tag.clone());
        push_string(&mut v, owned("--notes-file"));
        push_string(&mut v, owned(notes_file));
        assert(v.deep_view() =~= gh_release_args(version@, notes_file@));
        v
    }
}

} // verus!
