//! Small verified string utilities over character sequences.
use vstd::prelude::*;

verus! {

/// Appends one character to a `String` (`String::push` of std).
/// Claimed: the new contents are the old contents followed by `c`.
#[verifier::external_body]
pub(crate) fn push_char(s: &mut String, c: char)
    ensures
        final(s)@ == old(s)@.push(c),
{
    s.push(c);
}

/// Copies a string into a new owned `String`.
pub fn owned(s: &str) -> (r: String)
    ensures
        r@ == s@,
{
    String::from_str(s)
}

/// Concatenation of two strings.
pub fn concat(a: &str, b: &str) -> (r: String)
    ensures
        r@ == a@ + b@,
{
    let mut r = String::from_str(a);
    r.append(b);
    r
}

/// The characters of a string, in order.
pub fn chars_of(s: &str) -> (v: Vec<char>)
    ensures
        v@ == s@,
{
    let n = s.unicode_len();
    let mut v: Vec<char> = Vec::new();
    let mut i: usize = 0;
    while i < n
        invariant
            n == s@.len(),
            i <= n,
            v@ == s@.subrange(0, i as int),
        decreases n - i,
    {
        let c = s.get_char(i);
        v.push(c);
        i = i + 1;
        assert(v@ =~= s@.subrange(0, i as int));
    }
    assert(v@ =~= s@);
    v
}

/// Builds a `String` from a slice of characters.
pub fn string_of(cs: &[char]) -> (r: String)
    ensures
        r@ == cs@,
{
    let mut r = String::new();
    let mut i: usize = 0;
    while i < cs.len()
        invariant
            i <= cs@.len(),
            r@ == cs@.subrange(0, i as int),
        decreases cs@.len() - i,
    {
        push_char(&mut r, cs[i]);
        i = i + 1;
        assert(r@ =~= cs@.subrange(0, i as int));
    }
    assert(r@ =~= cs@);
    r
}

/// The decimal digit character for `d` (`d < 10`).
pub open spec fn digit_char(d: nat) -> char {
    if d == 0 { '0' }
    else if d == 1 { '1' }
    else if d == 2 { '2' }
    else if d == 3 { '3' }
    else if d == 4 { '4' }
    else if d == 5 { '5' }
    else if d == 6 { '6' }
    else if d == 7 { '7' }
    else if d == 8 { '8' }
    else { '9' }
}

/// Decimal rendering of a natural number, as `to_string` writes it for
/// unsigned integers: no sign, no leading zeros, "0" for zero.
pub open spec fn decimal(n: nat) -> Seq<char>
    decreases n,
{
    if n < 10 {
        seq![digit_char(n)]
    } else {
        decimal(n / 10).push(digit_char(n % 10))
    }
}

fn digit_of(d: u64) -> (c: char)
    requires
        d < 10,
    ensures
        c == digit_char(d as nat),
{
    if d == 0 { '0' }
    else if d == 1 { '1' }
    else if d == 2 { '2' }
    else if d == 3 { '3' }
    else if d == 4 { '4' }
    else if d == 5 { '5' }
    else if d == 6 { '6' }
    else if d == 7 { '7' }
    else if d == 8 { '8' }
    else { '9' }
}

/// Decimal string of an unsigned integer.
pub fn u64_to_string(n: u64) -> (r: String)
    ensures
        r@ == decimal(n as nat),
    decreases n,
{
    if n < 10 {
        let mut r = String::new();
        push_char(&mut r, digit_of(n));
        assert(r@ =~= decimal(n as nat));
        r
    } else {
        let mut r = u64_to_string(n / 10);
        push_char(&mut r, digit_of(n % 10));
        r
    }
}

/// `s` begins with `p`.
pub open spec fn has_prefix(s: Seq<char>, p: Seq<char>) -> bool {
    p.len() <= s.len() && s.subrange(0, p.len() as int) == p
}

/// `s` ends with `p`.
pub open spec fn has_suffix(s: Seq<char>, p: Seq<char>) -> bool {
    p.len() <= s.len() && s.subrange(s.len() - p.len(), s.len() as int) == p
}

/// `p` occurs in `s` starting at position `i`.
pub open spec fn occurs_at(s: Seq<char>, p: Seq<char>, i: int) -> bool {
    0 <= i && i + p.len() <= s.len() && s.subrange(i, i + p.len()) == p
}

/// `p` occurs somewhere in `s`.
pub open spec fn contains_seq(s: Seq<char>, p: Seq<char>) -> bool {
    exists|i: int| occurs_at(s, p, i)
}

fn matches_at(s: &Vec<char>, p: &Vec<char>, i: usize) -> (r: bool)
    requires
        i + p@.len() <= s@.len(),
    ensures
        r == (s@.subrange(i as int, i + p@.len()) == p@),
{
    let mut j: usize = 0;
    while j < p.len()
        invariant
            i + p@.len() <= s@.len(),
            j <= p@.len(),
            i + p@.len() <= s.len(),
            forall|k: int| 0 <= k < j ==> s@[i + k] == p@[k],
        decreases p@.len() - j,
    {
        if s[i + j] != p[j] {
            assert(s@.subrange(i as int, i + p@.len())[j as int] != p@[j as int]);
            return false;
        }
        j = j + 1;
    }
    assert(s@.subrange(i as int, i + p@.len()) =~= p@);
    true
}

/// Whether `s` starts with `p`.
pub fn starts_with(s: &str, p: &str) -> (r: bool)
    ensures
        r == has_prefix(s@, p@),
{
    let sv = chars_of(s);
    let pv = chars_of(p);
    if pv.len() > sv.len() {
        return false;
    }
    matches_at(&sv, &pv, 0)
}

/// Whether `s` ends with `p`.
pub fn ends_with(s: &str, p: &str) -> (r: bool)
    ensures
        r == has_suffix(s@, p@),
{
    let sv = chars_of(s);
    let pv = chars_of(p);
    if pv.len() > sv.len() {
        return false;
    }
    matches_at(&sv, &pv, sv.len() - pv.len())
}

/// Whether `p` occurs in `s`.
pub fn contains(s: &str, p: &str) -> (r: bool)
    ensures
        r == contains_seq(s@, p@),
{
    let sv = chars_of(s);
    let pv = chars_of(p);
    if pv.len() > sv.len() {
        assert forall|i: int| !occurs_at(s@, p@, i) by {}
        return false;
    }
    if pv.len() == 0 {
        assert(s@.subrange(0, 0) =~= p@);
        assert(occurs_at(s@, p@, 0));
        return true;
    }
    let mut i: usize = 0;
    while pv.len() <= sv.len() - i
        invariant
            sv@ == s@,
            pv@ == p@,
            1 <= pv@.len() <= sv@.len(),
            i <= sv@.len(),
            i <= sv@.len() - pv@.len() + 1,
            forall|k: int| 0 <= k < i ==> !occurs_at(s@, p@, k),
        decreases sv@.len() - i,
    {
        if matches_at(&sv, &pv, i) {
            assert(occurs_at(s@, p@, i as int));
            return true;
        }
        i = i + 1;
    }
    assert forall|k: int| !occurs_at(s@, p@, k) by {
        if 0 <= k && k + p@.len() <= s@.len() {
            assert(k < i);
        }
    }
    false
}

} // verus!

verus! {

/// Equality of two strings by their characters.
pub fn str_eq(a: &str, b: &str) -> (r: bool)
    ensures
        r == (a@ == b@),
{
    let av = chars_of(a);
    let bv = chars_of(b);
    if av.len() != bv.len() {
        return false;
    }
    let r = matches_at(&av, &bv, 0);
    proof {
        if r {
            assert(av@ =~= av@.subrange(0, bv@.len() as int));
        } else {
            assert(av@.subrange(0, bv@.len() as int) =~= av@);
        }
    }
    r
}

} // verus!

verus! {

/// Extends an owned string with `b`.
pub fn cat(a: String, b: &str) -> (r: String)
    ensures
        r@ == a@ + b@,
{
    let mut a = a;
    a.append(b);
    a
}

} // verus!

verus! {

/// The lines of `s` joined with `sep` between consecutive elements.
pub open spec fn join_with(s: Seq<Seq<char>>, sep: Seq<char>) -> Seq<char>
    decreases s.len(),
{
    if s.len() == 0 {
        Seq::empty()
    } else if s.len() == 1 {
        s[0]
    } else {
        join_with(s.drop_last(), sep) + sep + s.last()
    }
}

/// Joins strings with a separator (`[..].join(sep)`).
pub fn join(parts: &Vec<String>, sep: &str) -> (r: String)
    ensures
        r@ == join_with(parts.deep_view(), sep@),
{
    let ghost ps = parts.deep_view();
    let mut r = String::new();
    let mut i: usize = 0;
    while i < parts.len()
        invariant
            ps == parts.deep_view(),
            i <= ps.len(),
            r@ == join_with(ps.subrange(0, i as int), sep@),
        decreases ps.len() - i,
    {
        proof {
            let t = ps.subrange(0, i + 1);
            assert(t.drop_last() =~= ps.subrange(0, i as int));
            assert(t.last() == parts@[i as int]@);
        }
        if i == 0 {
            r = cat(r, parts[i].as_str());
            assert(r@ =~= join_with(ps.subrange(0, 1), sep@));
        } else {
            r = cat(r, sep);
            r = cat(r, parts[i].as_str());
        }
        i = i + 1;
    }
    assert(ps.subrange(0, i as int) =~= ps);
    r
}

/// A text that contains `p` still does with text added on either side.
pub proof fn lemma_contains_within(a: Seq<char>, b: Seq<char>, c: Seq<char>, p: Seq<char>)
    requires
        contains_seq(b, p),
    ensures
        contains_seq(a + b + c, p),
{
    let i = choose|i: int| occurs_at(b, p, i);
    let s = a + b + c;
    assert(s.subrange(a.len() + i, a.len() + i + p.len()) =~= b.subrange(i, i + p.len()));
    assert(occurs_at(s, p, a.len() + i));
}

/// Containment is transitive.
pub proof fn lemma_contains_trans(s: Seq<char>, t: Seq<char>, p: Seq<char>)
    requires
        contains_seq(s, t),
        contains_seq(t, p),
    ensures
        contains_seq(s, p),
{
    let i = choose|i: int| occurs_at(s, t, i);
    let j = choose|j: int| occurs_at(t, p, j);
    assert(s.subrange(i + j, i + j + p.len()) =~= t.subrange(j, j + p.len()));
    assert(occurs_at(s, p, i + j));
}

/// Joined lines contain each of the lines.
pub proof fn lemma_join_contains(s: Seq<Seq<char>>, sep: Seq<char>, i: int)
    requires
        0 <= i < s.len(),
    ensures
        contains_seq(join_with(s, sep), s[i]),
    decreases s.len(),
{
    if s.len() == 1 {
        assert(s[i].subrange(0, s[i].len() as int) =~= s[i]);
        assert(occurs_at(join_with(s, sep), s[i], 0));
    } else if i == s.len() - 1 {
        assert(occurs_at(s[i], s[i], 0)) by {
            assert(s[i].subrange(0, s[i].len() as int) =~= s[i]);
        }
        lemma_contains_within(join_with(s.drop_last(), sep) + sep, s[i], Seq::empty(), s[i]);
        assert(join_with(s.drop_last(), sep) + sep + s[i] + Seq::<char>::empty() =~= join_with(s, sep));
    } else {
        lemma_join_contains(s.drop_last(), sep, i);
        assert(s.drop_last()[i] == s[i]);
        lemma_contains_within(Seq::empty(), join_with(s.drop_last(), sep), sep + s.last(), s[i]);
        assert(Seq::<char>::empty() + join_with(s.drop_last(), sep) + (sep + s.last()) =~= join_with(s, sep));
    }
}

/// Some element of `v` contains `p`.
pub open spec fn any_contains(v: Seq<Seq<char>>, p: Seq<char>) -> bool {
    exists|i: int| 0 <= i < v.len() && contains_seq(#[trigger] v[i], p)
}

/// Whether some string of `v` contains `p`.
pub fn any_contains_exec(v: &[String], p: &str) -> (r: bool)
    ensures
        r == any_contains(v.deep_view(), p@),
{
    let ghost vs = v.deep_view();
    let mut i: usize = 0;
    while i < v.len()
        invariant
            vs == v.deep_view(),
            i <= vs.len(),
            forall|k: int| 0 <= k < i ==> !contains_seq(#[trigger] vs[k], p@),
        decreases vs.len() - i,
    {
        if contains(v[i].as_str(), p) {
            assert(contains_seq(vs[i as int], p@));
            return true;
        }
        i = i + 1;
    }
    false
}

} // verus!

verus! {

/// Appends a string to a list of strings.
pub fn push_string(v: &mut Vec<String>, s: String)
    ensures
        final(v).deep_view() == old(v).deep_view().push(s@),
{
    let ghost before = v.deep_view();
    v.push(s);
    assert(v.deep_view() =~= before.push(s@)) by {
        assert(v@[v@.len() - 1] == s);
    }
}

/// A list of string views, from literals.
pub fn strings_of(parts: &[&str]) -> (r: Vec<String>)
    ensures
        r.deep_view() == parts@.map_values(|p: &str| p@),
{
    let mut r: Vec<String> = Vec::new();
    let mut i: usize = 0;
    while i < parts.len()
        invariant
            i <= parts@.len(),
            r.deep_view() == parts@.subrange(0, i as int).map_values(|p: &str| p@),
        decreases parts@.len() - i,
    {
        push_string(&mut r, owned(parts[i]));
        i = i + 1;
        assert(r.deep_view() =~= parts@.subrange(0, i as int).map_values(|p: &str| p@));
    }
    assert(parts@.subrange(0, i as int) =~= parts@);
    r
}

} // verus!

verus! {

/// `s` with every non-overlapping occurrence of `from` (scanning left to
/// right) replaced by `to`, as `str::replace` does for a non-empty pattern.
pub open spec fn replace_all(s: Seq<char>, from: Seq<char>, to: Seq<char>) -> Seq<char>
    decreases s.len(),
{
    if from.len() == 0 || s.len() < from.len() {
        s
    } else if s.subrange(0, from.len() as int) == from {
        to + replace_all(s.skip(from.len() as int), from, to)
    } else {
        seq![s[0]] + replace_all(s.skip(1), from, to)
    }
}

/// Replaces every occurrence of a non-empty pattern (`str::replace`).
pub fn replace(s: &str, from: &str, to: &str) -> (r: String)
    requires
        from@.len() > 0,
    ensures
        r@ == replace_all(s@, from@, to@),
{
    let sv = chars_of(s);
    let fv = chars_of(from);
    let mut out = String::new();
    let mut i: usize = 0;
    assert(s@.skip(0) =~= s@);
    while i < sv.len()
        invariant
            sv@ == s@,
            fv@ == from@,
            fv@.len() > 0,
            i <= sv@.len(),
            out@ + replace_all(s@.skip(i as int), from@, to@) == replace_all(s@, from@, to@),
        decreases sv@.len() - i,
    {
        let ghost rest = s@.skip(i as int);
        if fv.len() <= sv.len() - i && matches_at(&sv, &fv, i) {
            assert(rest.subrange(0, from@.len() as int) =~= sv@.subrange(i as int, i + fv@.len()));
            assert(rest.skip(from@.len() as int) =~= s@.skip(i + fv@.len()));
            out = cat(out, to);
            i = i + fv.len();
        } else {
            proof {
                if rest.len() >= from@.len() {
                    assert(rest.subrange(0, from@.len() as int) =~= sv@.subrange(
                        i as int,
                        i + fv@.len(),
                    ));
                }
                assert(rest.skip(1) =~= s@.skip(i + 1));
                assert(seq![rest[0]] + replace_all(rest.skip(1), from@, to@) == replace_all(
                    rest,
                    from@,
                    to@,
                ));
            }
            push_char(&mut out, sv[i]);
            i = i + 1;
            assert(out@ + replace_all(s@.skip(i as int), from@, to@) =~= replace_all(
                s@,
                from@,
                to@,
            ));
        }
    }
    assert(s@.skip(i as int) =~= Seq::<char>::empty());
    assert(out@ =~= out@ + replace_all(s@.skip(i as int), from@, to@));
    out
}

} // verus!
