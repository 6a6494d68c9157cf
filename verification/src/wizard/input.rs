//! How the wizard reads typed answers: trimming, optional values, defaults
//! and comma-separated lists.
use vstd::prelude::*;

use crate::text::{chars_of, owned, string_of};

verus! {

/// A character with the Unicode `White_Space` property (what `str::trim`
/// removes).
pub open spec fn is_white_space(c: char) -> bool {
    let n = c as u32;
    (0x9 <= n && n <= 0xd) || n == 0x20 || n == 0x85 || n == 0xa0 || n == 0x1680 || (0x2000 <= n
        && n <= 0x200a) || n == 0x2028 || n == 0x2029 || n == 0x202f || n == 0x205f || n == 0x3000
}

/// `s` without its leading white space.
pub open spec fn trim_start(s: Seq<char>) -> Seq<char>
    decreases s.len(),
{
    if s.len() > 0 && is_white_space(s[0]) {
        trim_start(s.skip(1))
    } else {
        s
    }
}

/// `s` without its trailing white space.
pub open spec fn trim_end(s: Seq<char>) -> Seq<char>
    decreases s.len(),
{
    if s.len() > 0 && is_white_space(s.last()) {
        trim_end(s.drop_last())
    } else {
        s
    }
}

/// `s` without leading and trailing white space.
pub open spec fn trimmed(s: Seq<char>) -> Seq<char> {
    trim_end(trim_start(s))
}

fn white_space(c: char) -> (r: bool)
    ensures
        r == is_white_space(c),
{
    let n = c as u32;
    (0x9 <= n && n <= 0xd) || n == 0x20 || n == 0x85 || n == 0xa0 || n == 0x1680 || (0x2000 <= n
        && n <= 0x200a) || n == 0x2028 || n == 0x2029 || n == 0x202f || n == 0x205f || n == 0x3000
}

proof fn lemma_trim_start_step(s: Seq<char>, i: int)
    requires
        0 <= i < s.len(),
        is_white_space(s[i]),
    ensures
        trim_start(s.subrange(i, s.len() as int)) == trim_start(s.subrange(i + 1, s.len() as int)),
{
    assert(s.subrange(i, s.len() as int).skip(1) =~= s.subrange(i + 1, s.len() as int));
}

proof fn lemma_trim_end_step(s: Seq<char>, j: int)
    requires
        0 < j <= s.len(),
        is_white_space(s[j - 1]),
    ensures
        trim_end(s.subrange(0, j)) == trim_end(s.subrange(0, j - 1)),
{
    assert(s.subrange(0, j).drop_last() =~= s.subrange(0, j - 1));
}

fn trim_chars(cs: &[char]) -> (r: Vec<char>)
    ensures
        r@ == trimmed(cs@),
{
    let n = cs.len();
    let mut i: usize = 0;
    assert(cs@.subrange(0, n as int) =~= cs@);
    while i < n && white_space(cs[i])
        invariant
            i <= n == cs@.len(),
            trim_start(cs@) == trim_start(cs@.subrange(i as int, n as int)),
        decreases n - i,
    {
        proof {
            lemma_trim_start_step(cs@, i as int);
        }
        i = i + 1;
    }
    let ghost rest = cs@.subrange(i as int, n as int);
    assert(trim_start(rest) == rest);
    let mut j: usize = n;
    assert(rest.subrange(0, rest.len() as int) =~= rest);
    while j > i && white_space(cs[j - 1])
        invariant
            i <= j <= n == cs@.len(),
            rest == cs@.subrange(i as int, n as int),
            trim_end(rest) == trim_end(rest.subrange(0, j - i)),
        decreases j,
    {
        proof {
            lemma_trim_end_step(rest, j - i);
        }
        j = j - 1;
    }
    let ghost kept = rest.subrange(0, j - i);
    assert(trim_end(kept) == kept);
    let mut out: Vec<char> = Vec::new();
    let mut k: usize = i;
    while k < j
        invariant
            i <= k <= j <= n == cs@.len(),
            out@ == cs@.subrange(i as int, k as int),
        decreases j - k,
    {
        out.push(cs[k]);
        k = k + 1;
        assert(out@ =~= cs@.subrange(i as int, k as int));
    }
    assert(kept =~= cs@.subrange(i as int, j as int));
    out
}

/// The answer without leading and trailing white space (`str::trim`).
pub fn trim(s: &str) -> (r: String)
    ensures
        r@ == trimmed(s@),
{
    let cs = chars_of(s);
    let t = trim_chars(cs.as_slice());
    string_of(t.as_slice())
}

/// An optional answer: `None` when it is blank, else the trimmed answer.
pub open spec fn optional(s: Seq<char>) -> Option<Seq<char>> {
    if trimmed(s).len() == 0 {
        None
    } else {
        Some(trimmed(s))
    }
}

/// Reads an optional answer: `None` when blank, else the trimmed answer.
pub fn optional_text(s: &str) -> (r: Option<String>)
    ensures
        r.deep_view() == optional(s@),
{
    let t = trim(s);
    if t.as_str().is_empty() {
        None
    } else {
        Some(t)
    }
}

/// An answer with a default: the default when the trimmed answer is
/// blank, else the trimmed answer.
pub open spec fn or_default(s: Seq<char>, default: Seq<char>) -> Seq<char> {
    match optional(s) {
        Some(t) => t,
        None => default,
    }
}

/// Reads an answer with a default (see [`or_default`]).
pub fn text_or_default(s: &str, default: &str) -> (r: String)
    ensures
        r@ == or_default(s@, default@),
{
    match optional_text(s) {
        Some(t) => t,
        None => owned(default),
    }
}

/// The pieces of `s` split at commas so far, and the piece being read.
pub open spec fn split_state(s: Seq<char>) -> (Seq<Seq<char>>, Seq<char>)
    decreases s.len(),
{
    if s.len() == 0 {
        (Seq::empty(), Seq::empty())
    } else {
        let (done, cur) = split_state(s.drop_last());
        if s.last() == ',' {
            (done.push(cur), Seq::empty())
        } else {
            (done, cur.push(s.last()))
        }
    }
}

/// The pieces of `s` between commas (`str::split(',')`).
pub open spec fn comma_pieces(s: Seq<char>) -> Seq<Seq<char>> {
    split_state(s).0.push(split_state(s).1)
}

/// The trimmed pieces that are not blank, in order.
pub open spec fn kept_items(pieces: Seq<Seq<char>>) -> Seq<Seq<char>>
    decreases pieces.len(),
{
    if pieces.len() == 0 {
        Seq::empty()
    } else {
        let rest = kept_items(pieces.drop_last());
        if trimmed(pieces.last()).len() == 0 {
            rest
        } else {
            rest.push(trimmed(pieces.last()))
        }
    }
}

/// The items of a comma-separated answer: each piece trimmed, blank
/// pieces dropped.
pub open spec fn csv_items(s: Seq<char>) -> Seq<Seq<char>> {
    kept_items(comma_pieces(s))
}

fn keep_piece(out: &mut Vec<String>, piece: &Vec<char>)
    ensures
        final(out).deep_view() == if trimmed(piece@).len() == 0 {
            old(out).deep_view()
        } else {
            old(out).deep_view().push(trimmed(piece@))
        },
{
    let t = trim_chars(piece.as_slice());
    if t.len() > 0 {
        let ghost before = out.deep_view();
        out.push(string_of(t.as_slice()));
        assert(out.deep_view() =~= before.push(trimmed(piece@)));
    }
}

/// Reads a comma-separated answer (see [`csv_items`]).
pub fn split_csv(s: &str) -> (r: Vec<String>)
    ensures
        r.deep_view() == csv_items(s@),
{
    let cs = chars_of(s);
    let mut out: Vec<String> = Vec::new();
    let mut cur: Vec<char> = Vec::new();
    let mut i: usize = 0;
    while i < cs.len()
        invariant
            i <= cs@.len(),
            cs@ == s@,
            cur@ == split_state(cs@.take(i as int)).1,
            out.deep_view() == kept_items(split_state(cs@.take(i as int)).0),
        decreases cs@.len() - i,
    {
        assert(cs@.take(i as int + 1).drop_last() =~= cs@.take(i as int));
        let c = cs[i];
        if c == ',' {
            let ghost done = split_state(cs@.take(i as int)).0;
            keep_piece(&mut out, &cur);
            assert(done.push(cur@).drop_last() =~= done);
            cur = Vec::new();
            assert(cur@ =~= Seq::<char>::empty());
        } else {
            cur.push(c);
        }
        i = i + 1;
    }
    assert(cs@.take(cs@.len() as int) =~= cs@);
    let ghost done = split_state(cs@).0;
    keep_piece(&mut out, &cur);
    assert(done.push(cur@).drop_last() =~= done);
    out
}


proof fn lemma_trim_start_shape(s: Seq<char>)
    ensures
        trim_start(s).len() <= s.len(),
        trim_start(s) == s.skip(s.len() - trim_start(s).len()),
        trim_start(s).len() == 0 || !is_white_space(trim_start(s)[0]),
    decreases s.len(),
{
    if s.len() > 0 && is_white_space(s[0]) {
        lemma_trim_start_shape(s.skip(1));
        assert(s.skip(1).skip(s.skip(1).len() - trim_start(s.skip(1)).len()) =~= s.skip(
            s.len() - trim_start(s).len(),
        ));
    } else {
        assert(s.skip(0) =~= s);
    }
}

proof fn lemma_trim_end_shape(s: Seq<char>)
    ensures
        trim_end(s).len() <= s.len(),
        trim_end(s) == s.take(trim_end(s).len() as int),
        trim_end(s).len() == 0 || !is_white_space(trim_end(s).last()),
    decreases s.len(),
{
    if s.len() > 0 && is_white_space(s.last()) {
        lemma_trim_end_shape(s.drop_last());
        assert(s.drop_last().take(trim_end(s.drop_last()).len() as int) =~= s.take(
            trim_end(s).len() as int,
        ));
    } else {
        assert(s.take(s.len() as int) =~= s);
    }
}

/// Trimming twice is trimming once: a trimmed answer neither starts nor
/// ends with white space.
pub proof fn law_trim_idempotent(s: Seq<char>)
    ensures
        trimmed(trimmed(s)) == trimmed(s),
        trimmed(s).len() == 0 || (!is_white_space(trimmed(s)[0]) && !is_white_space(
            trimmed(s).last(),
        )),
{
    let u = trim_start(s);
    let t = trim_end(u);
    lemma_trim_start_shape(s);
    lemma_trim_end_shape(u);
    if t.len() > 0 {
        assert(t[0] == u[0]);
    }
    assert(trim_start(t) == t);
}

proof fn lemma_kept_items_clean(pieces: Seq<Seq<char>>)
    ensures
        forall|i: int|
            0 <= i < kept_items(pieces).len() ==> (#[trigger] kept_items(pieces)[i]).len() > 0
                && trimmed(kept_items(pieces)[i]) == kept_items(pieces)[i],
    decreases pieces.len(),
{
    if pieces.len() > 0 {
        lemma_kept_items_clean(pieces.drop_last());
        law_trim_idempotent(pieces.last());
        let rest = kept_items(pieces.drop_last());
        assert forall|i: int| 0 <= i < kept_items(pieces).len() implies (#[trigger] kept_items(
            pieces,
        )[i]).len() > 0 && trimmed(kept_items(pieces)[i]) == kept_items(pieces)[i] by {
            if i < rest.len() {
                assert(kept_items(pieces)[i] == rest[i]);
            }
        }
    }
}

/// The items read from a comma-separated answer are never blank and carry
/// no surrounding white space.
pub proof fn law_csv_items_clean(s: Seq<char>)
    ensures
        forall|i: int|
            0 <= i < csv_items(s).len() ==> (#[trigger] csv_items(s)[i]).len() > 0 && trimmed(
                csv_items(s)[i],
            ) == csv_items(s)[i],
{
    lemma_kept_items_clean(comma_pieces(s));
}

} // verus!
