//! Editing naming overrides from the wizard's answers. A rule list, and the
//! per-architecture and per-package lists of a rule, behave as maps: a key
//! is answered by its first entry.
use vstd::prelude::*;

use super::input::{optional, optional_text};
use crate::schema::targets::{
    clone_arch_pairs, clone_str_pairs, keys_distinct, lemma_lookup_push, lookup, overrides_wf,
    pairs_of, rule_wf, NameOverride, NameOverrideModel,
};
use crate::schema::types::Arch;
use crate::text::{owned, str_eq};

verus! {

/// `after` answers `key` with `value` (none for `None`) and every other
/// key as `before` does.
pub open spec fn map_updated<K, V>(before: Seq<(K, V)>, after: Seq<(K, V)>, key: K, value: Option<V>) -> bool {
    forall|q: K| #[trigger]
        lookup(after, q) == if q == key {
            value
        } else {
            lookup(before, q)
        }
}

/// An optional list stored back after an edit: absent when empty.
pub open spec fn stored_nonempty<K, V>(s: Option<Seq<(K, V)>>) -> bool {
    s matches Some(x) ==> x.len() > 0
}

/// Entries picked from a list without repeated keys, in increasing
/// positions, have no repeated keys either.
proof fn lemma_picked_distinct<K, V>(s: Seq<(K, V)>, out: Seq<(K, V)>, idx: Seq<int>)
    requires
        keys_distinct(s),
        idx.len() == out.len(),
        forall|k: int| 0 <= k < idx.len() ==> 0 <= #[trigger] idx[k] < s.len() && out[k] == s[idx[k]],
        forall|a: int, b: int| 0 <= a < b < idx.len() ==> idx[a] < idx[b],
    ensures
        keys_distinct(out),
{
    assert forall|a: int, b: int| 0 <= a < b < out.len() implies out[a].0 != out[b].0 by {
        assert(idx[a] < idx[b]);
        assert(out[a] == s[idx[a]]);
        assert(out[b] == s[idx[b]]);
    }
}

/// Appending an entry whose key is absent keeps the keys distinct.
proof fn lemma_push_absent<K, V>(s: Seq<(K, V)>, p: (K, V))
    requires
        keys_distinct(s),
        forall|k: int| 0 <= k < s.len() ==> #[trigger] s[k].0 != p.0,
    ensures
        keys_distinct(s.push(p)),
{
    let t = s.push(p);
    assert forall|a: int, b: int| 0 <= a < b < t.len() implies t[a].0 != t[b].0 by {
        assert(t[a] == s[a]);
        if b < s.len() {
            assert(t[b] == s[b]);
        }
    }
}

/// Removes every rule of artifact `key`. A list with one rule per artifact
/// keeps that property.
pub fn remove_override(ovs: &mut Vec<(String, NameOverride)>, key: &str)
    ensures
        map_updated(old(ovs).deep_view(), final(ovs).deep_view(), key@, None),
        forall|k: int| 0 <= k < final(ovs).deep_view().len() ==> #[trigger] final(ovs).deep_view()[k].0 != key@,
        keys_distinct(old(ovs).deep_view()) ==> keys_distinct(final(ovs).deep_view()),
        overrides_wf(old(ovs).deep_view()) ==> overrides_wf(final(ovs).deep_view()),
{
    let ghost s = ovs.deep_view();
    let mut out: Vec<(String, NameOverride)> = Vec::new();
    let ghost mut idx: Seq<int> = Seq::empty();
    let mut i: usize = 0;
    while i < ovs.len()
        invariant
            i <= ovs@.len(),
            s == ovs.deep_view(),
            map_updated(s.take(i as int), out.deep_view(), key@, None),
            idx.len() == out.deep_view().len(),
            forall|k: int|
                0 <= k < idx.len() ==> 0 <= #[trigger] idx[k] < i && out.deep_view()[k] == s[idx[k]],
            forall|a: int, b: int| 0 <= a < b < idx.len() ==> idx[a] < idx[b],
            forall|k: int| 0 <= k < out.deep_view().len() ==> #[trigger] out.deep_view()[k].0 != key@,
        decreases ovs@.len() - i,
    {
        let ghost before = out.deep_view();
        assert(s.take(i as int + 1) =~= s.take(i as int).push(s[i as int]));
        if !str_eq(ovs[i].0.as_str(), key) {
            out.push((ovs[i].0.clone(), ovs[i].1.duplicate()));
            assert(out.deep_view() =~= before.push(s[i as int]));
            proof {
                idx = idx.push(i as int);
            }
        }
        assert forall|q: Seq<char>| #[trigger]
            lookup(out.deep_view(), q) == if q == key@ {
                None
            } else {
                lookup(s.take(i as int + 1), q)
            } by {
            lemma_lookup_push(s.take(i as int), s[i as int], q);
            if s[i as int].0 != key@ {
                lemma_lookup_push(before, s[i as int], q);
            }
        }
        i = i + 1;
    }
    assert(s.take(s.len() as int) =~= s);
    proof {
        if keys_distinct(s) {
            lemma_picked_distinct(s, out.deep_view(), idx);
        }
        if overrides_wf(s) {
            assert forall|k: int| 0 <= k < out.deep_view().len() implies rule_wf(
                #[trigger] out.deep_view()[k].1,
            ) by {
                assert(out.deep_view()[k] == s[idx[k]]);
            }
        }
    }
    *ovs = out;
}

/// Sets the rule of artifact `key` (the editor's "Add Override" resets it
/// to an empty rule). A list with one rule per artifact keeps that
/// property.
pub fn put_override(ovs: &mut Vec<(String, NameOverride)>, key: &str, rule: NameOverride)
    ensures
        map_updated(old(ovs).deep_view(), final(ovs).deep_view(), key@, Some(rule@)),
        keys_distinct(old(ovs).deep_view()) ==> keys_distinct(final(ovs).deep_view()),
        overrides_wf(old(ovs).deep_view()) && rule_wf(rule@) ==> overrides_wf(final(ovs).deep_view()),
{
    let ghost s = ovs.deep_view();
    remove_override(ovs, key);
    let ghost removed = ovs.deep_view();
    let ghost r = rule@;
    ovs.push((owned(key), rule));
    assert(ovs.deep_view() =~= removed.push((key@, r)));
    assert(ovs.deep_view().last().0 == key@);
    proof {
        if keys_distinct(removed) {
            lemma_push_absent(removed, (key@, r));
        }
        if overrides_wf(removed) && rule_wf(r) {
            assert forall|k: int| 0 <= k < ovs.deep_view().len() implies rule_wf(
                #[trigger] ovs.deep_view()[k].1,
            ) by {
                if k < removed.len() {
                    assert(ovs.deep_view()[k] == removed[k]);
                }
            }
        }
    }
    assert forall|q: Seq<char>| #[trigger]
        lookup(ovs.deep_view(), q) == if q == key@ {
            Some(r)
        } else {
            lookup(s, q)
        } by {
        lemma_lookup_push(removed, (key@, r), q);
    }
}

fn remove_arch_name(v: &mut Vec<(Arch, String)>, arch: Arch)
    ensures
        map_updated(old(v).deep_view(), final(v).deep_view(), arch, None),
        forall|k: int| 0 <= k < final(v).deep_view().len() ==> #[trigger] final(v).deep_view()[k].0 != arch,
        keys_distinct(old(v).deep_view()) ==> keys_distinct(final(v).deep_view()),
{
    let ghost s = v.deep_view();
    let mut out: Vec<(Arch, String)> = Vec::new();
    let ghost mut idx: Seq<int> = Seq::empty();
    let mut i: usize = 0;
    while i < v.len()
        invariant
            i <= v@.len(),
            s == v.deep_view(),
            map_updated(s.take(i as int), out.deep_view(), arch, None),
            idx.len() == out.deep_view().len(),
            forall|k: int|
                0 <= k < idx.len() ==> 0 <= #[trigger] idx[k] < i && out.deep_view()[k] == s[idx[k]],
            forall|a: int, b: int| 0 <= a < b < idx.len() ==> idx[a] < idx[b],
            forall|k: int| 0 <= k < out.deep_view().len() ==> #[trigger] out.deep_view()[k].0 != arch,
        decreases v@.len() - i,
    {
        let ghost before = out.deep_view();
        assert(s.take(i as int + 1) =~= s.take(i as int).push(s[i as int]));
        if v[i].0 != arch {
            out.push((v[i].0, v[i].1.clone()));
            assert(out.deep_view() =~= before.push(s[i as int]));
            proof {
                idx = idx.push(i as int);
            }
        }
        assert forall|q: Arch| #[trigger]
            lookup(out.deep_view(), q) == if q == arch {
                None
            } else {
                lookup(s.take(i as int + 1), q)
            } by {
            lemma_lookup_push(s.take(i as int), s[i as int], q);
            if s[i as int].0 != arch {
                lemma_lookup_push(before, s[i as int], q);
            }
        }
        i = i + 1;
    }
    assert(s.take(s.len() as int) =~= s);
    proof {
        if keys_distinct(s) {
            lemma_picked_distinct(s, out.deep_view(), idx);
        }
    }
    *v = out;
}

fn remove_pkg_name(v: &mut Vec<(String, String)>, pkg: &str)
    ensures
        map_updated(old(v).deep_view(), final(v).deep_view(), pkg@, None),
        forall|k: int| 0 <= k < final(v).deep_view().len() ==> #[trigger] final(v).deep_view()[k].0 != pkg@,
        keys_distinct(old(v).deep_view()) ==> keys_distinct(final(v).deep_view()),
{
    let ghost s = v.deep_view();
    let mut out: Vec<(String, String)> = Vec::new();
    let ghost mut idx: Seq<int> = Seq::empty();
    let mut i: usize = 0;
    while i < v.len()
        invariant
            i <= v@.len(),
            s == v.deep_view(),
            map_updated(s.take(i as int), out.deep_view(), pkg@, None),
            idx.len() == out.deep_view().len(),
            forall|k: int|
                0 <= k < idx.len() ==> 0 <= #[trigger] idx[k] < i && out.deep_view()[k] == s[idx[k]],
            forall|a: int, b: int| 0 <= a < b < idx.len() ==> idx[a] < idx[b],
            forall|k: int| 0 <= k < out.deep_view().len() ==> #[trigger] out.deep_view()[k].0 != pkg@,
        decreases v@.len() - i,
    {
        let ghost before = out.deep_view();
        assert(s.take(i as int + 1) =~= s.take(i as int).push(s[i as int]));
        if !str_eq(v[i].0.as_str(), pkg) {
            out.push((v[i].0.clone(), v[i].1.clone()));
            assert(out.deep_view() =~= before.push(s[i as int]));
            proof {
                idx = idx.push(i as int);
            }
        }
        assert forall|q: Seq<char>| #[trigger]
            lookup(out.deep_view(), q) == if q == pkg@ {
                None
            } else {
                lookup(s.take(i as int + 1), q)
            } by {
            lemma_lookup_push(s.take(i as int), s[i as int], q);
            if s[i as int].0 != pkg@ {
                lemma_lookup_push(before, s[i as int], q);
            }
        }
        i = i + 1;
    }
    assert(s.take(s.len() as int) =~= s);
    proof {
        if keys_distinct(s) {
            lemma_picked_distinct(s, out.deep_view(), idx);
        }
    }
    *v = out;
}

/// Sets the base name of a rule: blank resets it to the artifact's name.
pub fn set_base_name(rule: &mut NameOverride, input: &str)
    ensures
        final(rule)@ == (NameOverrideModel { out_name: optional(input@), ..old(rule)@ }),
{
    rule.out_name = optional_text(input);
}

/// Sets the name of a rule for one architecture: blank removes it. An
/// empty list is stored as none.
pub fn set_arch_name(rule: &mut NameOverride, arch: Arch, input: &str)
    ensures
        final(rule)@.out_name == old(rule)@.out_name,
        final(rule)@.per_pkg == old(rule)@.per_pkg,
        map_updated(
            pairs_of(old(rule)@.per_arch),
            pairs_of(final(rule)@.per_arch),
            arch,
            optional(input@),
        ),
        stored_nonempty(final(rule)@.per_arch),
        rule_wf(old(rule)@) ==> rule_wf(final(rule)@),
{
    let mut map: Vec<(Arch, String)> = match &rule.per_arch {
        Some(m) => clone_arch_pairs(m),
        None => Vec::new(),
    };
    let ghost s = map.deep_view();
    assert(s == pairs_of(rule@.per_arch));
    remove_arch_name(&mut map, arch);
    let ghost removed = map.deep_view();
    match optional_text(input) {
        Some(n) => {
            let ghost nv = n@;
            map.push((arch, n));
            assert(map.deep_view() =~= removed.push((arch, nv)));
            proof {
                if keys_distinct(removed) {
                    lemma_push_absent(removed, (arch, nv));
                }
            }
            assert forall|q: Arch| #[trigger]
                lookup(map.deep_view(), q) == if q == arch {
                    Some(nv)
                } else {
                    lookup(s, q)
                } by {
                lemma_lookup_push(removed, (arch, nv), q);
            }
        },
        None => {},
    }
    if map.len() == 0 {
        assert(map.deep_view() =~= Seq::<(Arch, Seq<char>)>::empty());
        rule.per_arch = None;
    } else {
        rule.per_arch = Some(map);
    }
}

/// Sets the name of a rule for one package format: blank removes it. An
/// empty list is stored as none.
pub fn set_pkg_name(rule: &mut NameOverride, pkg: &str, input: &str)
    ensures
        final(rule)@.out_name == old(rule)@.out_name,
        final(rule)@.per_arch == old(rule)@.per_arch,
        map_updated(
            pairs_of(old(rule)@.per_pkg),
            pairs_of(final(rule)@.per_pkg),
            pkg@,
            optional(input@),
        ),
        stored_nonempty(final(rule)@.per_pkg),
        rule_wf(old(rule)@) ==> rule_wf(final(rule)@),
{
    let mut map: Vec<(String, String)> = match &rule.per_pkg {
        Some(m) => clone_str_pairs(m),
        None => Vec::new(),
    };
    let ghost s = map.deep_view();
    assert(s == pairs_of(rule@.per_pkg));
    remove_pkg_name(&mut map, pkg);
    let ghost removed = map.deep_view();
    match optional_text(input) {
        Some(n) => {
            let ghost nv = n@;
            map.push((owned(pkg), n));
            assert(map.deep_view() =~= removed.push((pkg@, nv)));
            proof {
                if keys_distinct(removed) {
                    lemma_push_absent(removed, (pkg@, nv));
                }
            }
            assert forall|q: Seq<char>| #[trigger]
                lookup(map.deep_view(), q) == if q == pkg@ {
                    Some(nv)
                } else {
                    lookup(s, q)
                } by {
                lemma_lookup_push(removed, (pkg@, nv), q);
            }
        },
        None => {},
    }
    if map.len() == 0 {
        assert(map.deep_view() =~= Seq::<(Seq<char>, Seq<char>)>::empty());
        rule.per_pkg = None;
    } else {
        rule.per_pkg = Some(map);
    }
}

/// The rules stored back on a matrix: none when the list is empty.
pub fn stored_overrides(ovs: Vec<(String, NameOverride)>) -> (r: Option<Vec<(String, NameOverride)>>)
    ensures
        ovs@.len() == 0 ==> r is None,
        ovs@.len() > 0 ==> r == Some(ovs),
{
    if ovs.len() == 0 {
        None
    } else {
        Some(ovs)
    }
}

} // verus!
