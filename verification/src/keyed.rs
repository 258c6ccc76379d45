//! Sorted, uniquely-keyed record vectors, viewed as maps from key strings to
//! record views, plus lexicographic ordering of ASCII strings.

use vstd::prelude::*;
use vstd::string::*;
use vstd::utf8::is_ascii_chars;
use vstd::multiset::Multiset;

verus! {

/// Strict lexicographic order on character sequences.
pub open spec fn lex_lt(a: Seq<char>, b: Seq<char>) -> bool
    decreases a.len(),
{
    if b.len() == 0 {
        false
    } else if a.len() == 0 {
        true
    } else if a[0] != b[0] {
        a[0] < b[0]
    } else {
        lex_lt(a.drop_first(), b.drop_first())
    }
}

pub proof fn lemma_lex_trichotomy(a: Seq<char>, b: Seq<char>)
    ensures
        lex_lt(a, b) || lex_lt(b, a) || a =~= b,
        lex_lt(a, b) ==> !lex_lt(b, a),
        lex_lt(a, b) ==> !(a =~= b),
    decreases a.len(),
{
    if a.len() > 0 && b.len() > 0 && a[0] == b[0] {
        lemma_lex_trichotomy(a.drop_first(), b.drop_first());
        if a.drop_first() =~= b.drop_first() {
            assert forall|i: int| 0 <= i < a.len() implies a[i] == b[i] by {
                if i > 0 {
                    assert(a.drop_first()[i - 1] == b.drop_first()[i - 1]);
                }
            }
            assert(a =~= b);
        }
        if a =~= b {
            assert(a.drop_first() =~= b.drop_first());
        }
    }
}

pub proof fn lemma_lex_trans(a: Seq<char>, b: Seq<char>, c: Seq<char>)
    requires
        lex_lt(a, b),
        lex_lt(b, c),
    ensures
        lex_lt(a, c),
    decreases a.len(),
{
    if a.len() > 0 && b.len() > 0 && c.len() > 0 {
        if a[0] == b[0] && b[0] == c[0] {
            lemma_lex_trans(a.drop_first(), b.drop_first(), c.drop_first());
        }
    }
}

/// Compares two ASCII strings in lexicographic order.
pub fn str_lt(a: &str, b: &str) -> (r: bool)
    requires
        a.is_ascii(),
        b.is_ascii(),
    ensures
        r == lex_lt(a@, b@),
{
    let an = a.unicode_len();
    let bn = b.unicode_len();
    let mut i: usize = 0;
    proof {
        assert(a@.skip(0) =~= a@);
        assert(b@.skip(0) =~= b@);
    }
    while i < an && i < bn
        invariant
            a.is_ascii(),
            b.is_ascii(),
            an == a@.len(),
            bn == b@.len(),
            0 <= i <= an,
            i <= bn,
            lex_lt(a@, b@) == lex_lt(a@.skip(i as int), b@.skip(i as int)),
        decreases an - i,
    {
        let ca = a.get_ascii(i);
        let cb = b.get_ascii(i);
        proof {
            let x = a@[i as int];
            let y = b@[i as int];
            assert('\0' <= x <= '\u{7f}');
            assert('\0' <= y <= '\u{7f}');
            assert((ca == cb) == (x == y));
            assert((ca < cb) == (x < y));
            assert(a@.skip(i as int)[0] == x);
            assert(b@.skip(i as int)[0] == y);
        }
        if ca != cb {
            return ca < cb;
        }
        proof {
            assert(a@.skip(i as int).drop_first() =~= a@.skip(i as int + 1));
            assert(b@.skip(i as int).drop_first() =~= b@.skip(i as int + 1));
        }
        i = i + 1;
    }
    proof {
        if i == an && i < bn {
            assert(lex_lt(a@.skip(i as int), b@.skip(i as int)));
        } else if i == bn {
            assert(!lex_lt(a@.skip(i as int), b@.skip(i as int)));
        }
    }
    an < bn
}

/// The character-sequence views of a vector of strings.
pub open spec fn views_of(s: Seq<String>) -> Seq<Seq<char>> {
    s.map_values(|x: String| x@)
}

/// Weakly sorted in lexicographic order (duplicates allowed).
pub open spec fn sorted_dup(s: Seq<Seq<char>>) -> bool {
    forall|i: int, j: int| 0 <= i < j < s.len() ==> !lex_lt(#[trigger] s[j], #[trigger] s[i])
}

/// Sorts a vector of ASCII strings in lexicographic order.
pub fn sort_strings(v: Vec<String>) -> (r: Vec<String>)
    requires
        forall|i: int| 0 <= i < v@.len() ==> (#[trigger] v@[i]).is_ascii(),
    ensures
        sorted_dup(views_of(r@)),
        views_of(r@).to_multiset() == views_of(v@).to_multiset(),
        forall|i: int| 0 <= i < r@.len() ==> (#[trigger] r@[i]).is_ascii(),
        r@.len() == v@.len(),
{
    broadcast use vstd::seq_lib::group_to_multiset_ensures;

    let ghost orig = v@;
    let mut src = v;
    let mut out: Vec<String> = Vec::new();
    proof {
        assert(views_of(out@).to_multiset().add(views_of(src@).to_multiset()) =~= views_of(
            orig,
        ).to_multiset()) by {
            assert(views_of(out@) =~= Seq::<Seq<char>>::empty());
        }
    }
    while src.len() > 0
        invariant
            forall|i: int| 0 <= i < src@.len() ==> (#[trigger] src@[i]).is_ascii(),
            forall|i: int| 0 <= i < out@.len() ==> (#[trigger] out@[i]).is_ascii(),
            out@.len() + src@.len() == orig.len(),
            views_of(out@).to_multiset().add(views_of(src@).to_multiset()) == views_of(
                orig,
            ).to_multiset(),
            sorted_dup(views_of(out@)),
            forall|i: int, j: int|
                0 <= i < out@.len() && 0 <= j < src@.len() ==> !lex_lt(
                    #[trigger] views_of(src@)[j],
                    #[trigger] views_of(out@)[i],
                ),
        decreases src@.len(),
    {
        let mut mi: usize = 0;
        let mut k: usize = 1;
        proof {
            lemma_lex_trichotomy(src@[0]@, src@[0]@);
        }
        while k < src.len()
            invariant
                forall|i: int| 0 <= i < src@.len() ==> (#[trigger] src@[i]).is_ascii(),
                src@.len() > 0,
                0 <= mi < src@.len(),
                mi < k,
                1 <= k <= src@.len(),
                forall|t: int| 0 <= t < k ==> !lex_lt(#[trigger] src@[t]@, src@[mi as int]@),
            decreases src@.len() - k,
        {
            if str_lt(src[k].as_str(), src[mi].as_str()) {
                proof {
                    assert forall|t: int| 0 <= t < k + 1 implies !lex_lt(
                        #[trigger] src@[t]@,
                        src@[k as int]@,
                    ) by {
                        if t < k {
                            if lex_lt(src@[t]@, src@[k as int]@) {
                                lemma_lex_trans(src@[t]@, src@[k as int]@, src@[mi as int]@);
                            }
                        } else {
                            lemma_lex_trichotomy(src@[k as int]@, src@[k as int]@);
                        }
                    }
                }
                mi = k;
            }
            k = k + 1;
        }
        let ghost oldsrc = src@;
        let ghost oldout = out@;
        let m = src.remove(mi);
        out.push(m);
        proof {
            assert(views_of(oldsrc.remove(mi as int)) =~= views_of(oldsrc).remove(mi as int));
            assert(views_of(oldout.push(m)) =~= views_of(oldout).push(m@));
            assert(views_of(src@) =~= views_of(oldsrc).remove(mi as int));
            assert(views_of(out@) =~= views_of(oldout).push(m@));
            assert(m@ == views_of(oldsrc)[mi as int]);
            views_of(oldout).to_multiset_ensures();
            views_of(oldsrc).to_multiset_ensures();
            assert(views_of(oldout).push(m@).to_multiset() =~= views_of(oldout).to_multiset().insert(
                m@,
            ));
            assert(views_of(oldsrc).remove(mi as int).to_multiset() =~= views_of(
                oldsrc,
            ).to_multiset().remove(views_of(oldsrc)[mi as int]));
            assert(views_of(out@).to_multiset() =~= views_of(oldout).to_multiset().insert(m@));
            assert(views_of(src@).to_multiset() =~= views_of(oldsrc).to_multiset().remove(m@));
            assert(views_of(oldsrc).to_multiset().count(m@) >= 1) by {
                assert(views_of(oldsrc)[mi as int] == m@);
                assert(views_of(oldsrc).contains(m@));
            }
            assert(views_of(out@).to_multiset().add(views_of(src@).to_multiset()) =~= views_of(
                orig,
            ).to_multiset());
            assert forall|i: int, j: int|
                0 <= i < j < views_of(out@).len() implies !lex_lt(
                #[trigger] views_of(out@)[j],
                #[trigger] views_of(out@)[i],
            ) by {
                if j == out@.len() - 1 {
                    assert(views_of(out@)[j] == m@);
                    if i < oldout.len() {
                        assert(!lex_lt(views_of(oldsrc)[mi as int], views_of(oldout)[i]));
                    }
                } else {
                    assert(views_of(out@)[i] == views_of(oldout)[i]);
                    assert(views_of(out@)[j] == views_of(oldout)[j]);
                }
            }
            assert forall|i: int, j: int|
                0 <= i < out@.len() && 0 <= j < src@.len() implies !lex_lt(
                #[trigger] views_of(src@)[j],
                #[trigger] views_of(out@)[i],
            ) by {
                let ghost jj = if j < mi {
                    j
                } else {
                    j + 1
                };
                assert(views_of(src@)[j] == views_of(oldsrc)[jj]);
                if i < oldout.len() {
                    assert(!lex_lt(views_of(oldsrc)[jj], views_of(oldout)[i]));
                } else {
                    assert(views_of(out@)[i] == m@);
                    assert(!lex_lt(views_of(oldsrc)[jj], views_of(oldsrc)[mi as int]));
                }
            }
        }
    }
    proof {
        assert(views_of(src@).to_multiset() =~= Multiset::<Seq<char>>::empty()) by {
            assert(views_of(src@) =~= Seq::<Seq<char>>::empty());
        }
        assert(views_of(out@).to_multiset() =~= views_of(orig).to_multiset());
    }
    out
}

/// A record stored under its string key.
pub struct Entry<T> {
    pub key: String,
    pub val: T,
}

pub open spec fn sorted_unique<T: View>(s: Seq<Entry<T>>) -> bool {
    forall|i: int, j: int|
        0 <= i < j < s.len() ==> lex_lt(#[trigger] s[i].key@, #[trigger] s[j].key@)
}

pub open spec fn keys_ascii<T: View>(s: Seq<Entry<T>>) -> bool {
    forall|i: int| 0 <= i < s.len() ==> is_ascii_chars(#[trigger] s[i].key@)
}

/// The map from key views to record views held by an entry sequence; a later
/// entry overrides an earlier one with the same key.
pub open spec fn entry_map<T: View>(s: Seq<Entry<T>>) -> Map<Seq<char>, T::V>
    decreases s.len(),
{
    if s.len() == 0 {
        Map::empty()
    } else {
        entry_map(s.drop_last()).insert(s.last().key@, s.last().val@)
    }
}

pub proof fn lemma_entry_map_contains<T: View>(s: Seq<Entry<T>>, k: Seq<char>)
    ensures
        entry_map(s).contains_key(k) <==> exists|i: int|
            0 <= i < s.len() && #[trigger] s[i].key@ == k,
    decreases s.len(),
{
    if s.len() > 0 {
        lemma_entry_map_contains(s.drop_last(), k);
        if entry_map(s).contains_key(k) {
            if s.last().key@ == k {
                assert(s[s.len() - 1].key@ == k);
            } else {
                let i = choose|i: int| 0 <= i < s.drop_last().len() && #[trigger] s.drop_last()[i].key@ == k;
                assert(s[i].key@ == k);
            }
        }
        if exists|i: int| 0 <= i < s.len() && #[trigger] s[i].key@ == k {
            let i = choose|i: int| 0 <= i < s.len() && #[trigger] s[i].key@ == k;
            if i < s.len() - 1 {
                assert(s.drop_last()[i].key@ == k);
            }
        }
    }
}

pub proof fn lemma_entry_map_index<T: View>(s: Seq<Entry<T>>, i: int)
    requires
        0 <= i < s.len(),
        forall|j: int| i < j < s.len() ==> (#[trigger] s[j].key@) != s[i].key@,
    ensures
        entry_map(s).contains_key(s[i].key@),
        entry_map(s)[s[i].key@] == s[i].val@,
    decreases s.len(),
{
    if i < s.len() - 1 {
        assert(forall|j: int|
            i < j < s.drop_last().len() ==> (#[trigger] s.drop_last()[j].key@) != s.drop_last()[i].key@);
        lemma_entry_map_index(s.drop_last(), i);
        assert(s[s.len() - 1].key@ != s[i].key@);
    }
}

pub proof fn lemma_entry_map_insert_at<T: View>(s: Seq<Entry<T>>, idx: int, e: Entry<T>)
    requires
        0 <= idx <= s.len(),
        forall|i: int| 0 <= i < s.len() ==> (#[trigger] s[i].key@) != e.key@,
    ensures
        entry_map(s.insert(idx, e)) =~= entry_map(s).insert(e.key@, e.val@),
    decreases s.len(),
{
    let t = s.insert(idx, e);
    if idx == s.len() {
        assert(t.drop_last() =~= s);
        assert(t.last() == e);
    } else {
        assert(t.drop_last() =~= s.drop_last().insert(idx, e));
        assert(t.last() == s.last());
        assert(forall|i: int|
            0 <= i < s.drop_last().len() ==> (#[trigger] s.drop_last()[i].key@) != e.key@);
        lemma_entry_map_insert_at(s.drop_last(), idx, e);
        assert(s[s.len() - 1].key@ != e.key@);
        assert(entry_map(t) =~= entry_map(s.drop_last()).insert(e.key@, e.val@).insert(
            s.last().key@,
            s.last().val@,
        ));
        assert(entry_map(s.drop_last()).insert(e.key@, e.val@).insert(s.last().key@, s.last().val@)
            =~= entry_map(s.drop_last()).insert(s.last().key@, s.last().val@).insert(
            e.key@,
            e.val@,
        ));
    }
}

pub proof fn lemma_entry_map_update_at<T: View>(s: Seq<Entry<T>>, idx: int, e: Entry<T>)
    requires
        0 <= idx < s.len(),
        s[idx].key@ == e.key@,
        forall|i: int| 0 <= i < s.len() && i != idx ==> (#[trigger] s[i].key@) != e.key@,
    ensures
        entry_map(s.update(idx, e)) =~= entry_map(s).insert(e.key@, e.val@),
    decreases s.len(),
{
    let t = s.update(idx, e);
    if idx == s.len() - 1 {
        assert(t.drop_last() =~= s.drop_last());
        assert(t.last() == e);
    } else {
        assert(t.drop_last() =~= s.drop_last().update(idx, e));
        assert(t.last() == s.last());
        assert(forall|i: int|
            0 <= i < s.drop_last().len() && i != idx ==> (#[trigger] s.drop_last()[i].key@)
                != e.key@);
        assert(s.drop_last()[idx].key@ == e.key@);
        lemma_entry_map_update_at(s.drop_last(), idx, e);
        assert(s[s.len() - 1].key@ != e.key@);
        assert(entry_map(t) =~= entry_map(s.drop_last()).insert(e.key@, e.val@).insert(
            s.last().key@,
            s.last().val@,
        ));
        assert(entry_map(s.drop_last()).insert(e.key@, e.val@).insert(s.last().key@, s.last().val@)
            =~= entry_map(s.drop_last()).insert(s.last().key@, s.last().val@).insert(
            e.key@,
            e.val@,
        ));
    }
}

/// In a sorted vector each entry is the map's record for its key.
pub proof fn lemma_entry_at_sorted<T: View>(s: Seq<Entry<T>>, i: int)
    requires
        sorted_unique(s),
        0 <= i < s.len(),
    ensures
        entry_map(s).contains_key(s[i].key@),
        entry_map(s)[s[i].key@] == s[i].val@,
{
    assert forall|j: int| i < j < s.len() implies (#[trigger] s[j].key@) != s[i].key@ by {
        lemma_lex_trichotomy(s[i].key@, s[j].key@);
    }
    lemma_entry_map_index(s, i);
}

/// Whether a record is stored under `name`.
pub fn map_contains_key<T: View>(v: &Vec<Entry<T>>, name: &String) -> (r: bool)
    ensures
        r == entry_map(v@).contains_key(name@),
{
    let mut i: usize = 0;
    while i < v.len()
        invariant
            0 <= i <= v@.len(),
            forall|k: int| 0 <= k < i ==> (#[trigger] v@[k].key@) != name@,
        decreases v@.len() - i,
    {
        if v[i].key == *name {
            proof {
                lemma_entry_map_contains(v@, name@);
                assert(v@[i as int].key@ == name@);
            }
            return true;
        }
        i = i + 1;
    }
    proof {
        lemma_entry_map_contains(v@, name@);
    }
    false
}

/// Inserts `val` under `key`, keeping the vector sorted by key; an existing
/// record under the same key is replaced.
pub fn upsert<T: View>(v: &mut Vec<Entry<T>>, key: String, val: T)
    requires
        sorted_unique(old(v)@),
        keys_ascii(old(v)@),
        key.is_ascii(),
    ensures
        sorted_unique(final(v)@),
        keys_ascii(final(v)@),
        entry_map(final(v)@) =~= entry_map(old(v)@).insert(key@, val@),
        final(v)@.len() <= old(v)@.len() + 1,
{
    let mut idx: usize = 0;
    while idx < v.len() && str_lt(v[idx].key.as_str(), key.as_str())
        invariant
            sorted_unique(v@),
            keys_ascii(v@),
            key.is_ascii(),
            v@ == old(v)@,
            0 <= idx <= v@.len(),
            forall|k: int| 0 <= k < idx ==> lex_lt(#[trigger] v@[k].key@, key@),
        decreases v@.len() - idx,
    {
        idx = idx + 1;
    }
    if idx < v.len() && v[idx].key == key {
        proof {
            assert forall|i: int|
                0 <= i < v@.len() && i != idx implies (#[trigger] v@[i].key@)
                != v@[idx as int].key@ by {
                if i < idx {
                    lemma_lex_trichotomy(v@[i].key@, v@[idx as int].key@);
                } else {
                    lemma_lex_trichotomy(v@[idx as int].key@, v@[i].key@);
                }
            }
        }
        let ghost oldv = v@;
        proof {
            lemma_entry_map_update_at(oldv, idx as int, Entry { key, val });
        }
        v.set(idx, Entry { key, val });
        proof {
            assert(v@ =~= oldv.update(idx as int, Entry { key, val }));
            assert forall|i: int, j: int| 0 <= i < j < v@.len() implies lex_lt(
                #[trigger] v@[i].key@,
                #[trigger] v@[j].key@,
            ) by {
                assert(lex_lt(oldv[i].key@, oldv[j].key@));
            }
        }
    } else {
        proof {
            assert(idx < v@.len() ==> !lex_lt(v@[idx as int].key@, key@));
            assert(idx < v@.len() ==> v@[idx as int].key@ != key@);
            assert forall|i: int| 0 <= i < v@.len() implies (#[trigger] v@[i].key@) != key@ by {
                if i < idx {
                    lemma_lex_trichotomy(v@[i].key@, key@);
                } else {
                    assert(!lex_lt(v@[idx as int].key@, key@));
                    lemma_lex_trichotomy(v@[idx as int].key@, key@);
                    if i > idx {
                        if lex_lt(v@[i].key@, key@) {
                            lemma_lex_trans(v@[idx as int].key@, v@[i].key@, key@);
                        }
                        lemma_lex_trichotomy(v@[i].key@, key@);
                    }
                }
            }
            lemma_entry_map_insert_at(v@, idx as int, Entry { key, val });
        }
        let ghost oldv = v@;
        proof {
            assert(forall|i: int| 0 <= i < oldv.len() ==> (#[trigger] oldv[i].key@) != key@);
            assert(forall|k: int| 0 <= k < idx ==> lex_lt(#[trigger] oldv[k].key@, key@));
            assert(idx < oldv.len() ==> !lex_lt(oldv[idx as int].key@, key@));
        }
        v.insert(idx, Entry { key, val });
        proof {
            assert(v@ =~= oldv.insert(idx as int, Entry { key, val }));
            assert forall|i: int, j: int| 0 <= i < j < v@.len() implies lex_lt(
                #[trigger] v@[i].key@,
                #[trigger] v@[j].key@,
            ) by {
                if j < idx {
                    assert(v@[i] == oldv[i]);
                    assert(v@[j] == oldv[j]);
                } else if j == idx {
                    assert(v@[i] == oldv[i]);
                    assert(lex_lt(oldv[i].key@, key@));
                } else {
                    assert(v@[j] == oldv[j - 1]);
                    assert(idx <= j - 1 < oldv.len());
                    lemma_lex_trichotomy(oldv[idx as int].key@, key@);
                    assert(lex_lt(key@, oldv[idx as int].key@));
                    if i == idx {
                        if j - 1 > idx {
                            lemma_lex_trans(key@, oldv[idx as int].key@, oldv[j - 1].key@);
                        }
                    } else if i < idx {
                        assert(v@[i] == oldv[i]);
                        assert(lex_lt(oldv[i].key@, key@));
                        if j - 1 > idx {
                            lemma_lex_trans(key@, oldv[idx as int].key@, oldv[j - 1].key@);
                        }
                        lemma_lex_trans(oldv[i].key@, key@, v@[j].key@);
                    } else {
                        assert(v@[i] == oldv[i - 1]);
                    }
                }
            }
        }
    }
}

} // verus!
