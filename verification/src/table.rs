//! Records kept in a sequence and found by a key: the map that such a sequence stands
//! for, and how pushing, replacing and removing a record change that map.
use vstd::prelude::*;

verus! {

/// A record that is found by a key.
pub trait Keyed: View + Sized {
    /// What the record is found by.
    type Key;

    /// The key of this record.
    spec fn key(&self) -> Self::Key;
}

/// No two records of the sequence have the same key.
pub open spec fn distinct_keys<T: Keyed>(s: Seq<T>) -> bool {
    forall|i: int, j: int| 0 <= i < j < s.len() ==> s[i].key() != s[j].key()
}

/// Some record of the sequence has the key `k`.
pub open spec fn has_key<T: Keyed>(s: Seq<T>, k: T::Key) -> bool {
    exists|i: int| 0 <= i < s.len() && #[trigger] s[i].key() == k
}

/// The map from keys to records that the sequence stands for.
pub open spec fn table<T: Keyed>(s: Seq<T>) -> Map<T::Key, T::V>
    decreases s.len(),
{
    if s.len() == 0 {
        Map::empty()
    } else {
        table(s.drop_last()).insert(s.last().key(), s.last()@)
    }
}

/// The map has finitely many keys, and they are the keys of the records.
pub proof fn lemma_table_dom<T: Keyed>(s: Seq<T>)
    ensures
        table(s).dom().finite(),
        forall|k: T::Key| #[trigger] table(s).contains_key(k) <==> has_key(s, k),
        forall|i: int| 0 <= i < s.len() ==> table(s).contains_key(#[trigger] s[i].key()),
    decreases s.len(),
{
    if s.len() > 0 {
        let t = s.drop_last();
        lemma_table_dom(t);
        assert forall|k: T::Key| #[trigger] table(s).contains_key(k) <==> has_key(s, k) by {
            if table(s).contains_key(k) {
                if k == s.last().key() {
                    assert(s[s.len() - 1].key() == k);
                } else {
                    assert(table(t).contains_key(k));
                    assert(has_key(t, k));
                    let i = choose|i: int| 0 <= i < t.len() && #[trigger] t[i].key() == k;
                    assert(0 <= i < t.len() && t[i].key() == k);
                    assert(s[i] == t[i]);
                    assert(s[i].key() == k);
                }
                assert(has_key(s, k));
            }
            if has_key(s, k) {
                let i = choose|i: int| 0 <= i < s.len() && #[trigger] s[i].key() == k;
                assert(0 <= i < s.len() && s[i].key() == k);
                if i < s.len() - 1 {
                    assert(s[i] == t[i]);
                    assert(t[i].key() == k);
                    assert(has_key(t, k));
                } else {
                    assert(k == s.last().key());
                }
                assert(table(s).contains_key(k));
            }
        }
    }
}

/// With distinct keys, the map sends the key of each record to that record.
pub proof fn lemma_table_at<T: Keyed>(s: Seq<T>, i: int)
    requires
        distinct_keys(s),
        0 <= i < s.len(),
    ensures
        table(s).contains_key(s[i].key()),
        table(s)[s[i].key()] == s[i]@,
    decreases s.len(),
{
    let t = s.drop_last();
    if i < s.len() - 1 {
        assert(distinct_keys(t)) by {
            assert forall|a: int, b: int| 0 <= a < b < t.len() implies t[a].key() != t[b].key() by {
                assert(s[a].key() != s[b].key());
            }
        }
        lemma_table_at(t, i);
        assert(t[i] == s[i]);
        assert(s[i].key() != s[s.len() - 1].key());
    }
}

/// Pushing a record inserts it under its key.
pub proof fn lemma_table_push<T: Keyed>(s: Seq<T>, x: T)
    ensures
        table(s.push(x)) == table(s).insert(x.key(), x@),
        distinct_keys(s) && !has_key(s, x.key()) ==> distinct_keys(s.push(x)),
{
    assert(s.push(x).drop_last() =~= s);
    if distinct_keys(s) && !has_key(s, x.key()) {
        let u = s.push(x);
        assert forall|a: int, b: int| 0 <= a < b < u.len() implies u[a].key() != u[b].key() by {
            if b < s.len() {
                assert(s[a].key() != s[b].key());
            } else {
                if s[a].key() == x.key() {
                    assert(has_key(s, x.key()));
                }
            }
        }
    }
}

/// Replacing a record by one with the same key replaces it in the map.
pub proof fn lemma_table_update<T: Keyed>(s: Seq<T>, i: int, x: T)
    requires
        distinct_keys(s),
        0 <= i < s.len(),
        x.key() == s[i].key(),
    ensures
        distinct_keys(s.update(i, x)),
        table(s.update(i, x)) == table(s).insert(x.key(), x@),
    decreases s.len(),
{
    let u = s.update(i, x);
    let t = s.drop_last();
    assert forall|a: int, b: int| 0 <= a < b < u.len() implies u[a].key() != u[b].key() by {
        assert(s[a].key() != s[b].key());
    }
    if i == s.len() - 1 {
        assert(u.drop_last() =~= t);
        assert(table(u) =~= table(s).insert(x.key(), x@));
    } else {
        assert(distinct_keys(t)) by {
            assert forall|a: int, b: int| 0 <= a < b < t.len() implies t[a].key() != t[b].key() by {
                assert(s[a].key() != s[b].key());
            }
        }
        assert(t[i] == s[i]);
        lemma_table_update(t, i, x);
        assert(u.drop_last() =~= t.update(i, x));
        assert(u.last() == s.last());
        assert(s[i].key() != s[s.len() - 1].key());
        assert(table(u) =~= table(s).insert(x.key(), x@));
    }
}

/// Removing a record removes its key from the map.
pub proof fn lemma_table_remove<T: Keyed>(s: Seq<T>, i: int)
    requires
        distinct_keys(s),
        0 <= i < s.len(),
    ensures
        distinct_keys(s.remove(i)),
        table(s.remove(i)) == table(s).remove(s[i].key()),
    decreases s.len(),
{
    let r = s.remove(i);
    let t = s.drop_last();
    assert forall|a: int, b: int| 0 <= a < b < r.len() implies r[a].key() != r[b].key() by {
        let a0 = if a < i { a } else { a + 1 };
        let b0 = if b < i { b } else { b + 1 };
        assert(r[a] == s[a0] && r[b] == s[b0]);
        assert(s[a0].key() != s[b0].key());
    }
    assert(distinct_keys(t)) by {
        assert forall|a: int, b: int| 0 <= a < b < t.len() implies t[a].key() != t[b].key() by {
            assert(s[a].key() != s[b].key());
        }
    }
    if i == s.len() - 1 {
        assert(r =~= t);
        lemma_table_dom(t);
        if has_key(t, s[i].key()) {
            let j = choose|j: int| 0 <= j < t.len() && #[trigger] t[j].key() == s[i].key();
            assert(s[j].key() != s[i].key());
        }
        assert(table(r) =~= table(s).remove(s[i].key()));
    } else {
        assert(t[i] == s[i]);
        lemma_table_remove(t, i);
        assert(r.drop_last() =~= t.remove(i));
        assert(r.last() == s.last());
        assert(s[i].key() != s[s.len() - 1].key());
        assert(table(r) =~= table(s).remove(s[i].key()));
    }
}

} // verus!
