//! Reasoning helpers for tables modelled as sequences of rows with a
//! string key under a unique index: insert-if-absent semantics and row
//! counts.

use vstd::prelude::*;

verus! {

/// No two rows carry the same key.
pub open spec fn keys_unique<T>(s: Seq<T>, key: spec_fn(T) -> Seq<char>) -> bool {
    forall|i: int, j: int| 0 <= i < j < s.len() ==> key(#[trigger] s[i]) != key(#[trigger] s[j])
}

/// Some row carries key `k`.
pub open spec fn has_key<T>(s: Seq<T>, key: spec_fn(T) -> Seq<char>, k: Seq<char>) -> bool {
    exists|i: int| 0 <= i < s.len() && key(#[trigger] s[i]) == k
}

/// How many rows carry key `k`.
pub open spec fn count_key<T>(s: Seq<T>, key: spec_fn(T) -> Seq<char>, k: Seq<char>) -> int
    decreases s.len(),
{
    if s.len() == 0 {
        0
    } else {
        count_key(s.drop_last(), key, k) + if key(s.last()) == k {
            1int
        } else {
            0int
        }
    }
}

/// What inserting under a unique index does: a row whose key is present
/// changes nothing, any other row is appended.
pub open spec fn keyed_insert_step<T>(
    pre: Seq<T>,
    post: Seq<T>,
    x: T,
    key: spec_fn(T) -> Seq<char>,
) -> bool {
    if has_key(pre, key, key(x)) {
        post == pre
    } else {
        post == pre.push(x)
    }
}

/// Appending a fresh key keeps keys unique and extends exactly the keys by
/// it.
pub proof fn lemma_key_push<T>(s: Seq<T>, x: T, key: spec_fn(T) -> Seq<char>)
    requires
        keys_unique(s, key),
        !has_key(s, key, key(x)),
    ensures
        keys_unique(s.push(x), key),
        forall|k: Seq<char>| has_key(s.push(x), key, k) <==> has_key(s, key, k) || k == key(x),
{
    let r = s.push(x);
    assert forall|i: int, j: int| 0 <= i < j < r.len() implies key(#[trigger] r[i]) != key(
        #[trigger] r[j],
    ) by {
        if j == s.len() {
            assert(r[i] == s[i]);
            assert(has_key(s, key, key(s[i])));
        }
    }
    assert forall|k: Seq<char>|
        has_key(r, key, k) <==> has_key(s, key, k) || k == key(x) by {
        if has_key(r, key, k) {
            let i = choose|i: int| 0 <= i < r.len() && key(#[trigger] r[i]) == k;
            if i < s.len() {
                assert(key(s[i]) == k);
            }
        }
        if has_key(s, key, k) {
            let i = choose|i: int| 0 <= i < s.len() && key(#[trigger] s[i]) == k;
            assert(key(r[i]) == k);
        }
        if k == key(x) {
            assert(key(r[s.len() as int]) == k);
        }
    }
}

/// Under unique keys, a present key counts exactly one row.
pub proof fn lemma_count_key_one<T>(s: Seq<T>, key: spec_fn(T) -> Seq<char>, k: Seq<char>)
    requires
        keys_unique(s, key),
        has_key(s, key, k),
    ensures
        count_key(s, key, k) == 1,
    decreases s.len(),
{
    let head = s.drop_last();
    if key(s.last()) == k {
        assert(!has_key(head, key, k)) by {
            if has_key(head, key, k) {
                let i = choose|i: int| 0 <= i < head.len() && key(#[trigger] head[i]) == k;
                assert(key(s[i]) == k && key(s[s.len() - 1]) == k);
            }
        }
        lemma_count_key_absent(head, key, k);
    } else {
        assert(keys_unique(head, key)) by {
            assert(forall|i: int| 0 <= i < head.len() ==> head[i] == s[i]);
        }
        assert(has_key(head, key, k)) by {
            let i = choose|i: int| 0 <= i < s.len() && key(#[trigger] s[i]) == k;
            assert(i < head.len() && key(head[i]) == k);
        }
        lemma_count_key_one(head, key, k);
    }
}

/// An absent key counts no rows.
pub proof fn lemma_count_key_absent<T>(s: Seq<T>, key: spec_fn(T) -> Seq<char>, k: Seq<char>)
    requires
        !has_key(s, key, k),
    ensures
        count_key(s, key, k) == 0,
    decreases s.len(),
{
    if s.len() > 0 {
        let head = s.drop_last();
        assert(!has_key(head, key, k)) by {
            if has_key(head, key, k) {
                let i = choose|i: int| 0 <= i < head.len() && key(#[trigger] head[i]) == k;
                assert(key(s[i]) == k);
            }
        }
        lemma_count_key_absent(head, key, k);
        assert(key(s.last()) != k) by {
            if key(s.last()) == k {
                assert(key(s[s.len() - 1]) == k);
            }
        }
    }
}

} // verus!
