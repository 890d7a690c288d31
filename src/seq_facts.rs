//! Facts about sequences without repeated elements, used by the role registry
//! and the signature sets.
use vstd::prelude::*;

verus! {

/// In a sequence without repeats, removing the value at `i` is removing index `i`.
pub proof fn lemma_remove_value_at<A>(s: Seq<A>, i: int)
    requires
        s.no_duplicates(),
        0 <= i < s.len(),
    ensures
        s.remove_value(s[i]) == s.remove(i),
{
    s.index_of_first_ensures(s[i]);
}

/// Removing a value that is absent changes nothing.
pub proof fn lemma_remove_absent_value<A>(s: Seq<A>, a: A)
    requires
        !s.contains(a),
    ensures
        s.remove_value(a) == s,
{
    s.index_of_first_ensures(a);
}

/// Removing index `i` from a sequence without repeats keeps it without
/// repeats, and removes exactly the value that was there.
pub proof fn lemma_remove_index<A>(s: Seq<A>, i: int)
    requires
        s.no_duplicates(),
        0 <= i < s.len(),
    ensures
        s.remove(i).no_duplicates(),
        forall|x: A| #[trigger] s.remove(i).contains(x) <==> (s.contains(x) && x != s[i]),
{
    let r = s.remove(i);
    assert forall|x: A| #[trigger] r.contains(x) <==> (s.contains(x) && x != s[i]) by {
        if r.contains(x) {
            let k = choose|k: int| 0 <= k < r.len() && r[k] == x;
            if k < i {
                assert(s[k] == x);
            } else {
                assert(s[k + 1] == x);
            }
        }
        if s.contains(x) && x != s[i] {
            let k = choose|k: int| 0 <= k < s.len() && s[k] == x;
            if k < i {
                assert(r[k] == x);
            } else {
                assert(r[k - 1] == x);
            }
        }
    }
}

/// Appending an absent value keeps a sequence without repeats.
pub proof fn lemma_push_absent<A>(s: Seq<A>, a: A)
    requires
        s.no_duplicates(),
        !s.contains(a),
    ensures
        s.push(a).no_duplicates(),
        forall|x: A| #[trigger] s.push(a).contains(x) <==> (s.contains(x) || x == a),
{
    let p = s.push(a);
    assert forall|x: A| #[trigger] p.contains(x) <==> (s.contains(x) || x == a) by {
        if p.contains(x) {
            let k = choose|k: int| 0 <= k < p.len() && p[k] == x;
            if k < s.len() {
                assert(s[k] == x);
            }
        }
        if s.contains(x) {
            let k = choose|k: int| 0 <= k < s.len() && s[k] == x;
            assert(p[k] == x);
        }
        if x == a {
            assert(p[s.len() as int] == x);
        }
    }
}

} // verus!
