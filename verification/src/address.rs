//! Addresses and the address lists that the contracts keep.
//!
//! An address is carried as its string encoding; two addresses are the same
//! exactly when their encodings are equal.

use vstd::prelude::*;

verus! {

/// The string encoding of an account or contract address.
pub type Address = String;

/// Returns whether `a` occurs in `list`.
pub fn contains_address(list: &Vec<Address>, a: &Address) -> (r: bool)
    ensures
        r == list.deep_view().contains(a@),
{
    let mut i: usize = 0;
    while i < list.len()
        invariant
            i <= list.len(),
            forall|j: int| 0 <= j < i ==> list.deep_view()[j] != a@,
        decreases list.len() - i,
    {
        if list[i] == *a {
            assert(list.deep_view()[i as int] == a@);
            return true;
        }
        i = i + 1;
    }
    proof {
        assert forall|j: int| 0 <= j < list.deep_view().len() implies list.deep_view()[j] != a@ by {}
    }
    false
}

/// Returns whether some address occurs twice in `list`.
pub fn has_duplicate_address(list: &Vec<Address>) -> (r: bool)
    ensures
        r == !list.deep_view().no_duplicates(),
{
    let n = list.len();
    let mut i: usize = 0;
    while i < n
        invariant
            n == list.len(),
            i <= n,
            forall|a: int, b: int|
                0 <= a < i && 0 <= b < n && a != b ==> list.deep_view()[a] != list.deep_view()[b],
        decreases n - i,
    {
        let mut j: usize = i + 1;
        while j < n
            invariant
                n == list.len(),
                i < n,
                i < j <= n,
                forall|a: int, b: int|
                    0 <= a < i && 0 <= b < n && a != b ==> list.deep_view()[a] != list.deep_view()[b],
                forall|b: int| i < b < j ==> list.deep_view()[i as int] != list.deep_view()[b],
            decreases n - j,
        {
            if list[i] == list[j] {
                assert(list.deep_view()[i as int] == list.deep_view()[j as int]);
                return true;
            }
            j = j + 1;
        }
        i = i + 1;
    }
    false
}

/// The list `s` without the occurrences of `a`, the others kept in order.
pub open spec fn remove_all(s: Seq<Seq<char>>, a: Seq<char>) -> Seq<Seq<char>> {
    s.filter(|x: Seq<char>| x != a)
}

/// Returns a copy of `list` without the occurrences of `a`, keeping the order
/// of the other addresses.
pub fn without_address(list: &Vec<Address>, a: &Address) -> (r: Vec<Address>)
    ensures
        r.deep_view() == remove_all(list.deep_view(), a@),
{
    let mut out: Vec<Address> = Vec::new();
    let mut i: usize = 0;
    while i < list.len()
        invariant
            i <= list.len(),
            out.deep_view() == list.deep_view().take(i as int).filter(|x: Seq<char>| x != a@),
        decreases list.len() - i,
    {
        let s = list[i].clone();
        proof {
            reveal_with_fuel(Seq::filter, 1);
            assert(list.deep_view().take(i + 1).drop_last() =~= list.deep_view().take(i as int));
        }
        if s != *a {
            out.push(s);
            assert(out.deep_view() =~= list.deep_view().take(i + 1).filter(|x: Seq<char>| x != a@));
        } else {
            assert(out.deep_view() =~= list.deep_view().take(i + 1).filter(|x: Seq<char>| x != a@));
        }
        i = i + 1;
    }
    assert(list.deep_view().take(list.len() as int) =~= list.deep_view());
    out
}

} // verus!

verus! {

/// Returns a copy of the address list `list`.
pub fn copy_addresses(list: &Vec<Address>) -> (r: Vec<Address>)
    ensures
        r.deep_view() == list.deep_view(),
{
    let r = list.clone();
    assert(r.deep_view() =~= list.deep_view());
    r
}

/// The value of an optional address.
pub open spec fn opt_address(a: Option<Address>) -> Option<Seq<char>> {
    match a {
        Some(x) => Some(x@),
        None => None,
    }
}

} // verus!

verus! {

/// Dropping every occurrence of `a` from a list without repeated entries keeps
/// the list free of repetitions, keeps exactly the other entries, and shortens
/// the list by one when `a` occurred in it.
pub proof fn lemma_filter_out_unique(s: Seq<Seq<char>>, a: Seq<char>)
    requires
        s.no_duplicates(),
    ensures
        remove_all(s, a).no_duplicates(),
        forall|x: Seq<char>| #[trigger] remove_all(s, a).contains(x) <==> (s.contains(x) && x != a),
        remove_all(s, a).len() == if s.contains(a) {
            s.len() - 1
        } else {
            s.len() as int
        },
    decreases s.len(),
{
    reveal_with_fuel(Seq::filter, 1);
    if s.len() == 0 {
        assert(remove_all(s, a) =~= s);
    } else {
        let init = s.drop_last();
        let last = s.last();
        assert(init.no_duplicates());
        lemma_filter_out_unique(init, a);
        let sub = remove_all(init, a);
        assert forall|x: Seq<char>| #[trigger] s.contains(x) <==> (init.contains(x) || x == last) by {
            if s.contains(x) {
                let k = choose|k: int| 0 <= k < s.len() && s[k] == x;
                if k < s.len() - 1 {
                    assert(init[k] == x);
                }
            }
            if init.contains(x) {
                let k = choose|k: int| 0 <= k < init.len() && init[k] == x;
                assert(s[k] == x);
            }
            if x == last {
                assert(s[s.len() - 1] == x);
            }
        }
        assert(!init.contains(last)) by {
            if init.contains(last) {
                let k = choose|k: int| 0 <= k < init.len() && init[k] == last;
                assert(s[k] == s[s.len() - 1]);
            }
        }
        if last != a {
            let out = sub.push(last);
            assert(remove_all(s, a) == out);
            assert forall|x: Seq<char>| #[trigger] out.contains(x) <==> (sub.contains(x) || x == last) by {
                if out.contains(x) {
                    let k = choose|k: int| 0 <= k < out.len() && out[k] == x;
                    if k < out.len() - 1 {
                        assert(sub[k] == x);
                    }
                }
                if sub.contains(x) {
                    let k = choose|k: int| 0 <= k < sub.len() && sub[k] == x;
                    assert(out[k] == x);
                }
                if x == last {
                    assert(out[out.len() - 1] == x);
                }
            }
            assert(!sub.contains(last));
            assert forall|i: int, j: int|
                0 <= i < out.len() && 0 <= j < out.len() && i != j implies out[i] != out[j] by {
                if i < out.len() - 1 && j < out.len() - 1 {
                    assert(out[i] == sub[i] && out[j] == sub[j]);
                } else if i < out.len() - 1 {
                    assert(sub.contains(out[i]));
                } else {
                    assert(sub.contains(out[j]));
                }
            }
            assert(s.contains(a) == init.contains(a));
        } else {
            assert(remove_all(s, a) == sub);
            assert(s.contains(a));
        }
    }
}

} // verus!

verus! {

/// Appending an address that is not in a list without repetitions keeps it
/// without repetitions.
pub proof fn lemma_push_unique(s: Seq<Seq<char>>, x: Seq<char>)
    requires
        s.no_duplicates(),
        !s.contains(x),
    ensures
        s.push(x).no_duplicates(),
{
    let t = s.push(x);
    assert forall|a: int, b: int| 0 <= a < t.len() && 0 <= b < t.len() && a != b implies t[a]
        != t[b] by {
        if a == s.len() {
            assert(t[b] == s[b]);
            if s[b] == x {
                assert(s.contains(x));
            }
        } else if b == s.len() {
            assert(t[a] == s[a]);
            if s[a] == x {
                assert(s.contains(x));
            }
        }
    }
}

} // verus!

verus! {

/// Dropping the occurrences of an address never lengthens a list.
pub proof fn lemma_filter_len_le(s: Seq<Seq<char>>, a: Seq<char>)
    ensures
        remove_all(s, a).len() <= s.len(),
{
    s.lemma_filter_len(|x: Seq<char>| x != a);
}

} // verus!
