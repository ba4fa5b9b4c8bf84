//! The names of definition files: which names of a directory count, and the
//! order in which they are listed.

use crate::text::{chars_of, ends_with, range_ends_with, texts};
use vstd::prelude::*;
use vstd::seq_lib::{to_multiset_build, to_multiset_insert};

verus! {

/// Whether a file of this name is a definition file: the name ends with
/// `.kdl`, and something stands before that.
pub open spec fn is_kdl_name(name: Seq<char>) -> bool {
    name.len() > 4 && ends_with(name, seq!['.', 'k', 'd', 'l'])
}

/// The names of definition files among `names`, in their order.
pub open spec fn kdl_only(names: Seq<Seq<char>>) -> Seq<Seq<char>>
    decreases names.len(),
{
    if names.len() == 0 {
        Seq::empty()
    } else if is_kdl_name(names.last()) {
        kdl_only(names.drop_last()).push(names.last())
    } else {
        kdl_only(names.drop_last())
    }
}

/// Whether `a` comes before `b`, or is `b`, in the order of the dictionary,
/// as far as the two are compared from index `i` on.
pub open spec fn ordered_from(a: Seq<char>, b: Seq<char>, i: int) -> bool
    decreases a.len() - i,
{
    if i < 0 || i >= a.len() {
        true
    } else if i >= b.len() {
        false
    } else if a[i] != b[i] {
        a[i] < b[i]
    } else {
        ordered_from(a, b, i + 1)
    }
}

/// Whether `a` comes before `b`, or is `b`, in the order of the dictionary:
/// character by character, by code point, a prefix before what it begins.
pub open spec fn comes_before(a: Seq<char>, b: Seq<char>) -> bool {
    ordered_from(a, b, 0)
}

/// Whether the names are in the order of the dictionary.
pub open spec fn in_order(names: Seq<Seq<char>>) -> bool {
    forall|i: int, j: int|
        0 <= i <= j < names.len() ==> comes_before(#[trigger] names[i], #[trigger] names[j])
}

/// Of two names, one comes before the other.
pub proof fn lemma_order_total(a: Seq<char>, b: Seq<char>, i: int)
    requires
        0 <= i,
    ensures
        ordered_from(a, b, i) || ordered_from(b, a, i),
    decreases a.len() - i,
{
    if i < a.len() && i < b.len() && a[i] == b[i] {
        lemma_order_total(a, b, i + 1);
    }
}

/// What comes before a name comes before everything after that name.
pub proof fn lemma_order_transitive(a: Seq<char>, b: Seq<char>, c: Seq<char>, i: int)
    requires
        0 <= i,
        ordered_from(a, b, i),
        ordered_from(b, c, i),
    ensures
        ordered_from(a, c, i),
    decreases a.len() - i,
{
    if i < a.len() && a[i] == b[i] && b[i] == c[i] {
        lemma_order_transitive(a, b, c, i + 1);
    }
}

/// One name more at the end: it counts or not, and what counted before it
/// stays.
proof fn lemma_kdl_only_take(names: Seq<Seq<char>>, i: int)
    requires
        0 <= i < names.len(),
    ensures
        kdl_only(names.take(i + 1)) == if is_kdl_name(names[i]) {
            kdl_only(names.take(i)).push(names[i])
        } else {
            kdl_only(names.take(i))
        },
{
    assert(names.take(i + 1).drop_last() =~= names.take(i));
}

/// Whether a file of this name is a definition file.
pub fn has_kdl_extension(name: &str) -> (b: bool)
    ensures
        b == is_kdl_name(name@),
{
    let chars = chars_of(name);
    let suffix = vec!['.', 'k', 'd', 'l'];
    assert(suffix@ =~= seq!['.', 'k', 'd', 'l']);
    assert(chars@.subrange(0, chars.len() as int) =~= chars@);
    chars.len() > 4 && range_ends_with(&chars, 0, chars.len(), &suffix)
}

/// Whether `a` comes before `b`, or is `b`, in the order of the dictionary.
pub fn name_comes_before(a: &str, b: &str) -> (before: bool)
    ensures
        before == comes_before(a@, b@),
{
    let x = chars_of(a);
    let y = chars_of(b);
    let mut i: usize = 0;
    while i < x.len()
        invariant
            i <= x.len(),
            x@ == a@,
            y@ == b@,
            comes_before(a@, b@) == ordered_from(a@, b@, i as int),
        decreases x.len() - i,
    {
        if i >= y.len() {
            return false;
        }
        if x[i] != y[i] {
            return x[i] < y[i];
        }
        i += 1;
    }
    true
}

/// The names of the definition files among `names`, in the order of the
/// dictionary: as many of each as `names` holds.
pub fn kdl_names(names: &Vec<String>) -> (listed: Vec<String>)
    ensures
        in_order(texts(listed@)),
        texts(listed@).to_multiset() == kdl_only(texts(names@)).to_multiset(),
{
    let ghost all = texts(names@);
    let mut listed: Vec<String> = Vec::new();
    let mut i: usize = 0;
    assert(texts(listed@) =~= kdl_only(all.take(0)));
    while i < names.len()
        invariant
            i <= names.len(),
            all == texts(names@),
            in_order(texts(listed@)),
            texts(listed@).to_multiset() == kdl_only(all.take(i as int)).to_multiset(),
        decreases names.len() - i,
    {
        proof {
            lemma_kdl_only_take(all, i as int);
        }
        if has_kdl_extension(names[i].as_str()) {
            let ghost name = names[i as int]@;
            let mut at: usize = 0;
            while at < listed.len() && name_comes_before(listed[at].as_str(), names[i].as_str())
                invariant
                    at <= listed.len(),
                    i < names.len(),
                    name == names[i as int]@,
                    forall|j: int| 0 <= j < at ==> comes_before(#[trigger] texts(listed@)[j], name),
                decreases listed.len() - at,
            {
                at += 1;
            }
            let ghost before = texts(listed@);
            listed.insert(at, names[i].clone());
            proof {
                let after = texts(listed@);
                assert(after =~= before.insert(at as int, name));
                to_multiset_insert(before, at as int, name);
                to_multiset_build(kdl_only(all.take(i as int)), name);
                assert forall|j: int, k: int| 0 <= j <= k < after.len() implies comes_before(
                    #[trigger] after[j],
                    #[trigger] after[k],
                ) by {
                    if at < before.len() {
                        lemma_order_total(before[at as int], name, 0);
                    }
                    if j == k {
                        lemma_order_total(after[j], after[j], 0);
                    } else if j == at {
                        lemma_order_transitive(name, before[at as int], before[k - 1], 0);
                    }
                }
            }
        }
        i += 1;
    }
    assert(all.take(i as int) =~= all);
    listed
}

} // verus!
