//! Views of sequences and of optional values.

use vstd::prelude::*;

verus! {

/// The views of `items`, in order.
pub open spec fn each_view<T: View>(items: Seq<T>) -> Seq<T::V> {
    items.map_values(|item: T| item@)
}

/// The view of an optional value.
pub open spec fn opt_view<T: View>(item: Option<T>) -> Option<T::V> {
    match item {
        Some(inner) => Some(inner@),
        None => None,
    }
}

/// Appending an item appends its view.
pub proof fn lemma_each_view_push<T: View>(items: Seq<T>, item: T)
    ensures
        each_view(items.push(item)) == each_view(items).push(item@),
        each_view(items).len() == items.len(),
{
    assert(each_view(items.push(item)) =~= each_view(items).push(item@));
}

/// The views of a concatenation are the views of its parts, concatenated.
pub proof fn lemma_each_view_add<T: View>(front: Seq<T>, back: Seq<T>)
    ensures
        each_view(front + back) == each_view(front) + each_view(back),
{
    assert(each_view(front + back) =~= each_view(front) + each_view(back));
}

/// A copy of `names`.
pub fn copy_strings(names: &Vec<String>) -> (out: Vec<String>)
    ensures
        each_view(out@) == each_view(names@),
{
    let mut out: Vec<String> = Vec::new();
    let mut i: usize = 0;
    while i < names.len()
        invariant
            i <= names@.len(),
            each_view(out@) == each_view(names@.take(i as int)),
        decreases names@.len() - i,
    {
        let name = names[i].clone();
        proof {
            lemma_each_view_push(out@, name);
            lemma_each_view_push(names@.take(i as int), names@[i as int]);
            assert(names@.take(i + 1) =~= names@.take(i as int).push(names@[i as int]));
        }
        out.push(name);
        i += 1;
    }
    assert(names@.take(names@.len() as int) =~= names@);
    out
}

} // verus!
