//! Views of sequences and optional values, taken element by element.

use vstd::prelude::*;

verus! {

/// The views of the elements of `s`, in order.
pub open spec fn seq_view<T: View>(s: Seq<T>) -> Seq<T::V> {
    Seq::new(s.len(), |i: int| s[i]@)
}

/// The view of the value held by `o`, if any.
pub open spec fn opt_view<T: View>(o: Option<T>) -> Option<T::V> {
    match o {
        Some(t) => Some(t@),
        None => None,
    }
}

/// Appending an element appends its view.
pub proof fn lemma_seq_view_push<T: View>(s: Seq<T>, t: T)
    ensures
        seq_view(s.push(t)) == seq_view(s).push(t@),
{
    assert(seq_view(s.push(t)) =~= seq_view(s).push(t@));
}

/// Dropping the last element drops its view.
pub proof fn lemma_seq_view_drop_last<T: View>(s: Seq<T>)
    requires
        s.len() > 0,
    ensures
        seq_view(s.drop_last()) == seq_view(s).drop_last(),
        seq_view(s).last() == s.last()@,
{
    assert(seq_view(s.drop_last()) =~= seq_view(s).drop_last());
}

/// Concatenation commutes with taking views.
pub proof fn lemma_seq_view_add<T: View>(s: Seq<T>, t: Seq<T>)
    ensures
        seq_view(s + t) == seq_view(s) + seq_view(t),
{
    assert(seq_view(s + t) =~= seq_view(s) + seq_view(t));
}

/// Replacing an element replaces its view.
pub proof fn lemma_seq_view_update<T: View>(s: Seq<T>, i: int, t: T)
    requires
        0 <= i < s.len(),
    ensures
        seq_view(s.update(i, t)) == seq_view(s).update(i, t@),
{
    assert(seq_view(s.update(i, t)) =~= seq_view(s).update(i, t@));
}

/// The view of what a result holds where it is `Ok`; an error is kept.
pub open spec fn ok_view<T: View, E>(r: Result<T, E>) -> Result<T::V, E> {
    match r {
        Ok(t) => Ok(t@),
        Err(e) => Err(e),
    }
}

/// The views of optional values, in order.
pub open spec fn seq_opt_view<T: View>(s: Seq<Option<T>>) -> Seq<Option<T::V>> {
    Seq::new(s.len(), |i: int| opt_view(s[i]))
}

/// The views of results, in order.
pub open spec fn seq_ok_view<T: View, E>(s: Seq<Result<T, E>>) -> Seq<Result<T::V, E>> {
    Seq::new(s.len(), |i: int| ok_view(s[i]))
}

/// The values that are there, in order.
pub open spec fn present<T>(s: Seq<Option<T>>) -> Seq<T>
    decreases s.len(),
{
    if s.len() == 0 {
        Seq::empty()
    } else {
        match s.last() {
            Some(t) => present(s.drop_last()).push(t),
            None => present(s.drop_last()),
        }
    }
}

/// The values of the results that are `Ok`, in order.
pub open spec fn successes<T, E>(s: Seq<Result<T, E>>) -> Seq<T>
    decreases s.len(),
{
    if s.len() == 0 {
        Seq::empty()
    } else {
        match s.last() {
            Ok(t) => successes(s.drop_last()).push(t),
            Err(_) => successes(s.drop_last()),
        }
    }
}

} // verus!
