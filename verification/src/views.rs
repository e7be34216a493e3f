//! Viewing a vector elementwise.

use vstd::prelude::*;

verus! {

/// The sequence of element views of a sequence.
pub open spec fn views_of<T: View>(s: Seq<T>) -> Seq<<T as View>::V>
    decreases s,
{
    if s.len() == 0 {
        Seq::empty()
    } else {
        views_of(s.drop_last()).push(s.last().view())
    }
}

/// Pushing an element extends the view sequence by that element's view.
pub proof fn lemma_views_of_push<T: View>(s: Seq<T>, x: T)
    ensures
        views_of(s.push(x)) == views_of(s).push(x.view()),
{
    assert(s.push(x).drop_last() =~= s);
}

/// The view sequence has the same length and is the elementwise view.
pub proof fn lemma_views_of_index<T: View>(s: Seq<T>)
    ensures
        views_of(s).len() == s.len(),
        forall|i: int| 0 <= i < s.len() ==> views_of(s)[i] == s[i].view(),
    decreases s.len(),
{
    if s.len() > 0 {
        lemma_views_of_index(s.drop_last());
    }
}

} // verus!
