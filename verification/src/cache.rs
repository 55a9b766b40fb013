//! The subscriptions that were ever asked for, in the order of asking.
//! They are issued again whenever the connection is made anew.

use crate::subscription::{Subscription, SubscriptionView};
use vstd::prelude::*;

verus! {

/// The contents of the subscriptions of `entries`, in the same order.
pub open spec fn views_of(entries: Seq<Subscription>) -> Seq<SubscriptionView> {
    entries.map_values(|s: Subscription| s@)
}

/// What the cache holds after each subscription of `added` was added to a
/// cache that held `before`, first to last.
pub open spec fn after_adding(before: Seq<SubscriptionView>, added: Seq<SubscriptionView>) -> Seq<
    SubscriptionView,
>
    decreases added.len(),
{
    if added.len() == 0 {
        before
    } else {
        after_adding(before, added.drop_last()).push(added.last())
    }
}

/// Adding subscriptions one after the other leaves the cache holding what
/// it held before, followed by each added subscription exactly once and in
/// the order of the calls.
pub proof fn lemma_added_in_call_order(before: Seq<SubscriptionView>, added: Seq<SubscriptionView>)
    ensures
        after_adding(before, added) == before + added,
    decreases added.len(),
{
    if added.len() == 0 {
        assert(before + added =~= before);
    } else {
        lemma_added_in_call_order(before, added.drop_last());
        assert((before + added.drop_last()).push(added.last()) =~= before + added);
    }
}

/// An append-only list of subscriptions.
#[derive(Debug)]
pub struct SubscriptionCache {
    entries: Vec<Subscription>,
}

impl View for SubscriptionCache {
    type V = Seq<SubscriptionView>;

    closed spec fn view(&self) -> Seq<SubscriptionView> {
        views_of(self.entries@)
    }
}

impl SubscriptionCache {
    /// A cache that holds nothing.
    pub fn new() -> (cache: SubscriptionCache)
        ensures
            cache@ == Seq::<SubscriptionView>::empty(),
    {
        let cache = SubscriptionCache { entries: Vec::new() };
        assert(cache@ =~= Seq::<SubscriptionView>::empty());
        cache
    }

    /// How many subscriptions the cache holds.
    pub fn len(&self) -> (n: usize)
        ensures
            n == self@.len(),
    {
        self.entries.len()
    }

    /// Appends `subscription`. Nothing is checked, nothing is merged: a
    /// subscription that is added twice is held twice.
    pub fn add(&mut self, subscription: Subscription)
        ensures
            final(self)@ == old(self)@.push(subscription@),
    {
        self.entries.push(subscription);
        assert(self@ =~= old(self)@.push(subscription@));
    }

    /// A copy of every subscription held, oldest first.
    pub fn snapshot(&self) -> (copy: Vec<Subscription>)
        ensures
            views_of(copy@) == self@,
    {
        let mut copy: Vec<Subscription> = Vec::new();
        let mut i: usize = 0;
        while i < self.entries.len()
            invariant
                i <= self.entries.len(),
                copy.len() == i,
                forall|j: int| 0 <= j < i ==> (#[trigger] copy@[j])@ == self.entries@[j]@,
            decreases self.entries.len() - i,
        {
            copy.push(self.entries[i].clone());
            i += 1;
        }
        assert(views_of(copy@) =~= self@);
        copy
    }
}

} // verus!
