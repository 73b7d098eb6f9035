//! Running one request per item, in order, without stopping at a failure.
//!
//! Removing a role from many members, or the reactions from many messages,
//! is a row of requests of which any may fail. A failure is counted and
//! the row goes on. The caller performs the requests; a `BatchRun` says
//! which one is next and keeps the count.

use vstd::prelude::*;
use crate::error::ErrorKind;

verus! {

/// How many requests of a batch succeeded and how many failed.
#[derive(Clone, Copy, Debug, PartialEq, Eq, Structural)]
pub struct Tally {
    pub succeeded: usize,
    pub failed: usize,
}

/// The number of successes among the outcomes.
pub open spec fn successes(outcomes: Seq<bool>) -> nat {
    outcomes.filter(|ok: bool| ok).len()
}

/// The number of failures among the outcomes.
pub open spec fn failures(outcomes: Seq<bool>) -> nat {
    outcomes.filter(|ok: bool| !ok).len()
}

/// One more outcome adds one to the count it belongs to.
pub proof fn lemma_counts_push(outcomes: Seq<bool>, ok: bool)
    ensures
        successes(outcomes.push(ok)) == successes(outcomes) + if ok {
            1nat
        } else {
            0nat
        },
        failures(outcomes.push(ok)) == failures(outcomes) + if ok {
            0nat
        } else {
            1nat
        },
{
    outcomes.lemma_filter_push(ok, |ok: bool| ok);
    outcomes.lemma_filter_push(ok, |ok: bool| !ok);
}

/// Every outcome is a success or a failure.
pub proof fn lemma_counts_sum(outcomes: Seq<bool>)
    ensures
        successes(outcomes) + failures(outcomes) == outcomes.len(),
    decreases outcomes.len(),
{
    if outcomes.len() == 0 {
        assert(outcomes.filter(|ok: bool| ok) =~= Seq::<bool>::empty());
        assert(outcomes.filter(|ok: bool| !ok) =~= Seq::<bool>::empty());
    } else {
        lemma_counts_sum(outcomes.drop_last());
        lemma_counts_push(outcomes.drop_last(), outcomes.last());
        assert(outcomes =~= outcomes.drop_last().push(outcomes.last()));
    }
}

/// What a batch asks its caller to do next.
#[derive(Clone, Copy, Debug, PartialEq, Eq, Structural)]
pub enum BatchAction {
    /// Send the request for this item, then record how it went.
    Perform(u64),
    /// Every item was tried: report the count.
    Report(Tally),
}

/// A batch under way: the items, and how the requests sent so far went.
#[derive(Debug)]
pub struct BatchRun {
    items: Vec<u64>,
    outcomes: Vec<bool>,
    succeeded: usize,
}

/// What a batch under way consists of.
#[verifier::ext_equal]
pub struct BatchView {
    /// The items, in the order in which their requests are sent.
    pub items: Seq<u64>,
    /// Whether the request succeeded, for each item tried so far.
    pub outcomes: Seq<bool>,
}

impl View for BatchRun {
    type V = BatchView;

    closed spec fn view(&self) -> BatchView {
        BatchView { items: self.items@, outcomes: self.outcomes@ }
    }
}

impl BatchView {
    /// Every item was tried.
    pub open spec fn finished(self) -> bool {
        self.outcomes.len() >= self.items.len()
    }

    /// The count so far.
    pub open spec fn tally(self) -> Tally {
        Tally {
            succeeded: successes(self.outcomes) as usize,
            failed: failures(self.outcomes) as usize,
        }
    }

    /// What is to be done next: the request for the first item not yet
    /// tried, or the report.
    pub open spec fn action(self) -> BatchAction {
        if self.finished() {
            BatchAction::Report(self.tally())
        } else {
            BatchAction::Perform(self.items[self.outcomes.len() as int])
        }
    }

    /// The batch after the request for the next item ended with `ok`. A
    /// finished batch stays as it is.
    pub open spec fn recorded(self, ok: bool) -> BatchView {
        if self.finished() {
            self
        } else {
            BatchView { items: self.items, outcomes: self.outcomes.push(ok) }
        }
    }

    /// The batch after its next requests ended with `outcomes`, in order.
    pub open spec fn after(self, outcomes: Seq<bool>) -> BatchView
        decreases outcomes.len(),
    {
        if outcomes.len() == 0 {
            self
        } else {
            self.after(outcomes.drop_last()).recorded(outcomes.last())
        }
    }

    /// The items whose requests failed, in order.
    pub open spec fn failed_items(self) -> Seq<u64>
        decreases self.outcomes.len(),
    {
        if self.outcomes.len() == 0 || self.outcomes.len() > self.items.len() {
            Seq::empty()
        } else {
            let before = BatchView { items: self.items, outcomes: self.outcomes.drop_last() };
            if self.outcomes.last() {
                before.failed_items()
            } else {
                before.failed_items().push(self.items[self.outcomes.len() - 1])
            }
        }
    }
}

/// A new batch that is told the outcomes of its first `k` requests has
/// just these on record.
proof fn lemma_after_prefix(items: Seq<u64>, outcomes: Seq<bool>, k: int)
    requires
        0 <= k <= outcomes.len() <= items.len(),
    ensures
        (BatchView { items, outcomes: Seq::empty() }).after(outcomes.take(k)) == (BatchView {
            items,
            outcomes: outcomes.take(k),
        }),
    decreases k,
{
    let start = BatchView { items, outcomes: Seq::empty() };
    if k == 0 {
        assert(outcomes.take(0) =~= Seq::<bool>::empty());
    } else {
        lemma_after_prefix(items, outcomes, k - 1);
        assert(outcomes.take(k).drop_last() =~= outcomes.take(k - 1));
        assert(outcomes.take(k - 1).push(outcomes[k - 1]) =~= outcomes.take(k));
    }
}

/// A batch asks for the request of every item, one after the other in
/// the order of the items and whatever the outcomes before, and then
/// reports as many successes and failures as there were: together as
/// many as there are items.
pub proof fn lemma_every_item_is_tried(items: Seq<u64>, outcomes: Seq<bool>)
    requires
        outcomes.len() == items.len(),
    ensures
        forall|k: int|
            0 <= k < items.len() ==> (BatchView { items, outcomes: Seq::empty() }).after(
                #[trigger] outcomes.take(k),
            ).action() == BatchAction::Perform(items[k]),
        (BatchView { items, outcomes: Seq::empty() }).after(outcomes).action()
            == BatchAction::Report(
            Tally { succeeded: successes(outcomes) as usize, failed: failures(outcomes) as usize },
        ),
        successes(outcomes) + failures(outcomes) == items.len(),
{
    let start = BatchView { items, outcomes: Seq::empty() };
    assert forall|k: int| 0 <= k < items.len() implies start.after(
        #[trigger] outcomes.take(k),
    ).action() == BatchAction::Perform(items[k]) by {
        lemma_after_prefix(items, outcomes, k);
    }
    lemma_after_prefix(items, outcomes, outcomes.len() as int);
    assert(outcomes.take(outcomes.len() as int) =~= outcomes);
    lemma_counts_sum(outcomes);
}

impl BatchRun {
    #[verifier::type_invariant]
    spec fn well_formed(self) -> bool {
        &&& self.outcomes@.len() <= self.items@.len()
        &&& self.succeeded == successes(self.outcomes@)
    }

    /// A batch over `items` of which none was tried yet.
    pub fn start(items: Vec<u64>) -> (r: BatchRun)
        ensures
            r@ == (BatchView { items: items@, outcomes: Seq::empty() }),
    {
        proof {
            assert(Seq::<bool>::empty().filter(|ok: bool| ok) =~= Seq::<bool>::empty());
        }
        BatchRun { items, outcomes: Vec::new(), succeeded: 0 }
    }

    /// Whether every item was tried.
    pub fn is_finished(&self) -> (r: bool)
        ensures
            r == self@.finished(),
    {
        self.outcomes.len() >= self.items.len()
    }

    /// The number of items tried so far.
    pub fn attempted(&self) -> (r: usize)
        ensures
            r == self@.outcomes.len(),
            r <= self@.items.len(),
    {
        proof {
            use_type_invariant(self);
        }
        self.outcomes.len()
    }

    /// The count so far: successes and failures add up to the number of
    /// items tried.
    pub fn tally(&self) -> (r: Tally)
        ensures
            r == self@.tally(),
            r.succeeded == successes(self@.outcomes),
            r.failed == failures(self@.outcomes),
            r.succeeded + r.failed == self@.outcomes.len(),
    {
        proof {
            use_type_invariant(self);
            lemma_counts_sum(self.outcomes@);
        }
        Tally { succeeded: self.succeeded, failed: self.outcomes.len() - self.succeeded }
    }

    /// What is to be done next.
    pub fn action(&self) -> (r: BatchAction)
        ensures
            r == self@.action(),
    {
        proof {
            use_type_invariant(self);
        }
        if self.outcomes.len() >= self.items.len() {
            BatchAction::Report(self.tally())
        } else {
            BatchAction::Perform(self.items[self.outcomes.len()])
        }
    }

    /// Records how the request for the next item went and moves on to the
    /// item after it, whether the request failed or not.
    pub fn record(self, outcome: Result<(), ErrorKind>) -> (r: BatchRun)
        ensures
            r@ == self@.recorded(outcome is Ok),
    {
        proof {
            use_type_invariant(&self);
        }
        if self.outcomes.len() >= self.items.len() {
            return self;
        }
        let ok = outcome.is_ok();
        let BatchRun { items, mut outcomes, succeeded } = self;
        proof {
            lemma_counts_push(outcomes@, ok);
            lemma_counts_sum(outcomes@);
        }
        outcomes.push(ok);
        let succeeded = if ok {
            succeeded + 1
        } else {
            succeeded
        };
        BatchRun { items, outcomes, succeeded }
    }

    /// The items whose requests failed, in order.
    pub fn failed_items(&self) -> (r: Vec<u64>)
        ensures
            r@ == self@.failed_items(),
    {
        proof {
            use_type_invariant(self);
        }
        let mut failed: Vec<u64> = Vec::new();
        let mut i: usize = 0;
        while i < self.outcomes.len()
            invariant
                i <= self.outcomes@.len() <= self.items@.len(),
                failed@ == (BatchView {
                    items: self.items@,
                    outcomes: self.outcomes@.take(i as int),
                }).failed_items(),
            decreases self.outcomes.len() - i,
        {
            proof {
                assert(self.outcomes@.take(i + 1).drop_last() =~= self.outcomes@.take(i as int));
            }
            if !self.outcomes[i] {
                failed.push(self.items[i]);
            }
            i += 1;
        }
        proof {
            assert(self.outcomes@.take(i as int) =~= self.outcomes@);
        }
        failed
    }
}

} // verus!
