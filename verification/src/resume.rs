//! Finding the place where an interrupted run left off.
//!
//! A run that starts from a checkpoint passes over its candidates until it
//! meets the one that the checkpoint names. That candidate was completed by
//! the earlier run; work goes on with the one after it.

use vstd::prelude::*;

use crate::syspass::{Account, AccountView};

verus! {

/// What to do with a candidate.
#[derive(Debug, PartialEq, Eq, Clone, Copy, Structural)]
pub enum ResumeDecision {
    /// The checkpoint has not been met yet: pass over the candidate.
    Skip,
    /// The candidate is the checkpoint: pass over it, and over no other.
    Resume,
    /// Nothing is being looked for: the candidate is to be processed.
    NotResuming,
}

/// The checkpoint of a run and whether it has been met.
pub struct ResumeMatcher {
    pub checkpoint: Option<Account>,
    pub resumed: bool,
}

/// The checkpoint as its view, and whether it has been met.
pub struct ResumeMatcherView {
    pub checkpoint: Option<AccountView>,
    pub resumed: bool,
}

/// The view of an account that may be absent.
pub open spec fn optional_view(account: Option<Account>) -> Option<AccountView> {
    match account {
        Some(account) => Some(account@),
        None => None,
    }
}

impl View for ResumeMatcher {
    type V = ResumeMatcherView;

    open spec fn view(&self) -> ResumeMatcherView {
        ResumeMatcherView { checkpoint: optional_view(self.checkpoint), resumed: self.resumed }
    }
}

impl ResumeMatcherView {
    /// The matcher at the start of a run: it looks for the checkpoint if
    /// there is one.
    pub open spec fn start(checkpoint: Option<AccountView>) -> ResumeMatcherView {
        ResumeMatcherView { checkpoint, resumed: checkpoint is None }
    }

    /// Whether candidates are still passed over.
    pub open spec fn skipping(self) -> bool {
        !self.resumed && self.checkpoint is Some
    }

    /// What to do with a candidate.
    pub open spec fn decision(self, candidate: AccountView) -> ResumeDecision {
        if !self.skipping() {
            ResumeDecision::NotResuming
        } else if self.checkpoint == Some(candidate) {
            ResumeDecision::Resume
        } else {
            ResumeDecision::Skip
        }
    }

    /// The matcher after a candidate.
    pub open spec fn after(self, candidate: AccountView) -> ResumeMatcherView {
        ResumeMatcherView {
            resumed: self.decision(candidate) != ResumeDecision::Skip,
            ..self
        }
    }

    /// The decisions on a sequence of candidates, in order.
    pub open spec fn decisions(self, candidates: Seq<AccountView>) -> Seq<ResumeDecision>
        decreases candidates.len(),
    {
        if candidates.len() == 0 {
            Seq::empty()
        } else {
            seq![self.decision(candidates[0])] + self.after(candidates[0]).decisions(
                candidates.drop_first(),
            )
        }
    }
}

impl ResumeMatcher {
    /// The matcher of a run that starts from `checkpoint`.
    pub fn new(checkpoint: Option<Account>) -> (matcher: ResumeMatcher)
        ensures
            matcher@ == ResumeMatcherView::start(optional_view(checkpoint)),
    {
        let resumed = checkpoint.is_none();
        ResumeMatcher { checkpoint, resumed }
    }

    /// Decides on the next candidate and remembers a match.
    pub fn should_resume(&mut self, candidate: &Account) -> (decision: ResumeDecision)
        ensures
            decision == old(self)@.decision(candidate@),
            final(self)@ == old(self)@.after(candidate@),
    {
        if self.resumed {
            return ResumeDecision::NotResuming;
        }
        match &self.checkpoint {
            None => {
                self.resumed = true;
                ResumeDecision::NotResuming
            },
            Some(last) => {
                if last.same_as(candidate) {
                    self.resumed = true;
                    ResumeDecision::Resume
                } else {
                    ResumeDecision::Skip
                }
            },
        }
    }
}

/// One decision is made on each candidate.
pub proof fn lemma_decisions_len(matcher: ResumeMatcherView, candidates: Seq<AccountView>)
    ensures
        matcher.decisions(candidates).len() == candidates.len(),
    decreases candidates.len(),
{
    if candidates.len() > 0 {
        lemma_decisions_len(matcher.after(candidates[0]), candidates.drop_first());
    }
}

/// Once the checkpoint has been met, or where there is none, every candidate
/// is to be processed.
pub proof fn lemma_resumed_processes_all(matcher: ResumeMatcherView, candidates: Seq<AccountView>)
    requires
        !matcher.skipping(),
    ensures
        matcher.decisions(candidates).len() == candidates.len(),
        forall|k: int|
            0 <= k < candidates.len() ==> #[trigger] matcher.decisions(candidates)[k]
                == ResumeDecision::NotResuming,
    decreases candidates.len(),
{
    lemma_decisions_len(matcher, candidates);
    if candidates.len() > 0 {
        let rest = candidates.drop_first();
        lemma_resumed_processes_all(matcher.after(candidates[0]), rest);
        assert forall|k: int| 0 <= k < candidates.len() implies #[trigger] matcher.decisions(
            candidates,
        )[k] == ResumeDecision::NotResuming by {
            if k > 0 {
                assert(matcher.decisions(candidates)[k] == matcher.after(
                    candidates[0],
                ).decisions(rest)[k - 1]);
            }
        }
    }
}

/// A run without a checkpoint processes its candidates from the first on.
pub proof fn lemma_no_checkpoint_resumes_at_once(candidates: Seq<AccountView>)
    ensures
        ResumeMatcherView::start(None).decisions(candidates).len() == candidates.len(),
        forall|k: int|
            0 <= k < candidates.len() ==> #[trigger] ResumeMatcherView::start(None).decisions(
                candidates,
            )[k] == ResumeDecision::NotResuming,
{
    lemma_resumed_processes_all(ResumeMatcherView::start(None), candidates);
}

/// A run whose checkpoint stands at index `i` of the candidates, and at no
/// earlier index, passes over the candidates up to and with `i` and processes
/// every one after it.
pub proof fn lemma_resume_after_checkpoint(
    checkpoint: AccountView,
    candidates: Seq<AccountView>,
    i: int,
)
    requires
        0 <= i < candidates.len(),
        candidates[i] == checkpoint,
        forall|j: int| 0 <= j < i ==> candidates[j] != checkpoint,
    ensures
        ResumeMatcherView::start(Some(checkpoint)).decisions(candidates).len()
            == candidates.len(),
        forall|k: int|
            0 <= k < i ==> #[trigger] ResumeMatcherView::start(Some(checkpoint)).decisions(
                candidates,
            )[k] == ResumeDecision::Skip,
        ResumeMatcherView::start(Some(checkpoint)).decisions(candidates)[i]
            == ResumeDecision::Resume,
        forall|k: int|
            i < k < candidates.len() ==> #[trigger] ResumeMatcherView::start(
                Some(checkpoint),
            ).decisions(candidates)[k] == ResumeDecision::NotResuming,
    decreases i,
{
    let matcher = ResumeMatcherView::start(Some(checkpoint));
    let rest = candidates.drop_first();
    let next = matcher.after(candidates[0]);
    lemma_decisions_len(matcher, candidates);
    lemma_decisions_len(next, rest);
    assert forall|k: int| 0 < k < candidates.len() implies #[trigger] matcher.decisions(
        candidates,
    )[k] == next.decisions(rest)[k - 1] by {}
    if i == 0 {
        lemma_resumed_processes_all(next, rest);
    } else {
        assert(next == matcher);
        lemma_resume_after_checkpoint(checkpoint, rest, i - 1);
    }
}

} // verus!
