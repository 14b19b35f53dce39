//! The schema engine's state: the account table keyed by provider and
//! account, the plan table keyed by plan identifier, and a commit sequence
//! that every write advances and that doubles as the state digest.
use vstd::prelude::*;

use crate::engine::store::DatabaseMarker;
use crate::store::{
    has_account, lemma_retired_is_subsequence, registered, retired, rotated, same_account, unique_bindings,
    AccountBinding, BindingView,
};
use crate::vocabulary::{Plan, PlanView, Provider};

verus! {

/// A plan in the plan table, with its approval bit.
#[derive(Debug, PartialEq, Eq)]
pub struct StoredPlan {
    pub plan: Plan,
    pub approved: bool,
}

pub struct StoredPlanView {
    pub plan: PlanView,
    pub approved: bool,
}

impl DeepView for StoredPlan {
    type V = StoredPlanView;

    open spec fn deep_view(&self) -> StoredPlanView {
        StoredPlanView { plan: self.plan@, approved: self.approved }
    }
}

pub struct SchemaStoreView {
    pub accounts: Seq<BindingView>,
    pub plans: Seq<StoredPlanView>,
    pub commit_sequence: u64,
}

pub open spec fn has_stored_plan(plans: Seq<StoredPlanView>, identifier: Seq<char>) -> bool {
    exists|i: int| 0 <= i < plans.len() && (#[trigger] plans[i]).plan.identifier == identifier
}

/// The position of the first plan with the identifier.
pub open spec fn first_stored_plan(plans: Seq<StoredPlanView>, identifier: Seq<char>) -> int {
    choose|i: int|
        0 <= i < plans.len() && (#[trigger] plans[i]).plan.identifier == identifier && forall|j: int|
            0 <= j < i ==> plans[j].plan.identifier != identifier
}

/// The plans after storing `stored`: it replaces the first plan with its
/// identifier, or is appended.
pub open spec fn with_stored_plan(plans: Seq<StoredPlanView>, stored: StoredPlanView) -> Seq<StoredPlanView> {
    if has_stored_plan(plans, stored.plan.identifier) {
        plans.update(first_stored_plan(plans, stored.plan.identifier), stored)
    } else {
        plans.push(stored)
    }
}

/// The marker of a commit: the sequence doubles as the digest.
pub open spec fn marker_for(commit_sequence: u64) -> DatabaseMarker {
    DatabaseMarker { commit_sequence, state_digest: commit_sequence }
}

/// The two tables and the commit sequence.
#[derive(Debug)]
pub struct SchemaStoreState {
    account_policy: Vec<AccountBinding>,
    plans: Vec<StoredPlan>,
    commit_sequence: u64,
}

impl View for SchemaStoreState {
    type V = SchemaStoreView;

    closed spec fn view(&self) -> SchemaStoreView {
        SchemaStoreView {
            accounts: self.account_policy.deep_view(),
            plans: self.plans.deep_view(),
            commit_sequence: self.commit_sequence,
        }
    }
}

impl SchemaStoreState {
    /// One binding per account.
    pub open spec fn wf(&self) -> bool {
        unique_bindings(self@.accounts)
    }

    /// Room for one more commit.
    pub open spec fn can_commit(&self) -> bool {
        self@.commit_sequence < u64::MAX
    }

    pub fn new() -> (state: Self)
        ensures
            state.wf(),
            state@.accounts.len() == 0,
            state@.plans.len() == 0,
            state@.commit_sequence == 0,
    {
        let state = SchemaStoreState { account_policy: Vec::new(), plans: Vec::new(), commit_sequence: 0 };
        assert(state@.accounts =~= Seq::<BindingView>::empty());
        assert(state@.plans =~= Seq::<StoredPlanView>::empty());
        state
    }

    /// Advances the commit sequence and returns the new value.
    pub fn next_commit_sequence(&mut self) -> (sequence: u64)
        requires
            old(self).can_commit(),
        ensures
            final(self)@ == (SchemaStoreView { commit_sequence: (old(self)@.commit_sequence + 1) as u64, ..old(self)@ }),
            sequence == final(self)@.commit_sequence,
    {
        self.commit_sequence = self.commit_sequence + 1;
        self.commit_sequence
    }

    pub fn commit_sequence(&self) -> (sequence: u64)
        ensures
            sequence == self@.commit_sequence,
    {
        self.commit_sequence
    }

    /// The current marker.
    pub fn marker(&self) -> (marker: DatabaseMarker)
        ensures
            marker == marker_for(self@.commit_sequence),
    {
        DatabaseMarker { commit_sequence: self.commit_sequence, state_digest: self.commit_sequence }
    }

    pub fn accounts(&self) -> (accounts: &Vec<AccountBinding>)
        ensures
            accounts.deep_view() == self@.accounts,
    {
        &self.account_policy
    }

    pub fn plans(&self) -> (plans: &Vec<StoredPlan>)
        ensures
            plans.deep_view() == self@.plans,
    {
        &self.plans
    }

    fn account_position(&self, provider: Provider, account: &String) -> (found: Option<usize>)
        ensures
            match found {
                Some(index) => index < self@.accounts.len() && same_account(
                    self@.accounts[index as int],
                    provider,
                    account@,
                ),
                None => !has_account(self@.accounts, provider, account@),
            },
    {
        let ghost view = self@.accounts;
        let mut index: usize = 0;
        while index < self.account_policy.len()
            invariant
                view == self@.accounts,
                index <= self.account_policy.len(),
                forall|i: int| 0 <= i < index ==> !same_account(#[trigger] view[i], provider, account@),
            decreases self.account_policy.len() - index,
        {
            if self.account_policy[index].provider == provider && self.account_policy[index].account == *account {
                return Some(index);
            }
            index = index + 1;
        }
        None
    }

    /// Records a binding, replacing the binding of the same account; returns
    /// the marker of the commit.
    pub fn put_account(&mut self, binding: AccountBinding) -> (marker: DatabaseMarker)
        requires
            old(self).wf(),
            old(self).can_commit(),
        ensures
            final(self).wf(),
            final(self)@.accounts == registered(old(self)@.accounts, binding@),
            final(self)@.plans == old(self)@.plans,
            final(self)@.commit_sequence == old(self)@.commit_sequence + 1,
            marker == marker_for(final(self)@.commit_sequence),
    {
        let commit_sequence = self.next_commit_sequence();
        let ghost before = self@.accounts;
        let ghost entry = binding@;
        match self.account_position(binding.provider, &binding.account) {
            Some(index) => {
                self.account_policy.set(index, binding);
                proof {
                    assert forall|i: int| 0 <= i < before.len() && i != index implies !same_account(
                        #[trigger] before[i],
                        entry.provider,
                        entry.account,
                    ) by {
                        assert(!same_account(before[i], before[index as int].provider, before[index as int].account));
                    }
                    assert(self@.accounts =~= registered(before, entry));
                }
            },
            None => {
                self.account_policy.push(binding);
                assert(self@.accounts =~= before.push(entry));
            },
        }
        DatabaseMarker { commit_sequence, state_digest: commit_sequence }
    }

    /// Replaces the credential handle of an account. The commit sequence
    /// advances either way; the marker comes back only when the account
    /// exists.
    pub fn rotate_credential(&mut self, provider: Provider, provider_account: &String, credential_handle: String) -> (marker: Option<DatabaseMarker>)
        requires
            old(self).wf(),
            old(self).can_commit(),
        ensures
            final(self).wf(),
            final(self)@.plans == old(self)@.plans,
            final(self)@.commit_sequence == old(self)@.commit_sequence + 1,
            if has_account(old(self)@.accounts, provider, provider_account@) {
                &&& marker == Some(marker_for(final(self)@.commit_sequence))
                &&& final(self)@.accounts == rotated(old(self)@.accounts, provider, provider_account@, credential_handle@)
            } else {
                &&& marker is None
                &&& final(self)@.accounts == old(self)@.accounts
            },
    {
        let commit_sequence = self.next_commit_sequence();
        let ghost before = self@.accounts;
        match self.account_position(provider, provider_account) {
            Some(index) => {
                let binding = AccountBinding {
                    provider,
                    account: provider_account.clone(),
                    credential: credential_handle,
                };
                let ghost entry = binding@;
                self.account_policy.set(index, binding);
                proof {
                    assert forall|i: int| 0 <= i < before.len() && i != index implies !same_account(
                        #[trigger] before[i],
                        provider,
                        provider_account@,
                    ) by {
                        assert(!same_account(before[i], before[index as int].provider, before[index as int].account));
                    }
                    assert(self@.accounts =~= rotated(before, provider, provider_account@, entry.credential));
                }
                Some(DatabaseMarker { commit_sequence, state_digest: commit_sequence })
            },
            None => None,
        }
    }

    /// Removes an account. The commit sequence advances either way; the
    /// marker comes back only when an account was removed.
    pub fn retire_account(&mut self, provider: Provider, provider_account: &String) -> (marker: Option<DatabaseMarker>)
        requires
            old(self).wf(),
            old(self).can_commit(),
        ensures
            final(self).wf(),
            final(self)@.plans == old(self)@.plans,
            final(self)@.commit_sequence == old(self)@.commit_sequence + 1,
            final(self)@.accounts == retired(old(self)@.accounts, provider, provider_account@),
            marker == if has_account(old(self)@.accounts, provider, provider_account@) {
                Some(marker_for(final(self)@.commit_sequence))
            } else {
                None::<DatabaseMarker>
            },
    {
        let commit_sequence = self.next_commit_sequence();
        let ghost before = self@.accounts;
        let present = match self.account_position(provider, provider_account) {
            Some(_) => true,
            None => false,
        };
        let mut kept: Vec<AccountBinding> = Vec::new();
        let mut remaining: Vec<AccountBinding> = Vec::new();
        core::mem::swap(&mut remaining, &mut self.account_policy);
        let ghost mut taken: int = 0;
        while remaining.len() > 0
            invariant
                0 <= taken <= before.len(),
                taken + remaining.len() == before.len(),
                forall|i: int| 0 <= i < remaining.len() ==> #[trigger] remaining@[i]@ == before[taken + i],
                kept.deep_view() == retired(before.take(taken), provider, provider_account@),
            decreases remaining.len(),
        {
            let binding = remaining.remove(0);
            proof {
                let next = before.take(taken + 1);
                assert(next.drop_last() =~= before.take(taken));
                assert(next.last() == binding@);
            }
            if !(binding.provider == provider && binding.account == *provider_account) {
                kept.push(binding);
            }
            proof {
                taken = taken + 1;
                assert(kept.deep_view() =~= retired(before.take(taken), provider, provider_account@));
            }
        }
        assert(before.take(taken) =~= before);
        self.account_policy = kept;
        proof {
            lemma_retired_is_subsequence(before, provider, provider_account@);
        }
        if present {
            Some(DatabaseMarker { commit_sequence, state_digest: commit_sequence })
        } else {
            None
        }
    }

    fn plan_position(&self, identifier: &String) -> (found: Option<usize>)
        ensures
            match found {
                Some(index) => has_stored_plan(self@.plans, identifier@) && index as int == first_stored_plan(
                    self@.plans,
                    identifier@,
                ) && index < self@.plans.len(),
                None => !has_stored_plan(self@.plans, identifier@),
            },
    {
        let ghost view = self@.plans;
        let mut index: usize = 0;
        while index < self.plans.len()
            invariant
                view == self@.plans,
                view.len() == self.plans.len(),
                index <= self.plans.len(),
                forall|j: int| 0 <= j < index ==> (#[trigger] view[j]).plan.identifier != identifier@,
            decreases self.plans.len() - index,
        {
            assert(self.plans@[index as int].deep_view() == view[index as int]);
            if self.plans[index].plan.identifier == *identifier {
                proof {
                    assert(view[index as int].plan.identifier == identifier@);
                    let i = first_stored_plan(view, identifier@);
                    assert(i == index) by {
                        if i > index {
                            assert(view[index as int].plan.identifier == identifier@);
                        }
                    }
                }
                return Some(index);
            }
            index = index + 1;
        }
        None
    }

    /// Stores a plan, replacing the first plan with its identifier.
    pub fn put_plan(&mut self, plan: StoredPlan) -> (marker: DatabaseMarker)
        requires
            old(self).wf(),
            old(self).can_commit(),
        ensures
            final(self).wf(),
            final(self)@.accounts == old(self)@.accounts,
            final(self)@.plans == with_stored_plan(old(self)@.plans, plan.deep_view()),
            final(self)@.commit_sequence == old(self)@.commit_sequence + 1,
            marker == marker_for(final(self)@.commit_sequence),
    {
        let commit_sequence = self.next_commit_sequence();
        let ghost before = self@.plans;
        let ghost entry = plan.deep_view();
        match self.plan_position(&plan.plan.identifier) {
            Some(index) => {
                self.plans.set(index, plan);
                assert(self@.plans =~= before.update(index as int, entry));
            },
            None => {
                self.plans.push(plan);
                assert(self@.plans =~= before.push(entry));
            },
        }
        DatabaseMarker { commit_sequence, state_digest: commit_sequence }
    }

    /// The first stored plan with the identifier.
    pub fn plan(&self, identifier: &String) -> (found: Option<&StoredPlan>)
        ensures
            match found {
                Some(stored) => has_stored_plan(self@.plans, identifier@) && stored.deep_view() == self@.plans[first_stored_plan(
                    self@.plans,
                    identifier@,
                )],
                None => !has_stored_plan(self@.plans, identifier@),
            },
    {
        match self.plan_position(identifier) {
            Some(index) => Some(&self.plans[index]),
            None => None,
        }
    }

    /// Approves the first plan with the identifier. The commit sequence
    /// advances either way; the marker comes back only when the plan exists.
    pub fn approve_plan(&mut self, identifier: &String) -> (marker: Option<DatabaseMarker>)
        requires
            old(self).wf(),
            old(self).can_commit(),
        ensures
            final(self).wf(),
            final(self)@.accounts == old(self)@.accounts,
            final(self)@.commit_sequence == old(self)@.commit_sequence + 1,
            if has_stored_plan(old(self)@.plans, identifier@) {
                let index = first_stored_plan(old(self)@.plans, identifier@);
                &&& marker == Some(marker_for(final(self)@.commit_sequence))
                &&& final(self)@.plans == old(self)@.plans.update(
                    index,
                    StoredPlanView { approved: true, ..old(self)@.plans[index] },
                )
            } else {
                &&& marker is None
                &&& final(self)@.plans == old(self)@.plans
            },
    {
        let commit_sequence = self.next_commit_sequence();
        let ghost before = self@.plans;
        match self.plan_position(identifier) {
            Some(index) => {
                assert(self.plans@[index as int].deep_view() == before[index as int]);
                let stored = StoredPlan { plan: self.plans[index].plan.clone(), approved: true };
                self.plans.set(index, stored);
                assert(self@.plans =~= before.update(
                    index as int,
                    StoredPlanView { approved: true, ..before[index as int] },
                ));
                Some(DatabaseMarker { commit_sequence, state_digest: commit_sequence })
            },
            None => None,
        }
    }
}

} // verus!
