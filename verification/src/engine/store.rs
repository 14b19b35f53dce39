//! The owner engine's store: registered accounts with their credential
//! handles and policy, prepared plans with their approval and application
//! bits, a plan counter that names new plans, and a commit sequence that every
//! accepted write advances.
use vstd::prelude::*;

use crate::engine::ActorLifecycle;
use crate::projection::{lowered_record, lowered_redirect, DomainProjection, ProjectedRecordView, ProjectedRedirectView};
use crate::vocabulary::{
    clone_records, clone_redirects, CapabilityPolicy, DesiredState, MetaRejectionReason, Plan, PlanView, Policy, ProjectionPreparation,
    Provider, RecordView, RedirectView, Registration, RejectionReason, Reply, RequestUnsupported, Retirement,
    Rotation, UnsupportedReason, Operation, Observation, ZonePolicyView,
};

verus! {

/// The store's commit marker: the commit sequence and a digest of its size.
#[derive(Clone, Copy, Debug, PartialEq, Eq, Structural)]
pub struct DatabaseMarker {
    pub commit_sequence: u64,
    pub state_digest: u64,
}

/// A refused write or read, with the marker of the store that refused it.
#[derive(Clone, Copy, Debug, PartialEq, Eq, Structural)]
pub struct RejectionReport {
    pub reason: MetaRejectionReason,
    pub marker: DatabaseMarker,
}

/// A registered account. Credentials are held by handle only.
struct AccountRecord {
    provider: Provider,
    account: String,
    credential: String,
    policy: Option<Policy>,
}

pub struct AccountRecordView {
    pub provider: Provider,
    pub account: Seq<char>,
    pub credential: Seq<char>,
    /// The zone and capability policy attached to the account.
    pub policy: Option<(Seq<ZonePolicyView>, Seq<CapabilityPolicy>)>,
}

impl DeepView for AccountRecord {
    type V = AccountRecordView;

    closed spec fn deep_view(&self) -> AccountRecordView {
        AccountRecordView {
            provider: self.provider,
            account: self.account@,
            credential: self.credential@,
            policy: match self.policy {
                Some(policy) => Some((policy.zones.deep_view(), policy.capabilities@)),
                None => None,
            },
        }
    }
}

/// A prepared plan and its lifecycle bits.
struct PlanRecord {
    plan: Plan,
    approved: bool,
    applied: bool,
}

pub struct PlanRecordView {
    pub plan: PlanView,
    pub approved: bool,
    pub applied: bool,
}

impl DeepView for PlanRecord {
    type V = PlanRecordView;

    closed spec fn deep_view(&self) -> PlanRecordView {
        PlanRecordView { plan: self.plan@, approved: self.approved, applied: self.applied }
    }
}

pub struct StoreView {
    pub accounts: Seq<AccountRecordView>,
    pub plans: Seq<PlanRecordView>,
    pub next_plan_ordinal: u64,
    pub commit_sequence: u64,
}

/// One owner write.
#[derive(Debug, PartialEq, Eq)]
pub enum SemaWriteInput {
    RegisterAccount(Registration),
    RotateCredential(Rotation),
    SetPolicy(Policy),
    PreparePlan(DesiredState),
    PrepareProjection(ProjectionPreparation),
    ApprovePlan(String),
    ApplyPlan(String),
    RetireAccount(Retirement),
}

/// What a write did, or the report of why it did nothing.
#[derive(Debug, PartialEq, Eq)]
pub enum SemaWriteOutput {
    AccountRegistered { provider: Provider, account: String },
    CredentialRotated { provider: Provider, account: String },
    PolicySet { capability_policy_count: u64, zone_policy_count: u64 },
    PlanPrepared(Plan),
    PlanApproved(String),
    PlanApplied(String),
    AccountRetired { provider: Provider, account: String },
    Missed(RejectionReport),
}

/// One owner read.
#[derive(Debug, PartialEq, Eq)]
pub enum SemaReadInput {
    ObservePlan(String),
}

#[derive(Debug, PartialEq, Eq)]
pub enum SemaReadOutput {
    PlanObserved { plan: Plan, marker: DatabaseMarker },
    Missed(RejectionReport),
}

/// The read-only requests the working contract sends to the store.
#[derive(Debug, PartialEq, Eq)]
pub enum WorkingReadInput {
    ObservePlan(String),
    Validate(DesiredState),
    Observe(Observation),
}

#[derive(Debug, PartialEq, Eq)]
pub enum WorkingReadOutput {
    Validated(Vec<crate::vocabulary::ValidationFinding>),
    Missed(String),
}

// ------------------------------------------------------------ spec model

pub open spec fn same_key(record: AccountRecordView, provider: Provider, account: Seq<char>) -> bool {
    record.provider == provider && record.account == account
}

pub open spec fn has_record(accounts: Seq<AccountRecordView>, provider: Provider, account: Seq<char>) -> bool {
    exists|i: int| 0 <= i < accounts.len() && same_key(#[trigger] accounts[i], provider, account)
}

/// The position of the record of an account.
pub open spec fn record_index(accounts: Seq<AccountRecordView>, provider: Provider, account: Seq<char>) -> int {
    choose|i: int| 0 <= i < accounts.len() && same_key(#[trigger] accounts[i], provider, account)
}

/// One record per account.
pub open spec fn unique_accounts(accounts: Seq<AccountRecordView>) -> bool {
    forall|i: int, j: int|
        0 <= i < accounts.len() && 0 <= j < accounts.len() && i != j ==> !same_key(
            #[trigger] accounts[i],
            accounts[j].provider,
            #[trigger] accounts[j].account,
        )
}

pub open spec fn has_plan_record(plans: Seq<PlanRecordView>, identifier: Seq<char>) -> bool {
    exists|i: int| 0 <= i < plans.len() && (#[trigger] plans[i]).plan.identifier == identifier
}

pub open spec fn plan_index(plans: Seq<PlanRecordView>, identifier: Seq<char>) -> int {
    choose|i: int| 0 <= i < plans.len() && (#[trigger] plans[i]).plan.identifier == identifier
}

/// One record per plan identifier.
pub open spec fn unique_plans(plans: Seq<PlanRecordView>) -> bool {
    forall|i: int, j: int|
        0 <= i < plans.len() && 0 <= j < plans.len() && i != j ==> (#[trigger] plans[i]).plan.identifier
            != (#[trigger] plans[j]).plan.identifier
}

/// The accounts after recording `record`: it replaces the record of its
/// account, or is added.
pub open spec fn with_record(accounts: Seq<AccountRecordView>, record: AccountRecordView) -> Seq<AccountRecordView> {
    if has_record(accounts, record.provider, record.account) {
        accounts.update(record_index(accounts, record.provider, record.account), record)
    } else {
        accounts.push(record)
    }
}

/// The plans after recording `record`: it replaces the plan of its
/// identifier, or is added.
pub open spec fn with_plan_record(plans: Seq<PlanRecordView>, record: PlanRecordView) -> Seq<PlanRecordView> {
    if has_plan_record(plans, record.plan.identifier) {
        plans.update(plan_index(plans, record.plan.identifier), record)
    } else {
        plans.push(record)
    }
}

pub open spec fn next_commit(sequence: u64) -> u64 {
    vstd::wrapping::u64_specs::wrapping_add(sequence, 1)
}

/// The digest of a store of that many accounts and plans.
pub open spec fn digest_of(accounts: nat, plans: nat) -> u64 {
    vstd::wrapping::u64_specs::wrapping_add(
        vstd::wrapping::u64_specs::wrapping_mul(accounts as u64, 1_000_003),
        plans as u64,
    )
}

pub open spec fn marker_of(store: StoreView) -> DatabaseMarker {
    DatabaseMarker {
        commit_sequence: store.commit_sequence,
        state_digest: digest_of(store.accounts.len(), store.plans.len()),
    }
}

pub open spec fn report_of(store: StoreView, reason: MetaRejectionReason) -> RejectionReport {
    RejectionReport { reason, marker: marker_of(store) }
}

/// The text of a decimal digit.
pub open spec fn digit_text(digit: nat) -> Seq<char> {
    if digit == 0 {
        "0"@
    } else if digit == 1 {
        "1"@
    } else if digit == 2 {
        "2"@
    } else if digit == 3 {
        "3"@
    } else if digit == 4 {
        "4"@
    } else if digit == 5 {
        "5"@
    } else if digit == 6 {
        "6"@
    } else if digit == 7 {
        "7"@
    } else if digit == 8 {
        "8"@
    } else {
        "9"@
    }
}

/// The decimal numeral of a number, without leading zeros.
pub open spec fn decimal_text(number: nat) -> Seq<char>
    decreases number,
{
    if number < 10 {
        digit_text(number)
    } else {
        decimal_text(number / 10) + digit_text(number % 10)
    }
}

/// Each digit's numeral is the one character whose code is 48 plus the
/// digit, `0` to `9`.
pub proof fn digit_numerals_are_ascii(digit: nat)
    requires
        digit < 10,
    ensures
        digit_text(digit).len() == 1,
        digit_text(digit)[0] as u32 == 48 + digit,
{
    reveal_strlit("0");
    reveal_strlit("1");
    reveal_strlit("2");
    reveal_strlit("3");
    reveal_strlit("4");
    reveal_strlit("5");
    reveal_strlit("6");
    reveal_strlit("7");
    reveal_strlit("8");
    reveal_strlit("9");
}

/// A numeral is one digit below ten and at least two digits from ten on.
proof fn lemma_decimal_length(number: nat)
    ensures
        number < 10 ==> decimal_text(number).len() == 1,
        number >= 10 ==> decimal_text(number).len() >= 2,
    decreases number,
{
    if number < 10 {
        digit_numerals_are_ascii(number);
    } else {
        lemma_decimal_length(number / 10);
        digit_numerals_are_ascii(number % 10);
    }
}

/// Distinct numbers have distinct numerals.
pub proof fn decimal_text_is_injective(first: nat, second: nat)
    ensures
        decimal_text(first) == decimal_text(second) ==> first == second,
    decreases first + second,
{
    if decimal_text(first) == decimal_text(second) {
        lemma_decimal_length(first);
        lemma_decimal_length(second);
        if first < 10 && second < 10 {
            digit_numerals_are_ascii(first);
            digit_numerals_are_ascii(second);
            assert(decimal_text(first)[0] == decimal_text(second)[0]);
        } else if first >= 10 && second >= 10 {
            let a = decimal_text(first / 10);
            let b = decimal_text(second / 10);
            let x = digit_text(first % 10);
            let y = digit_text(second % 10);
            digit_numerals_are_ascii(first % 10);
            digit_numerals_are_ascii(second % 10);
            assert(decimal_text(first) == a + x);
            assert(decimal_text(second) == b + y);
            assert((a + x).last() == x[0]);
            assert((b + y).last() == y[0]);
            assert(first % 10 == second % 10);
            assert((a + x).drop_last() =~= a);
            assert((b + y).drop_last() =~= b);
            decimal_text_is_injective(first / 10, second / 10);
            assert(first == 10 * (first / 10) + first % 10);
            assert(second == 10 * (second / 10) + second % 10);
        }
    }
}

/// Plans minted with distinct ordinals get distinct identifiers.
pub proof fn minted_identifiers_are_distinct(first: u64, second: u64)
    ensures
        first != second ==> minted_identifier(first) != minted_identifier(second),
{
    if minted_identifier(first) == minted_identifier(second) {
        let prefix = "plan-"@;
        let a = decimal_text(first as nat);
        let b = decimal_text(second as nat);
        assert((prefix + a).subrange(prefix.len() as int, (prefix + a).len() as int) =~= a);
        assert((prefix + b).subrange(prefix.len() as int, (prefix + b).len() as int) =~= b);
        decimal_text_is_injective(first as nat, second as nat);
    }
}

/// The identifier of the plan minted with an ordinal.
pub open spec fn minted_identifier(ordinal: u64) -> Seq<char> {
    "plan-"@ + decimal_text(ordinal as nat)
}

/// The plan the store prepares: everything desired is created.
pub open spec fn generated_plan(
    identifier: Seq<char>,
    provider: Provider,
    zone: Seq<char>,
    records: Seq<RecordView>,
    redirects: Seq<RedirectView>,
) -> PlanView {
    PlanView {
        identifier,
        provider,
        zone,
        records_to_create: records,
        records_to_update: Seq::empty(),
        record_names_to_delete: Seq::empty(),
        redirects_to_create: redirects,
        redirects_to_update: Seq::empty(),
        redirect_sources_to_delete: Seq::empty(),
    }
}

/// What preparing a plan for a desired state does.
pub open spec fn preparation_outcome(
    before: StoreView,
    after: StoreView,
    provider: Provider,
    zone: Seq<char>,
    records: Seq<RecordView>,
    redirects: Seq<RedirectView>,
    output: SemaWriteOutput,
) -> bool {
    let ordinal = vstd::wrapping::u64_specs::wrapping_add(before.next_plan_ordinal, 1);
    let planned = generated_plan(minted_identifier(ordinal), provider, zone, records, redirects);
    &&& after.accounts == before.accounts
    &&& after.plans == with_plan_record(before.plans, PlanRecordView { plan: planned, approved: false, applied: false })
    &&& after.next_plan_ordinal == ordinal
    &&& after.commit_sequence == next_commit(before.commit_sequence)
    &&& output matches SemaWriteOutput::PlanPrepared(plan) && plan@ == planned
}

/// What one write does to the store and answers.
pub open spec fn write_outcome(before: StoreView, after: StoreView, input: SemaWriteInput, output: SemaWriteOutput) -> bool {
    let bumped = next_commit(before.commit_sequence);
    let unchanged = after == before;
    match input {
        SemaWriteInput::RegisterAccount(registration) => {
            &&& after.accounts == with_record(
                before.accounts,
                AccountRecordView {
                    provider: registration.provider,
                    account: registration.account@,
                    credential: registration.credential@,
                    policy: None,
                },
            )
            &&& after.plans == before.plans
            &&& after.next_plan_ordinal == before.next_plan_ordinal
            &&& after.commit_sequence == bumped
            &&& output matches SemaWriteOutput::AccountRegistered { provider, account } && provider
                == registration.provider && account@ == registration.account@
        },
        SemaWriteInput::RotateCredential(rotation) => if has_record(
            before.accounts,
            rotation.provider,
            rotation.account@,
        ) {
            let index = record_index(before.accounts, rotation.provider, rotation.account@);
            &&& after.accounts == before.accounts.update(
                index,
                AccountRecordView { credential: rotation.credential@, ..before.accounts[index] },
            )
            &&& after.plans == before.plans
            &&& after.next_plan_ordinal == before.next_plan_ordinal
            &&& after.commit_sequence == bumped
            &&& output matches SemaWriteOutput::CredentialRotated { provider, account } && provider
                == rotation.provider && account@ == rotation.account@
        } else {
            unchanged && output == SemaWriteOutput::Missed(report_of(before, MetaRejectionReason::AccountUnknown))
        },
        SemaWriteInput::SetPolicy(policy) => {
            let attached = (policy.zones.deep_view(), policy.capabilities@);
            &&& after.accounts == if before.accounts.len() > 0 {
                before.accounts.update(0, AccountRecordView { policy: Some(attached), ..before.accounts[0] })
            } else {
                before.accounts
            }
            &&& after.plans == before.plans
            &&& after.next_plan_ordinal == before.next_plan_ordinal
            &&& after.commit_sequence == bumped
            &&& output == SemaWriteOutput::PolicySet {
                capability_policy_count: policy.capabilities.len() as u64,
                zone_policy_count: policy.zones.len() as u64,
            }
        },
        SemaWriteInput::PreparePlan(desired) => preparation_outcome(
            before,
            after,
            desired.provider,
            desired.zone@,
            desired.records.deep_view(),
            desired.redirects.deep_view(),
            output,
        ),
        SemaWriteInput::PrepareProjection(preparation) => preparation_outcome(
            before,
            after,
            preparation.provider,
            preparation.projection.domain@,
            preparation.projection.records.deep_view().map_values(|record: ProjectedRecordView| lowered_record(record)),
            preparation.projection.redirects.deep_view().map_values(
                |redirect: ProjectedRedirectView| lowered_redirect(redirect),
            ),
            output,
        ),
        SemaWriteInput::ApprovePlan(identifier) => if has_plan_record(before.plans, identifier@) {
            let index = plan_index(before.plans, identifier@);
            &&& after.accounts == before.accounts
            &&& after.plans == before.plans.update(index, PlanRecordView { approved: true, ..before.plans[index] })
            &&& after.next_plan_ordinal == before.next_plan_ordinal
            &&& after.commit_sequence == bumped
            &&& output matches SemaWriteOutput::PlanApproved(approved) && approved@ == identifier@
        } else {
            unchanged && output == SemaWriteOutput::Missed(report_of(before, MetaRejectionReason::PlanUnknown))
        },
        SemaWriteInput::ApplyPlan(identifier) => if !has_plan_record(before.plans, identifier@) {
            unchanged && output == SemaWriteOutput::Missed(report_of(before, MetaRejectionReason::PlanUnknown))
        } else if !before.plans[plan_index(before.plans, identifier@)].approved {
            unchanged && output == SemaWriteOutput::Missed(report_of(before, MetaRejectionReason::PlanNotApproved))
        } else {
            let index = plan_index(before.plans, identifier@);
            &&& after.accounts == before.accounts
            &&& after.plans == before.plans.update(index, PlanRecordView { applied: true, ..before.plans[index] })
            &&& after.next_plan_ordinal == before.next_plan_ordinal
            &&& after.commit_sequence == bumped
            &&& output matches SemaWriteOutput::PlanApplied(applied) && applied@ == identifier@
        },
        SemaWriteInput::RetireAccount(retirement) => {
            &&& after.accounts == if has_record(before.accounts, retirement.provider, retirement.account@) {
                before.accounts.remove(record_index(before.accounts, retirement.provider, retirement.account@))
            } else {
                before.accounts
            }
            &&& after.plans == before.plans
            &&& after.next_plan_ordinal == before.next_plan_ordinal
            &&& after.commit_sequence == bumped
            &&& output matches SemaWriteOutput::AccountRetired { provider, account } && provider
                == retirement.provider && account@ == retirement.account@
        },
    }
}

// ------------------------------------------------------------------ store

/// The in-memory owner store.
pub struct Store {
    accounts: Vec<AccountRecord>,
    plans: Vec<PlanRecord>,
    next_plan_ordinal: u64,
    commit_sequence: u64,
    lifecycle: ActorLifecycle,
}

impl View for Store {
    type V = StoreView;

    closed spec fn view(&self) -> StoreView {
        StoreView {
            accounts: self.accounts.deep_view(),
            plans: self.plans.deep_view(),
            next_plan_ordinal: self.next_plan_ordinal,
            commit_sequence: self.commit_sequence,
        }
    }
}

/// The text of a digit below ten.
fn digit_str(digit: u64) -> (text: &'static str)
    requires
        digit < 10,
    ensures
        text@ == digit_text(digit as nat),
        text@.len() == 1,
        text@[0] as u32 == 48 + digit,
{
    proof {
        digit_numerals_are_ascii(digit as nat);
    }
    if digit == 0 {
        "0"
    } else if digit == 1 {
        "1"
    } else if digit == 2 {
        "2"
    } else if digit == 3 {
        "3"
    } else if digit == 4 {
        "4"
    } else if digit == 5 {
        "5"
    } else if digit == 6 {
        "6"
    } else if digit == 7 {
        "7"
    } else if digit == 8 {
        "8"
    } else {
        "9"
    }
}

/// Appends the decimal numeral of a number.
pub fn append_decimal(text: &mut String, number: u64)
    ensures
        final(text)@ == old(text)@ + decimal_text(number as nat),
    decreases number,
{
    if number >= 10 {
        append_decimal(text, number / 10);
    }
    text.append(digit_str(number % 10));
    proof {
        if number >= 10 {
            assert(old(text)@ + decimal_text((number / 10) as nat) + digit_text((number % 10) as nat) =~= old(text)@
                + decimal_text(number as nat));
        }
    }
}

impl Store {
    /// One record per account and per plan identifier.
    pub open spec fn wf(&self) -> bool {
        &&& unique_accounts(self@.accounts)
        &&& unique_plans(self@.plans)
    }

    pub closed spec fn lifecycle_state(&self) -> ActorLifecycle {
        self.lifecycle
    }

    pub fn new() -> (store: Self)
        ensures
            store.wf(),
            store@.accounts.len() == 0,
            store@.plans.len() == 0,
            store@.next_plan_ordinal == 0,
            store@.commit_sequence == 0,
    {
        let store = Store {
            accounts: Vec::new(),
            plans: Vec::new(),
            next_plan_ordinal: 0,
            commit_sequence: 0,
            lifecycle: ActorLifecycle::new(),
        };
        assert(store@.accounts =~= Seq::<AccountRecordView>::empty());
        assert(store@.plans =~= Seq::<PlanRecordView>::empty());
        store
    }

    /// The commit marker: the commit sequence and the size digest.
    pub fn database_marker(&self) -> (marker: DatabaseMarker)
        ensures
            marker == marker_of(self@),
    {
        DatabaseMarker { commit_sequence: self.commit_sequence, state_digest: self.state_digest() }
    }

    fn state_digest(&self) -> (digest: u64)
        ensures
            digest == digest_of(self@.accounts.len(), self@.plans.len()),
    {
        let accounts = self.accounts.len() as u64;
        let plans = self.plans.len() as u64;
        accounts.wrapping_mul(1_000_003).wrapping_add(plans)
    }

    fn advance_commit(&mut self)
        ensures
            final(self)@ == (StoreView { commit_sequence: next_commit(old(self)@.commit_sequence), ..old(self)@ }),
            final(self).lifecycle_state() == old(self).lifecycle_state(),
    {
        self.commit_sequence = self.commit_sequence.wrapping_add(1);
    }

    fn rejection(&self, reason: MetaRejectionReason) -> (report: RejectionReport)
        ensures
            report == report_of(self@, reason),
    {
        RejectionReport { reason, marker: self.database_marker() }
    }

    /// The position of an account's record.
    fn account_position(&self, provider: Provider, account: &String) -> (found: Option<usize>)
        requires
            self.wf(),
        ensures
            match found {
                Some(index) => has_record(self@.accounts, provider, account@) && index as int == record_index(
                    self@.accounts,
                    provider,
                    account@,
                ) && index < self@.accounts.len(),
                None => !has_record(self@.accounts, provider, account@),
            },
    {
        let ghost view = self@.accounts;
        let mut index: usize = 0;
        while index < self.accounts.len()
            invariant
                self.wf(),
                view == self@.accounts,
                view.len() == self.accounts.len(),
                index <= self.accounts.len(),
                forall|j: int| 0 <= j < index ==> !same_key(#[trigger] view[j], provider, account@),
            decreases self.accounts.len() - index,
        {
            assert(self.accounts@[index as int].deep_view() == view[index as int]);
            if self.accounts[index].provider == provider && self.accounts[index].account == *account {
                proof {
                    let i = record_index(view, provider, account@);
                    assert(same_key(view[index as int], provider, account@));
                    if i != index {
                        assert(!same_key(view[i], view[index as int].provider, view[index as int].account));
                    }
                }
                return Some(index);
            }
            index = index + 1;
        }
        None
    }

    /// The record of an account, or `AccountUnknown`.
    fn require_account(&self, provider: Provider, account: &String) -> (found: Result<(), MetaRejectionReason>)
        requires
            self.wf(),
        ensures
            match found {
                Ok(()) => has_record(self@.accounts, provider, account@),
                Err(reason) => !has_record(self@.accounts, provider, account@) && reason
                    == MetaRejectionReason::AccountUnknown,
            },
    {
        match self.account_position(provider, account) {
            Some(_) => Ok(()),
            None => Err(MetaRejectionReason::AccountUnknown),
        }
    }

    /// The position of a plan's record.
    fn plan_position(&self, identifier: &String) -> (found: Option<usize>)
        requires
            self.wf(),
        ensures
            match found {
                Some(index) => has_plan_record(self@.plans, identifier@) && index as int == plan_index(
                    self@.plans,
                    identifier@,
                ) && index < self@.plans.len(),
                None => !has_plan_record(self@.plans, identifier@),
            },
    {
        let ghost view = self@.plans;
        let mut index: usize = 0;
        while index < self.plans.len()
            invariant
                self.wf(),
                view == self@.plans,
                view.len() == self.plans.len(),
                index <= self.plans.len(),
                forall|j: int| 0 <= j < index ==> (#[trigger] view[j]).plan.identifier != identifier@,
            decreases self.plans.len() - index,
        {
            assert(self.plans@[index as int].deep_view() == view[index as int]);
            if self.plans[index].plan.identifier == *identifier {
                proof {
                    let i = plan_index(view, identifier@);
                    assert(view[index as int].plan.identifier == identifier@);
                    if i != index {
                        assert(view[i].plan.identifier != view[index as int].plan.identifier);
                    }
                }
                return Some(index);
            }
            index = index + 1;
        }
        None
    }

    /// A copy of the plan with the identifier, if one was prepared.
    pub fn plan(&self, identifier: &String) -> (found: Option<Plan>)
        requires
            self.wf(),
        ensures
            match found {
                Some(plan) => has_plan_record(self@.plans, identifier@) && plan@ == self@.plans[plan_index(
                    self@.plans,
                    identifier@,
                )].plan,
                None => !has_plan_record(self@.plans, identifier@),
            },
    {
        match self.plan_position(identifier) {
            Some(index) => {
                assert(self.plans@[index as int].deep_view() == self@.plans[index as int]);
                Some(self.plans[index].plan.clone())
            },
            None => None,
        }
    }

    /// Whether the plan with the identifier is approved; an unknown plan is
    /// not.
    pub fn plan_is_approved(&self, identifier: &String) -> (approved: bool)
        requires
            self.wf(),
        ensures
            approved == (has_plan_record(self@.plans, identifier@) && self@.plans[plan_index(
                self@.plans,
                identifier@,
            )].approved),
    {
        match self.plan_position(identifier) {
            Some(index) => {
                assert(self.plans@[index as int].deep_view() == self@.plans[index as int]);
                self.plans[index].approved
            },
            None => false,
        }
    }

    /// Names the next plan: advances the plan counter and returns
    /// `plan-<counter>`.
    fn mint_plan_identifier(&mut self) -> (identifier: String)
        ensures
            final(self)@ == (StoreView {
                next_plan_ordinal: vstd::wrapping::u64_specs::wrapping_add(old(self)@.next_plan_ordinal, 1),
                ..old(self)@
            }),
            final(self).lifecycle_state() == old(self).lifecycle_state(),
            identifier@ == minted_identifier(final(self)@.next_plan_ordinal),
    {
        self.next_plan_ordinal = self.next_plan_ordinal.wrapping_add(1);
        let mut identifier = String::new();
        identifier.append("plan-");
        append_decimal(&mut identifier, self.next_plan_ordinal);
        proof {
            reveal_strlit("plan-");
        }
        identifier
    }
}

impl Store {
    /// Records an account, replacing the record of the same account.
    fn put_account(&mut self, record: AccountRecord)
        requires
            old(self).wf(),
        ensures
            final(self).wf(),
            final(self)@ == (StoreView {
                accounts: with_record(old(self)@.accounts, record.deep_view()),
                ..old(self)@
            }),
            final(self).lifecycle_state() == old(self).lifecycle_state(),
    {
        let ghost before = self@.accounts;
        let ghost entry = record.deep_view();
        match self.account_position(record.provider, &record.account) {
            Some(index) => {
                self.accounts.set(index, record);
                proof {
                    assert(self@.accounts =~= before.update(index as int, entry));
                    assert forall|i: int, j: int|
                        0 <= i < self@.accounts.len() && 0 <= j < self@.accounts.len() && i != j implies !same_key(
                        #[trigger] self@.accounts[i],
                        self@.accounts[j].provider,
                        #[trigger] self@.accounts[j].account,
                    ) by {
                        if i == index {
                            assert(!same_key(before[j], before[index as int].provider, before[index as int].account));
                        } else if j == index {
                            assert(!same_key(before[i], before[index as int].provider, before[index as int].account));
                        } else {
                            assert(!same_key(before[i], before[j].provider, before[j].account));
                        }
                    }
                }
            },
            None => {
                self.accounts.push(record);
                proof {
                    assert(self@.accounts =~= before.push(entry));
                    assert forall|i: int, j: int|
                        0 <= i < self@.accounts.len() && 0 <= j < self@.accounts.len() && i != j implies !same_key(
                        #[trigger] self@.accounts[i],
                        self@.accounts[j].provider,
                        #[trigger] self@.accounts[j].account,
                    ) by {
                        if i == before.len() {
                            if same_key(self@.accounts[i], self@.accounts[j].provider, self@.accounts[j].account) {
                                assert(same_key(before[j], entry.provider, entry.account));
                            }
                        } else if j == before.len() {
                            if same_key(self@.accounts[i], self@.accounts[j].provider, self@.accounts[j].account) {
                                assert(same_key(before[i], entry.provider, entry.account));
                            }
                        } else {
                            assert(!same_key(before[i], before[j].provider, before[j].account));
                        }
                    }
                }
            },
        }
    }

    /// Records a plan, replacing the record of the same identifier.
    fn put_plan(&mut self, record: PlanRecord)
        requires
            old(self).wf(),
        ensures
            final(self).wf(),
            final(self)@ == (StoreView { plans: with_plan_record(old(self)@.plans, record.deep_view()), ..old(self)@ }),
            final(self).lifecycle_state() == old(self).lifecycle_state(),
    {
        let ghost before = self@.plans;
        let ghost entry = record.deep_view();
        match self.plan_position(&record.plan.identifier) {
            Some(index) => {
                self.plans.set(index, record);
                proof {
                    assert(self@.plans =~= before.update(index as int, entry));
                    assert forall|i: int, j: int|
                        0 <= i < self@.plans.len() && 0 <= j < self@.plans.len() && i != j implies (
                        #[trigger] self@.plans[i]).plan.identifier != (#[trigger] self@.plans[j]).plan.identifier by {
                        if i == index {
                            assert(before[j].plan.identifier != before[index as int].plan.identifier);
                        } else if j == index {
                            assert(before[i].plan.identifier != before[index as int].plan.identifier);
                        } else {
                            assert(before[i].plan.identifier != before[j].plan.identifier);
                        }
                    }
                }
            },
            None => {
                self.plans.push(record);
                proof {
                    assert(self@.plans =~= before.push(entry));
                    assert forall|i: int, j: int|
                        0 <= i < self@.plans.len() && 0 <= j < self@.plans.len() && i != j implies (
                        #[trigger] self@.plans[i]).plan.identifier != (#[trigger] self@.plans[j]).plan.identifier by {
                        if i < before.len() && j < before.len() {
                            assert(before[i].plan.identifier != before[j].plan.identifier);
                        } else if i < before.len() {
                            assert(self@.plans[i] == before[i]);
                        } else {
                            assert(self@.plans[j] == before[j]);
                        }
                    }
                }
            },
        }
    }

    /// Sets one lifecycle bit of the plan at `index`.
    fn mark_plan(&mut self, index: usize, approved: bool)
        requires
            old(self).wf(),
            index < old(self)@.plans.len(),
        ensures
            final(self).wf(),
            final(self)@ == (StoreView {
                plans: old(self)@.plans.update(
                    index as int,
                    if approved {
                        PlanRecordView { approved: true, ..old(self)@.plans[index as int] }
                    } else {
                        PlanRecordView { applied: true, ..old(self)@.plans[index as int] }
                    },
                ),
                ..old(self)@
            }),
            final(self).lifecycle_state() == old(self).lifecycle_state(),
    {
        let ghost before = self@.plans;
        let mut record = self.plans.remove(index);
        if approved {
            record.approved = true;
        } else {
            record.applied = true;
        }
        self.plans.insert(index, record);
        proof {
            let updated = if approved {
                PlanRecordView { approved: true, ..before[index as int] }
            } else {
                PlanRecordView { applied: true, ..before[index as int] }
            };
            assert(self@.plans =~= before.update(index as int, updated));
            assert forall|i: int, j: int|
                0 <= i < self@.plans.len() && 0 <= j < self@.plans.len() && i != j implies (
                #[trigger] self@.plans[i]).plan.identifier != (#[trigger] self@.plans[j]).plan.identifier by {
                assert(self@.plans[i].plan.identifier == before[i].plan.identifier);
                assert(self@.plans[j].plan.identifier == before[j].plan.identifier);
            }
        }
    }

    /// A plan that creates everything a desired state asks for, under a newly
    /// minted identifier.
    fn generate_plan(&mut self, desired: DesiredState) -> (plan: Plan)
        ensures
            final(self)@ == (StoreView {
                next_plan_ordinal: vstd::wrapping::u64_specs::wrapping_add(old(self)@.next_plan_ordinal, 1),
                ..old(self)@
            }),
            final(self).lifecycle_state() == old(self).lifecycle_state(),
            plan@ == generated_plan(
                minted_identifier(final(self)@.next_plan_ordinal),
                desired.provider,
                desired.zone@,
                desired.records.deep_view(),
                desired.redirects.deep_view(),
            ),
    {
        let identifier = self.mint_plan_identifier();
        let DesiredState { provider, zone, records, redirects } = desired;
        let plan = Plan {
            identifier,
            provider,
            zone,
            records_to_create: records,
            records_to_update: Vec::new(),
            record_names_to_delete: Vec::new(),
            redirects_to_create: redirects,
            redirects_to_update: Vec::new(),
            redirect_sources_to_delete: Vec::new(),
        };
        assert(plan.records_to_update.deep_view() =~= Seq::<RecordView>::empty());
        assert(plan.record_names_to_delete.deep_view() =~= Seq::<Seq<char>>::empty());
        assert(plan.redirects_to_update.deep_view() =~= Seq::<RedirectView>::empty());
        assert(plan.redirect_sources_to_delete.deep_view() =~= Seq::<Seq<char>>::empty());
        plan
    }

    /// The plan of a domain projection: its lowered records and redirects, all
    /// created, in the projected domain.
    fn generate_plan_from_projection(&mut self, preparation: ProjectionPreparation) -> (plan: Plan)
        ensures
            final(self)@ == (StoreView {
                next_plan_ordinal: vstd::wrapping::u64_specs::wrapping_add(old(self)@.next_plan_ordinal, 1),
                ..old(self)@
            }),
            final(self).lifecycle_state() == old(self).lifecycle_state(),
            plan@ == generated_plan(
                minted_identifier(final(self)@.next_plan_ordinal),
                preparation.provider,
                preparation.projection.domain@,
                preparation.projection.records.deep_view().map_values(
                    |record: ProjectedRecordView| lowered_record(record),
                ),
                preparation.projection.redirects.deep_view().map_values(
                    |redirect: ProjectedRedirectView| lowered_redirect(redirect),
                ),
            ),
    {
        self.generate_plan(DomainProjection::from_preparation(preparation).into_desired_state())
    }

    /// Records a newly prepared plan, unapproved and unapplied, and answers
    /// with it.
    fn record_prepared(&mut self, plan: Plan) -> (output: SemaWriteOutput)
        requires
            old(self).wf(),
        ensures
            final(self).wf(),
            final(self)@ == (StoreView {
                plans: with_plan_record(old(self)@.plans, PlanRecordView { plan: plan@, approved: false, applied: false }),
                commit_sequence: next_commit(old(self)@.commit_sequence),
                ..old(self)@
            }),
            output matches SemaWriteOutput::PlanPrepared(prepared) && prepared@ == plan@,
    {
        let copy = plan.clone();
        self.put_plan(PlanRecord { plan: copy, approved: false, applied: false });
        self.advance_commit();
        SemaWriteOutput::PlanPrepared(plan)
    }

    /// Applies one owner write: registers, rotates, retires, sets policy,
    /// prepares, approves or applies. Every accepted write advances the commit
    /// sequence; a refused one leaves the store as it was and reports why.
    pub fn apply_write(&mut self, input: SemaWriteInput) -> (output: SemaWriteOutput)
        requires
            old(self).wf(),
        ensures
            final(self).wf(),
            write_outcome(old(self)@, final(self)@, input, output),
    {
        match input {
            SemaWriteInput::RegisterAccount(registration) => {
                let output = SemaWriteOutput::AccountRegistered {
                    provider: registration.provider,
                    account: registration.account.clone(),
                };
                self.put_account(
                    AccountRecord {
                        provider: registration.provider,
                        account: registration.account,
                        credential: registration.credential,
                        policy: None,
                    },
                );
                self.advance_commit();
                output
            },
            SemaWriteInput::RotateCredential(rotation) => match self.account_position(
                rotation.provider,
                &rotation.account,
            ) {
                Some(index) => {
                    let ghost before = self@.accounts;
                    let mut record = self.accounts.remove(index);
                    record.credential = rotation.credential;
                    self.accounts.insert(index, record);
                    proof {
                        assert(self@.accounts =~= before.update(
                            index as int,
                            AccountRecordView { credential: rotation.credential@, ..before[index as int] },
                        ));
                        assert forall|i: int, j: int|
                            0 <= i < self@.accounts.len() && 0 <= j < self@.accounts.len() && i != j implies !same_key(
                            #[trigger] self@.accounts[i],
                            self@.accounts[j].provider,
                            #[trigger] self@.accounts[j].account,
                        ) by {
                            assert(!same_key(before[i], before[j].provider, before[j].account));
                        }
                    }
                    self.advance_commit();
                    SemaWriteOutput::CredentialRotated { provider: rotation.provider, account: rotation.account }
                },
                None => SemaWriteOutput::Missed(self.rejection(MetaRejectionReason::AccountUnknown)),
            },
            SemaWriteInput::SetPolicy(policy) => {
                let capability_policy_count = policy.capabilities.len() as u64;
                let zone_policy_count = policy.zones.len() as u64;
                if self.accounts.len() > 0 {
                    let ghost before = self@.accounts;
                    let ghost attached = (policy.zones.deep_view(), policy.capabilities@);
                    let mut record = self.accounts.remove(0);
                    record.policy = Some(policy);
                    self.accounts.insert(0, record);
                    proof {
                        assert(self@.accounts =~= before.update(
                            0,
                            AccountRecordView { policy: Some(attached), ..before[0] },
                        ));
                        assert forall|i: int, j: int|
                            0 <= i < self@.accounts.len() && 0 <= j < self@.accounts.len() && i != j implies !same_key(
                            #[trigger] self@.accounts[i],
                            self@.accounts[j].provider,
                            #[trigger] self@.accounts[j].account,
                        ) by {
                            assert(!same_key(before[i], before[j].provider, before[j].account));
                        }
                    }
                }
                self.advance_commit();
                SemaWriteOutput::PolicySet { capability_policy_count, zone_policy_count }
            },
            SemaWriteInput::PreparePlan(desired) => {
                let plan = self.generate_plan(desired);
                self.record_prepared(plan)
            },
            SemaWriteInput::PrepareProjection(preparation) => {
                let plan = self.generate_plan_from_projection(preparation);
                self.record_prepared(plan)
            },
            SemaWriteInput::ApprovePlan(identifier) => match self.plan_position(&identifier) {
                Some(index) => {
                    self.mark_plan(index, true);
                    self.advance_commit();
                    SemaWriteOutput::PlanApproved(identifier)
                },
                None => SemaWriteOutput::Missed(self.rejection(MetaRejectionReason::PlanUnknown)),
            },
            SemaWriteInput::ApplyPlan(identifier) => match self.plan_position(&identifier) {
                Some(index) => {
                    assert(self.plans@[index as int].deep_view() == self@.plans[index as int]);
                    if !self.plans[index].approved {
                        SemaWriteOutput::Missed(self.rejection(MetaRejectionReason::PlanNotApproved))
                    } else {
                        self.mark_plan(index, false);
                        self.advance_commit();
                        SemaWriteOutput::PlanApplied(identifier)
                    }
                },
                None => SemaWriteOutput::Missed(self.rejection(MetaRejectionReason::PlanUnknown)),
            },
            SemaWriteInput::RetireAccount(retirement) => {
                match self.account_position(retirement.provider, &retirement.account) {
                    Some(index) => {
                        let ghost before = self@.accounts;
                        self.accounts.remove(index);
                        proof {
                            assert(self@.accounts =~= before.remove(index as int));
                            assert forall|i: int, j: int|
                                0 <= i < self@.accounts.len() && 0 <= j < self@.accounts.len() && i != j implies !same_key(
                                #[trigger] self@.accounts[i],
                                self@.accounts[j].provider,
                                #[trigger] self@.accounts[j].account,
                            ) by {
                                let bi = if i < index { i } else { i + 1 };
                                let bj = if j < index { j } else { j + 1 };
                                assert(self@.accounts[i] == before[bi]);
                                assert(self@.accounts[j] == before[bj]);
                                assert(!same_key(before[bi], before[bj].provider, before[bj].account));
                            }
                        }
                    },
                    None => {},
                }
                self.advance_commit();
                SemaWriteOutput::AccountRetired { provider: retirement.provider, account: retirement.account }
            },
        }
    }
}

impl Store {
    /// Reads a plan with the store's marker, or reports `PlanUnknown`.
    pub fn observe(&self, input: SemaReadInput) -> (output: SemaReadOutput)
        requires
            self.wf(),
        ensures
            match input {
                SemaReadInput::ObservePlan(identifier) => if has_plan_record(self@.plans, identifier@) {
                    output matches SemaReadOutput::PlanObserved { plan, marker } && plan@ == self@.plans[plan_index(
                        self@.plans,
                        identifier@,
                    )].plan && marker == marker_of(self@)
                } else {
                    output == SemaReadOutput::Missed(report_of(self@, MetaRejectionReason::PlanUnknown))
                },
            },
    {
        match input {
            SemaReadInput::ObservePlan(identifier) => match self.plan(&identifier) {
                Some(plan) => SemaReadOutput::PlanObserved { plan, marker: self.database_marker() },
                None => SemaReadOutput::Missed(self.rejection(MetaRejectionReason::PlanUnknown)),
            },
        }
    }

    /// The working contract's read path. Plans are held in the owner's shape
    /// and observations are served by provider effects, so both are reported
    /// missed; validation answers an empty report.
    pub fn observe_read(&self, input: WorkingReadInput) -> (output: WorkingReadOutput)
        ensures
            match input {
                WorkingReadInput::Validate(_) => output matches WorkingReadOutput::Validated(findings)
                    && findings.len() == 0,
                WorkingReadInput::ObservePlan(_) => output matches WorkingReadOutput::Missed(message) && message@
                    == "cross-contract plan projection not yet wired"@,
                WorkingReadInput::Observe(_) => output matches WorkingReadOutput::Missed(message) && message@
                    == "observation has no SEMA read path"@,
            },
    {
        match input {
            WorkingReadInput::ObservePlan(_) => WorkingReadOutput::Missed(
                crate::text::owned("cross-contract plan projection not yet wired"),
            ),
            WorkingReadInput::Validate(desired) => WorkingReadOutput::Validated(self.validate(desired)),
            WorkingReadInput::Observe(_) => WorkingReadOutput::Missed(
                crate::text::owned("observation has no SEMA read path"),
            ),
        }
    }

    /// The store's validation of a desired state: an empty report.
    fn validate(&self, desired: DesiredState) -> (findings: Vec<crate::vocabulary::ValidationFinding>)
        ensures
            findings.len() == 0,
    {
        Vec::new()
    }
}

} // verus!
