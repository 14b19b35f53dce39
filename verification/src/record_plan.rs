//! Diff-aware DNS planning: compare the desired records of a zone with the
//! records the provider last reported, and derive what to create, what to
//! update and which names to delete.
//!
//! A record's identity is its name together with its kind.
use vstd::prelude::*;

use crate::vocabulary::{DomainNameSystemRecord, RecordView};

verus! {

/// Two records address the same DNS entry: same name, same kind.
pub open spec fn same_identity(left: RecordView, right: RecordView) -> bool {
    left.name == right.name && left.kind == right.kind
}

/// Some record of `records` has the identity of `record`.
pub open spec fn identity_present(records: Seq<RecordView>, record: RecordView) -> bool {
    exists|i: int| 0 <= i < records.len() && same_identity(#[trigger] records[i], record)
}

/// Some record of `records` has the identity of `record` but differs from it.
pub open spec fn identity_changed(records: Seq<RecordView>, record: RecordView) -> bool {
    exists|i: int| 0 <= i < records.len() && same_identity(#[trigger] records[i], record) && records[i] != record
}

/// The desired records whose identity the provider does not hold yet, in
/// desired order.
pub open spec fn records_to_create(current: Seq<RecordView>, desired: Seq<RecordView>) -> Seq<RecordView>
    decreases desired.len(),
{
    if desired.len() == 0 {
        Seq::empty()
    } else {
        let earlier = records_to_create(current, desired.drop_last());
        if identity_present(current, desired.last()) {
            earlier
        } else {
            earlier.push(desired.last())
        }
    }
}

/// The desired records whose identity the provider holds with other content,
/// in desired order.
pub open spec fn records_to_update(current: Seq<RecordView>, desired: Seq<RecordView>) -> Seq<RecordView>
    decreases desired.len(),
{
    if desired.len() == 0 {
        Seq::empty()
    } else {
        let earlier = records_to_update(current, desired.drop_last());
        if identity_changed(current, desired.last()) {
            earlier.push(desired.last())
        } else {
            earlier
        }
    }
}

/// The names of the current records whose identity is not desired, each name
/// once, in the order of first occurrence.
pub open spec fn record_names_to_delete(current: Seq<RecordView>, desired: Seq<RecordView>) -> Seq<Seq<char>>
    decreases current.len(),
{
    if current.len() == 0 {
        Seq::empty()
    } else {
        let earlier = record_names_to_delete(current.drop_last(), desired);
        let last = current.last();
        if !identity_present(desired, last) && !earlier.contains(last.name) {
            earlier.push(last.name)
        } else {
            earlier
        }
    }
}

/// No two records of the sequence share an identity.
pub open spec fn identities_unique(records: Seq<RecordView>) -> bool {
    forall|i: int, j: int|
        0 <= i < records.len() && 0 <= j < records.len() && i != j ==> !same_identity(
            #[trigger] records[i],
            #[trigger] records[j],
        )
}

/// The current and desired records a plan is derived from.
pub struct RecordPlan {
    pub current: Vec<DomainNameSystemRecord>,
    pub desired: Vec<DomainNameSystemRecord>,
}

/// What a record plan asks of the provider.
#[derive(Debug, PartialEq, Eq)]
pub struct RecordPlanParts {
    pub records_to_create: Vec<DomainNameSystemRecord>,
    pub records_to_update: Vec<DomainNameSystemRecord>,
    pub record_names_to_delete: Vec<String>,
}

impl RecordPlan {
    pub fn new(current: Vec<DomainNameSystemRecord>, desired: Vec<DomainNameSystemRecord>) -> (plan: Self)
        ensures
            plan.current == current,
            plan.desired == desired,
    {
        RecordPlan { current, desired }
    }

    /// Splits the desired records into creations and updates, and collects
    /// the names of current records that are no longer desired.
    pub fn into_parts(self) -> (parts: RecordPlanParts)
        ensures
            parts.records_to_create.deep_view() == records_to_create(
                self.current.deep_view(),
                self.desired.deep_view(),
            ),
            parts.records_to_update.deep_view() == records_to_update(
                self.current.deep_view(),
                self.desired.deep_view(),
            ),
            parts.record_names_to_delete.deep_view() == record_names_to_delete(
                self.current.deep_view(),
                self.desired.deep_view(),
            ),
    {
        let current = &self.current;
        let desired = &self.desired;
        let ghost cv = current.deep_view();
        let ghost dv = desired.deep_view();
        let mut creates: Vec<DomainNameSystemRecord> = Vec::new();
        let mut updates: Vec<DomainNameSystemRecord> = Vec::new();
        let mut index: usize = 0;
        while index < desired.len()
            invariant
                cv == current.deep_view(),
                dv == desired.deep_view(),
                index <= desired.len(),
                creates.deep_view() == records_to_create(cv, dv.take(index as int)),
                updates.deep_view() == records_to_update(cv, dv.take(index as int)),
            decreases desired.len() - index,
        {
            let record = &desired[index];
            let present = any_same_identity(current, record);
            let changed = any_changed_identity(current, record);
            proof {
                let next = dv.take(index + 1);
                assert(next.drop_last() =~= dv.take(index as int));
                assert(next.last() == dv[index as int]);
            }
            if !present {
                creates.push(record.clone());
            }
            if changed {
                updates.push(record.clone());
            }
            proof {
                assert(creates.deep_view() =~= records_to_create(cv, dv.take(index + 1)));
                assert(updates.deep_view() =~= records_to_update(cv, dv.take(index + 1)));
            }
            index = index + 1;
        }
        assert(dv.take(desired.len() as int) =~= dv);
        let mut names: Vec<String> = Vec::new();
        let mut index: usize = 0;
        while index < current.len()
            invariant
                cv == current.deep_view(),
                dv == desired.deep_view(),
                index <= current.len(),
                names.deep_view() == record_names_to_delete(cv.take(index as int), dv),
            decreases current.len() - index,
        {
            let record = &current[index];
            proof {
                let next = cv.take(index + 1);
                assert(next.drop_last() =~= cv.take(index as int));
                assert(next.last() == cv[index as int]);
            }
            if !any_same_identity(desired, record) && !contains_name(&names, &record.name) {
                names.push(record.name.clone());
            }
            proof {
                assert(names.deep_view() =~= record_names_to_delete(cv.take(index + 1), dv));
            }
            index = index + 1;
        }
        assert(cv.take(current.len() as int) =~= cv);
        RecordPlanParts { records_to_create: creates, records_to_update: updates, record_names_to_delete: names }
    }
}

/// Whether two records have the same name and kind.
pub fn same_identity_exec(left: &DomainNameSystemRecord, right: &DomainNameSystemRecord) -> (same: bool)
    ensures
        same == same_identity(left@, right@),
{
    left.name == right.name && left.kind == right.kind
}

/// Whether two records are equal in every field.
pub fn same_record(left: &DomainNameSystemRecord, right: &DomainNameSystemRecord) -> (same: bool)
    ensures
        same == (left@ == right@),
{
    left.name == right.name && left.kind == right.kind && left.value == right.value
        && left.proxy_mode == right.proxy_mode
}

/// Whether some record of `records` has the identity of `record`.
pub fn any_same_identity(records: &Vec<DomainNameSystemRecord>, record: &DomainNameSystemRecord) -> (present: bool)
    ensures
        present == identity_present(records.deep_view(), record@),
{
    let ghost view = records.deep_view();
    let mut index: usize = 0;
    while index < records.len()
        invariant
            view == records.deep_view(),
            index <= records.len(),
            forall|i: int| 0 <= i < index ==> !same_identity(#[trigger] view[i], record@),
        decreases records.len() - index,
    {
        if same_identity_exec(&records[index], record) {
            assert(same_identity(view[index as int], record@));
            return true;
        }
        index = index + 1;
    }
    false
}

/// Whether some record of `records` has the identity of `record` but other
/// content.
pub fn any_changed_identity(records: &Vec<DomainNameSystemRecord>, record: &DomainNameSystemRecord) -> (changed: bool)
    ensures
        changed == identity_changed(records.deep_view(), record@),
{
    let ghost view = records.deep_view();
    let mut index: usize = 0;
    while index < records.len()
        invariant
            view == records.deep_view(),
            index <= records.len(),
            forall|i: int| 0 <= i < index ==> !(same_identity(#[trigger] view[i], record@) && view[i] != record@),
        decreases records.len() - index,
    {
        if same_identity_exec(&records[index], record) && !same_record(&records[index], record) {
            assert(same_identity(view[index as int], record@) && view[index as int] != record@);
            return true;
        }
        index = index + 1;
    }
    false
}

/// Whether `names` holds `name`.
pub fn contains_name(names: &Vec<String>, name: &String) -> (found: bool)
    ensures
        found == names.deep_view().contains(name@),
{
    let ghost view = names.deep_view();
    let mut index: usize = 0;
    while index < names.len()
        invariant
            view == names.deep_view(),
            index <= names.len(),
            forall|i: int| 0 <= i < index ==> view[i] != name@,
        decreases names.len() - index,
    {
        if names[index] == *name {
            assert(view[index as int] == name@);
            return true;
        }
        index = index + 1;
    }
    false
}

// ------------------------------------------------------------------- laws

/// A record is created exactly when its identity is absent from the current
/// records.
pub proof fn created_iff_identity_absent(current: Seq<RecordView>, desired: Seq<RecordView>, record: RecordView)
    requires
        desired.contains(record),
    ensures
        records_to_create(current, desired).contains(record) <==> !identity_present(current, record),
    decreases desired.len(),
{
    lemma_created_are_absent(current, desired);
    if !identity_present(current, record) {
        lemma_absent_are_created(current, desired, record);
    }
}

proof fn lemma_created_are_absent(current: Seq<RecordView>, desired: Seq<RecordView>)
    ensures
        forall|i: int| 0 <= i < records_to_create(current, desired).len() ==> {
            &&& !identity_present(current, #[trigger] records_to_create(current, desired)[i])
            &&& desired.contains(records_to_create(current, desired)[i])
        },
    decreases desired.len(),
{
    if desired.len() > 0 {
        let earlier = desired.drop_last();
        lemma_created_are_absent(current, earlier);
        let created = records_to_create(current, desired);
        assert forall|i: int| 0 <= i < created.len() implies {
            &&& !identity_present(current, #[trigger] created[i])
            &&& desired.contains(created[i])
        } by {
            if i < records_to_create(current, earlier).len() {
                let j = choose|j: int| 0 <= j < earlier.len() && earlier[j] == created[i];
                assert(desired[j] == created[i]);
            } else {
                assert(desired[desired.len() - 1] == created[i]);
            }
        }
    }
}

proof fn lemma_absent_are_created(current: Seq<RecordView>, desired: Seq<RecordView>, record: RecordView)
    requires
        desired.contains(record),
        !identity_present(current, record),
    ensures
        records_to_create(current, desired).contains(record),
    decreases desired.len(),
{
    let earlier = desired.drop_last();
    if desired.last() == record {
        assert(records_to_create(current, desired).last() == record);
    } else {
        let j = choose|j: int| 0 <= j < desired.len() && desired[j] == record;
        assert(earlier[j] == record);
        lemma_absent_are_created(current, earlier, record);
        let k = choose|k: int| 0 <= k < records_to_create(current, earlier).len() && records_to_create(current, earlier)[k] == record;
        assert(records_to_create(current, desired)[k] == record);
    }
}

/// Every update targets an identity the provider already holds, so no record
/// is both created and updated.
pub proof fn updates_target_present_identities(current: Seq<RecordView>, desired: Seq<RecordView>)
    ensures
        forall|i: int| 0 <= i < records_to_update(current, desired).len() ==> identity_changed(
            current,
            #[trigger] records_to_update(current, desired)[i],
        ) && identity_present(current, records_to_update(current, desired)[i]),
    decreases desired.len(),
{
    if desired.len() > 0 {
        updates_target_present_identities(current, desired.drop_last());
        let updated = records_to_update(current, desired);
        assert forall|i: int| 0 <= i < updated.len() implies identity_changed(current, #[trigger] updated[i])
            && identity_present(current, updated[i]) by {
            let before = records_to_update(current, desired.drop_last());
            if i < before.len() {
                assert(updated[i] == before[i]);
            } else {
                assert(updated[i] == desired.last());
            }
            assert(identity_changed(current, updated[i]));
            let k = choose|k: int| 0 <= k < current.len() && same_identity(#[trigger] current[k], updated[i]) && current[k] != updated[i];
            assert(same_identity(current[k], updated[i]));
        }
    }
}

/// A name is deleted exactly when some current record with that name has an
/// identity that is no longer desired; and each name is deleted once.
pub proof fn deletions_are_exact_and_unique(current: Seq<RecordView>, desired: Seq<RecordView>, name: Seq<char>)
    ensures
        record_names_to_delete(current, desired).contains(name) <==> exists|i: int|
            0 <= i < current.len() && #[trigger] current[i].name == name && !identity_present(desired, current[i]),
        record_names_to_delete(current, desired).no_duplicates(),
    decreases current.len(),
{
    if current.len() > 0 {
        let earlier = current.drop_last();
        deletions_are_exact_and_unique(earlier, desired, name);
        let last = current.last();
        let deleted = record_names_to_delete(current, desired);
        let before = record_names_to_delete(earlier, desired);
        if exists|i: int| 0 <= i < earlier.len() && #[trigger] earlier[i].name == name && !identity_present(desired, earlier[i]) {
            let i = choose|i: int| 0 <= i < earlier.len() && #[trigger] earlier[i].name == name && !identity_present(desired, earlier[i]);
            assert(current[i] == earlier[i]);
        }
        if exists|i: int| 0 <= i < current.len() && #[trigger] current[i].name == name && !identity_present(desired, current[i]) {
            let i = choose|i: int| 0 <= i < current.len() && #[trigger] current[i].name == name && !identity_present(desired, current[i]);
            if i < earlier.len() {
                assert(earlier[i] == current[i]);
            }
        }
        if deleted.contains(name) && !before.contains(name) {
            assert(deleted == before.push(last.name));
            let k = choose|k: int| 0 <= k < deleted.len() && deleted[k] == name;
            assert(k == before.len());
            assert(current[current.len() - 1].name == name);
        }
        if before.contains(name) {
            let k = choose|k: int| 0 <= k < before.len() && before[k] == name;
            assert(deleted[k] == name);
        }
        if !identity_present(desired, last) && !before.contains(last.name) {
            assert(deleted == before.push(last.name));
            assert(deleted[deleted.len() - 1] == last.name);
        }
    }
}

/// Planning against an empty zone creates every desired record and changes
/// nothing else.
pub proof fn empty_zone_creates_everything(desired: Seq<RecordView>)
    ensures
        records_to_create(Seq::empty(), desired) == desired,
        records_to_update(Seq::empty(), desired).len() == 0,
        record_names_to_delete(Seq::empty(), desired).len() == 0,
    decreases desired.len(),
{
    if desired.len() > 0 {
        empty_zone_creates_everything(desired.drop_last());
        assert(!identity_present(Seq::empty(), desired.last()));
        assert(!identity_changed(Seq::empty(), desired.last()));
        assert(desired.drop_last().push(desired.last()) =~= desired);
    }
}

/// Planning a zone against records that already match it, no two sharing an
/// identity, asks for nothing.
pub proof fn matching_zone_plans_nothing(records: Seq<RecordView>)
    requires
        identities_unique(records),
    ensures
        records_to_create(records, records).len() == 0,
        records_to_update(records, records).len() == 0,
        record_names_to_delete(records, records).len() == 0,
{
    assert(records =~= records.take(records.len() as int));
    lemma_matching_no_creates_updates(records, records);
    lemma_matching_no_deletes(records, records);
}

proof fn lemma_matching_no_creates_updates(current: Seq<RecordView>, prefix: Seq<RecordView>)
    requires
        identities_unique(current),
        prefix.len() <= current.len(),
        prefix == current.take(prefix.len() as int),
    ensures
        records_to_create(current, prefix).len() == 0,
        records_to_update(current, prefix).len() == 0,
    decreases prefix.len(),
{
    if prefix.len() > 0 {
        let n = prefix.len() - 1;
        let earlier = prefix.drop_last();
        assert(earlier =~= current.take(n as int));
        lemma_matching_no_creates_updates(current, earlier);
        let last = prefix.last();
        assert(last == current[n as int]);
        assert(same_identity(current[n as int], last));
        assert(identity_present(current, last));
        if identity_changed(current, last) {
            let k = choose|k: int| 0 <= k < current.len() && same_identity(#[trigger] current[k], last) && current[k] != last;
            assert(k != n);
            assert(!same_identity(current[k], current[n as int]));
        }
    }
}

proof fn lemma_matching_no_deletes(prefix: Seq<RecordView>, desired: Seq<RecordView>)
    requires
        forall|i: int| 0 <= i < prefix.len() ==> desired.contains(#[trigger] prefix[i]),
    ensures
        record_names_to_delete(prefix, desired).len() == 0,
    decreases prefix.len(),
{
    if prefix.len() > 0 {
        let earlier = prefix.drop_last();
        assert forall|i: int| 0 <= i < earlier.len() implies desired.contains(#[trigger] earlier[i]) by {
            assert(earlier[i] == prefix[i]);
        }
        lemma_matching_no_deletes(earlier, desired);
        let last = prefix.last();
        assert(desired.contains(prefix[prefix.len() - 1]));
        let k = choose|k: int| 0 <= k < desired.len() && desired[k] == last;
        assert(same_identity(desired[k], last));
    }
}

} // verus!
