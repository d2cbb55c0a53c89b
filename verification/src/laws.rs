//! Laws the engine obeys, stated over [`spec_validate`] — the function
//! [`crate::engine::validate`] is proved to compute — and proved for every
//! operation, store and policy they speak of.
//!
//! The shape predicates here pick out the operations each law is about: an
//! operation submitting the creation, update or deletion of a declared
//! profile, through either the lightweight phase or the full-record phase.

use vstd::prelude::*;

use crate::classify::spec_flatten;
use crate::engine::{
    spec_membership_verdict, spec_original_profile, spec_validate, MembershipPolicy, Policy,
};
use crate::model::{
    Action, Address, AppPayload, Entry, EntryCreationAction, EntryType, Op, Record,
};
use crate::profile::{is_blank, ProfileV, UpdatePolicy};
use crate::registry::{spec_is_profile_def, spec_link_type, LinkTypes};
use crate::store::Store;
use crate::verdict::{EngineError, Reason, Verdict};

verus! {

/// The profile a raw entry carries, if it parses as one.
pub open spec fn profile_payload(entry: Entry) -> Option<ProfileV> {
    match entry {
        Entry::App(AppPayload::Profile(p)) => Some(p@),
        _ => None,
    }
}

/// Whether an entry type names the declared profile type.
pub open spec fn declares_profile(entry_type: EntryType) -> bool {
    entry_type matches EntryType::App(def) && spec_is_profile_def(def)
}

/// Whether `op` submits the creation of a declared profile with well-formed
/// content, through either phase that carries the new entry.
pub open spec fn is_profile_create_op(op: Op) -> bool {
    match op {
        Op::StoreEntry { action: EntryCreationAction::Create(c), entry } => {
            declares_profile(c.entry_type) && profile_payload(entry) is Some
        },
        Op::StoreRecord { record } => match record.action {
            Action::Create(c) => {
                &&& declares_profile(c.entry_type)
                &&& record.entry matches Some(e)
                &&& profile_payload(e) is Some
            },
            _ => false,
        },
        _ => false,
    }
}

/// Whether `op` submits the update of a declared profile with well-formed
/// new content, through either phase that carries the new entry.
pub open spec fn is_profile_update_op(op: Op) -> bool {
    match op {
        Op::RegisterUpdate { update, new_entry } => {
            &&& declares_profile(update.entry_type)
            &&& new_entry matches Some(e)
            &&& profile_payload(e) is Some
        },
        Op::StoreRecord { record } => match record.action {
            Action::Update(u) => {
                &&& declares_profile(u.entry_type)
                &&& record.entry matches Some(e)
                &&& profile_payload(e) is Some
            },
            _ => false,
        },
        _ => false,
    }
}

/// The new profile an update operation submits.
pub open spec fn update_new_profile(op: Op) -> ProfileV
    recommends
        is_profile_update_op(op),
{
    match op {
        Op::RegisterUpdate { new_entry: Some(Entry::App(AppPayload::Profile(p))), .. } => p@,
        Op::StoreRecord { record } => match record.entry {
            Some(Entry::App(AppPayload::Profile(p))) => p@,
            _ => ProfileV { nickname: Seq::empty() },
        },
        _ => ProfileV { nickname: Seq::empty() },
    }
}

/// The address of the original action an update operation refers to.
pub open spec fn update_original_addr(op: Op) -> Address
    recommends
        is_profile_update_op(op),
{
    match op {
        Op::RegisterUpdate { update, .. } => update.original_action_addr,
        Op::StoreRecord { record } => match record.action {
            Action::Update(u) => u.original_action_addr,
            _ => 0,
        },
        _ => 0,
    }
}

/// Whether `op` submits the deletion of an earlier action, through either
/// phase.
pub open spec fn is_delete_op(op: Op) -> bool {
    match op {
        Op::RegisterDelete { .. } => true,
        Op::StoreRecord { record } => record.action is Delete,
        _ => false,
    }
}

/// The address of the action a delete operation refers to.
pub open spec fn delete_original_addr(op: Op) -> Address
    recommends
        is_delete_op(op),
{
    match op {
        Op::RegisterDelete { delete } => delete.deletes_addr,
        Op::StoreRecord { record } => match record.action {
            Action::Delete(d) => d.deletes_addr,
            _ => 0,
        },
        _ => 0,
    }
}

/// Whether `op` submits a link creation, through either phase.
pub open spec fn is_create_link_op(op: Op) -> bool {
    match op {
        Op::RegisterCreateLink { .. } => true,
        Op::StoreRecord { record } => record.action is CreateLink,
        _ => false,
    }
}

/// The registry resolution of the link type a link-creating operation names.
pub open spec fn create_link_type(op: Op) -> Option<LinkTypes>
    recommends
        is_create_link_op(op),
{
    match op {
        Op::RegisterCreateLink { create_link } => spec_link_type(
            create_link.zome_index,
            create_link.link_index,
        ),
        Op::StoreRecord { record } => match record.action {
            Action::CreateLink(cl) => spec_link_type(cl.zome_index, cl.link_index),
            _ => None,
        },
        _ => None,
    }
}

/// Whether `op` submits a link removal, through either phase.
pub open spec fn is_delete_link_op(op: Op) -> bool {
    match op {
        Op::RegisterDeleteLink { .. } => true,
        Op::StoreRecord { record } => record.action is DeleteLink,
        _ => false,
    }
}

/// Whether `store` resolves `addr` to a record that created or updated a
/// declared profile whose content is `original`.
pub open spec fn resolves_to_profile_creation(
    store: Store,
    addr: Address,
    original: ProfileV,
) -> bool {
    &&& store.spec_get(addr) matches Some(rec)
    &&& match rec.action {
        Action::Create(c) => spec_original_profile(c.entry_type, rec.entry) == Some(original),
        Action::Update(u) => spec_original_profile(u.entry_type, rec.entry) == Some(original),
        _ => false,
    }
}

/// Every well-formed creation of a declared profile is accepted, in both
/// phases that see it, under every store and every policy.
pub proof fn lemma_profile_create_accepted(op: Op, store: Store, policy: Policy)
    requires
        is_profile_create_op(op),
    ensures
        spec_validate(op, store, policy) == Ok::<Verdict, EngineError>(Verdict::Valid),
{
}

/// Under the immutable-after-create policy, every update of a declared
/// profile whose original record is locally fetchable is rejected,
/// regardless of the contents of either side.
pub proof fn lemma_immutable_policy_rejects_updates(op: Op, store: Store, policy: Policy)
    requires
        policy.update == UpdatePolicy::Immutable,
        is_profile_update_op(op),
        store.spec_get(update_original_addr(op)) is Some,
    ensures
        spec_validate(op, store, policy) matches Ok(v) && v matches Verdict::Invalid(_),
{
}

/// Under the mutable policy, an update of a declared profile whose original
/// resolves to a profile creation is rejected exactly when it changes
/// nothing or blanks the nickname, and accepted otherwise. Both sides of
/// the "iff" are pinned: the verdict is a function of the two profiles.
pub proof fn lemma_mutable_policy_guardrails(
    op: Op,
    store: Store,
    policy: Policy,
    original: ProfileV,
)
    requires
        policy.update == UpdatePolicy::Mutable,
        is_profile_update_op(op),
        resolves_to_profile_creation(store, update_original_addr(op), original),
    ensures
        spec_validate(op, store, policy) == Ok::<Verdict, EngineError>(
            if update_new_profile(op) == original {
                Verdict::Invalid(Reason::NoChangesMade)
            } else if is_blank(update_new_profile(op).nickname) {
                Verdict::Invalid(Reason::NicknameEmpty)
            } else {
                Verdict::Valid
            },
        ),
{
}

/// Re-validating the same operation against the same store and policy
/// yields the same outcome — the engine is a pure function of its inputs,
/// with no engine-local state that could diverge between invocations.
pub proof fn lemma_validate_deterministic(op: Op, store: Store, policy: Policy)
    ensures
        spec_validate(op, store, policy) == spec_validate(op, store, policy),
{
}

/// Every delete of a declared profile is rejected, independent of the
/// original content, in both phases and under every policy.
pub proof fn lemma_profile_delete_rejected(
    op: Op,
    store: Store,
    policy: Policy,
    original: ProfileV,
)
    requires
        is_delete_op(op),
        resolves_to_profile_creation(store, delete_original_addr(op), original),
    ensures
        spec_validate(op, store, policy) == Ok::<Verdict, EngineError>(
            Verdict::Invalid(Reason::ProfilesCannotBeDeleted),
        ),
{
}

/// A link creation is accepted exactly when it names the single declared
/// link type, and rejected for every other type — the closed-world policy,
/// in both phases, independent of store and policy.
pub proof fn lemma_create_link_closed_world(op: Op, store: Store, policy: Policy)
    requires
        is_create_link_op(op),
    ensures
        spec_validate(op, store, policy) == Ok::<Verdict, EngineError>(
            if create_link_type(op) == Some(LinkTypes::AgentToProfile) {
                Verdict::Valid
            } else {
                Verdict::Invalid(Reason::UndeclaredLinkType)
            },
        ),
{
}

/// Every link removal is rejected: no declared link type is removable.
pub proof fn lemma_delete_link_rejected(op: Op, store: Store, policy: Policy)
    requires
        is_delete_link_op(op),
    ensures
        spec_validate(op, store, policy) == Ok::<Verdict, EngineError>(
            Verdict::Invalid(Reason::NoDeletableLinkTypes),
        ),
{
}

/// An agent-chain bootstrap whose resolved predecessor is not an
/// AgentValidationPkg is rejected, with the reason naming the expected
/// predecessor kind.
pub proof fn lemma_create_agent_needs_validation_pkg(
    op: Op,
    store: Store,
    policy: Policy,
    rec: Record,
)
    requires
        op matches Op::RegisterAgentActivity { action: Action::CreateAgent(ca) }
            && store.spec_get(ca.prev_action) == Some(rec),
        !(rec.action is AgentValidationPkg),
    ensures
        spec_validate(op, store, policy) == Ok::<Verdict, EngineError>(
            Verdict::Invalid(Reason::PrevActionNotValidationPkg),
        ),
{
}

/// An agent-chain bootstrap whose resolved predecessor carries a membrane
/// proof is judged by the injected joining policy alone.
pub proof fn lemma_create_agent_joining_policy_decides(
    op: Op,
    store: Store,
    policy: Policy,
    rec: Record,
)
    requires
        op matches Op::RegisterAgentActivity { action: Action::CreateAgent(ca) }
            && store.spec_get(ca.prev_action) == Some(rec),
        rec.action matches Action::AgentValidationPkg(_),
    ensures
        spec_validate(op, store, policy) matches Ok(v) && v == spec_membership_verdict(
            policy.membership,
            op->RegisterAgentActivity_action->CreateAgent_0.agent,
            rec.action->AgentValidationPkg_0.membrane_proof,
        ),
        policy.membership == MembershipPolicy::Open ==> spec_validate(op, store, policy) == Ok::<
            Verdict,
            EngineError,
        >(Verdict::Valid),
{
}

/// The lightweight phases and the full-record phase re-derive the same
/// verdict for the same mutation: a replica holding only the lightweight
/// view and a replica holding the full record agree, given the same causal
/// source. For an update mutation the lightweight view that carries the
/// transition is `RegisterUpdate`; the entry-level view of an update checks
/// the new content alone, a check the full-record view subsumes.
pub proof fn lemma_phases_agree(op_light: Op, record: Record, store: Store, policy: Policy)
    requires
        match op_light {
            Op::StoreEntry { action, entry } => {
                &&& action matches EntryCreationAction::Create(c)
                &&& record.action == Action::Create(c)
                &&& record.entry == Some(entry)
            },
            Op::RegisterUpdate { update, new_entry } => {
                &&& record.action == Action::Update(update)
                &&& record.entry == new_entry
            },
            Op::RegisterDelete { delete } => record.action == Action::Delete(delete),
            Op::RegisterCreateLink { create_link } => record.action == Action::CreateLink(
                create_link,
            ),
            Op::RegisterDeleteLink { delete_link, .. } => record.action == Action::DeleteLink(
                delete_link,
            ),
            _ => false,
        },
    ensures
        spec_validate(op_light, store, policy) == spec_validate(
            Op::StoreRecord { record },
            store,
            policy,
        ),
{
    let full = Op::StoreRecord { record };
    match op_light {
        Op::StoreEntry { action, entry } => {
            if let EntryCreationAction::Create(c) = action {
                match crate::classify::spec_entry_flat(c.entry_type, Some(entry)) {
                    Ok(Some(et)) => {
                        assert(spec_validate(op_light, store, policy) == Ok::<
                            Verdict,
                            EngineError,
                        >(Verdict::Valid));
                        assert(spec_validate(full, store, policy) == Ok::<Verdict, EngineError>(
                            Verdict::Valid,
                        ));
                    },
                    Ok(None) => {
                        assert(spec_validate(op_light, store, policy) == Ok::<
                            Verdict,
                            EngineError,
                        >(Verdict::Valid));
                        assert(spec_validate(full, store, policy) == Ok::<Verdict, EngineError>(
                            Verdict::Valid,
                        ));
                    },
                    Err(e) => {
                        assert(spec_validate(op_light, store, policy) == Err::<
                            Verdict,
                            EngineError,
                        >(e));
                        assert(spec_validate(full, store, policy) == Err::<Verdict, EngineError>(
                            e,
                        ));
                    },
                }
            }
        },
        Op::RegisterUpdate { update, new_entry } => {
            match crate::classify::spec_entry_flat(update.entry_type, new_entry) {
                Ok(Some(et)) => {
                    assert(spec_flatten(op_light) == Ok::<_, EngineError>(
                        crate::classify::FlatOpV::RegisterUpdate(
                            crate::classify::OpUpdateV::Entry { app_entry: et, action: update },
                        ),
                    ));
                    assert(spec_flatten(full) == Ok::<_, EngineError>(
                        crate::classify::FlatOpV::StoreRecord(
                            crate::classify::OpRecordV::UpdateEntry {
                                app_entry: et,
                                action: update,
                            },
                        ),
                    ));
                },
                Ok(None) => {},
                Err(e) => {},
            }
        },
        _ => {},
    }
}

} // verus!
