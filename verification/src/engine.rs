//! The rule dispatcher and the validation entry point.
//!
//! [`validate`] is the engine's entire external surface: it classifies one
//! operation, routes it to the single applicable validator — resolving any
//! needed prior record through the causal-lookup source — and returns a
//! verdict, or a failure when the needed causal context is not locally
//! fetchable. Phases and types the application declares no handler for are
//! accepted by an explicit, auditable default branch.
//!
//! Every decision is a pure function of the operation, the policy and what
//! the source resolves: [`spec_validate`] is that function, and [`validate`]
//! is proved to return exactly its value. Replicas holding the same records
//! therefore reach the identical verdict.
//!
//! A fetched original that turns out unsuitable (wrong action kind, missing
//! or wrong-typed entry) is a deterministic rejection: every replica holding
//! the same record rejects it the same way. Only an unresolvable address or
//! an undecipherable operation payload is a failure instead of a verdict,
//! in both the lightweight and the full-record phase alike.

use vstd::prelude::*;

use crate::classify::{
    flatten, spec_flatten, FlatOp, FlatOpV, OpActivity, OpEntry, OpEntryV, OpRecord, OpRecordV,
    OpUpdate, OpUpdateV,
};
use crate::model::{
    Action, Address, Entry, EntryCreationAction, EntryType, Op, UpdateAction,
};
use crate::profile::{
    spec_update_verdict, validate_create_profile, validate_delete_profile,
    validate_update_profile, Profile, ProfileV, UpdatePolicy,
};
use crate::registry::{spec_is_profile_def, EntryTypes, EntryTypesV, LinkTypes};
use crate::store::Store;
use crate::verdict::{EngineError, Reason, Verdict};

verus! {

/// The joining policy: the injectable decision point consulted when an
/// agent's chain is bootstrapped. Open-membership and gated deployments
/// share the same engine and differ only here.
#[derive(Clone, Copy, Debug, PartialEq, Eq, Structural)]
pub enum MembershipPolicy {
    /// Open membership: every agent may join, proof or no proof.
    Open,
    /// Gated membership: an agent must present a membrane proof.
    RequireProof,
}

/// The declared policies the dispatcher routes with: how profile updates
/// are judged, and how joining agents are judged.
#[derive(Clone, Copy, Debug, PartialEq, Eq, Structural)]
pub struct Policy {
    pub update: UpdatePolicy,
    pub membership: MembershipPolicy,
}

impl Default for Policy {
    /// The policy in force when a deployment declares nothing else:
    /// guarded mutability and open membership.
    fn default() -> (r: Self)
        ensures
            r.update == UpdatePolicy::Mutable,
            r.membership == MembershipPolicy::Open,
    {
        Policy { update: UpdatePolicy::Mutable, membership: MembershipPolicy::Open }
    }
}

/// The verdict the joining policy gives an agent and its credential.
pub open spec fn spec_membership_verdict(
    policy: MembershipPolicy,
    agent_pub_key: Address,
    membrane_proof: Option<Vec<u8>>,
) -> Verdict {
    match policy {
        MembershipPolicy::Open => Verdict::Valid,
        MembershipPolicy::RequireProof => match membrane_proof {
            Some(_) => Verdict::Valid,
            None => Verdict::Invalid(Reason::MembraneProofRequired),
        },
    }
}

/// Decides whether an agent may join, from its key and the membrane proof
/// it presented. The network performs this check when an agent joins; the
/// policy is injected so that deployments can restrict membership.
pub fn validate_agent_joining(
    policy: &MembershipPolicy,
    agent_pub_key: Address,
    membrane_proof: &Option<Vec<u8>>,
) -> (r: Verdict)
    ensures
        r == spec_membership_verdict(*policy, agent_pub_key, *membrane_proof),
{
    match policy {
        MembershipPolicy::Open => Verdict::Valid,
        MembershipPolicy::RequireProof => match membrane_proof {
            Some(_) => Verdict::Valid,
            None => Verdict::Invalid(Reason::MembraneProofRequired),
        },
    }
}

/// What an agent checks about its own chain during the genesis process,
/// before it can reach the network.
#[derive(Clone, Debug)]
pub struct GenesisSelfCheckData {
    pub agent_key: Address,
    pub membrane_proof: Option<Vec<u8>>,
}

/// Validation performed during genesis, by the joining agent alone. No
/// lookup is available at that point, so nothing is checked here.
pub fn genesis_self_check(data: &GenesisSelfCheckData) -> (r: Verdict)
    ensures
        r == Verdict::Valid,
{
    let _ = data;
    Verdict::Valid
}

/// The profile held by a fetched original record, when its action declares
/// the declared profile type and its entry parses as one.
pub open spec fn spec_original_profile(entry_type: EntryType, entry: Option<Entry>) -> Option<
    ProfileV,
> {
    match entry_type {
        EntryType::App(def) => {
            if spec_is_profile_def(def) {
                match entry {
                    Some(Entry::App(crate::model::AppPayload::Profile(p))) => Some(p@),
                    _ => None,
                }
            } else {
                None
            }
        },
        _ => None,
    }
}

/// The outcome of an update of a declared entry, given what the source
/// resolves for the claimed original.
pub open spec fn spec_update_outcome(
    policy: UpdatePolicy,
    new: ProfileV,
    original_action_addr: Address,
    store: Store,
) -> Result<Verdict, EngineError> {
    match store.spec_get(original_action_addr) {
        None => Err(EngineError::RecordNotFound(original_action_addr)),
        Some(rec) => match rec.action {
            Action::Create(c) => spec_update_against(policy, new, c.entry_type, rec.entry),
            Action::Update(u) => spec_update_against(policy, new, u.entry_type, rec.entry),
            _ => Ok(Verdict::Invalid(Reason::UpdateOriginalNotCreation)),
        },
    }
}

/// The outcome of an update once the original record was fetched: the
/// original must hold an entry of the same declared type, and the pair is
/// then judged by the update policy.
pub open spec fn spec_update_against(
    policy: UpdatePolicy,
    new: ProfileV,
    original_entry_type: EntryType,
    original_entry: Option<Entry>,
) -> Result<Verdict, EngineError> {
    match spec_original_profile(original_entry_type, original_entry) {
        Some(original) => Ok(spec_update_verdict(policy, new, original)),
        None => Ok(Verdict::Invalid(Reason::UpdateOriginalTypeMismatch)),
    }
}

/// The outcome of a delete, given what the source resolves for the deleted
/// action: a delete of a declared profile is always rejected; a delete of
/// something outside the schema (an agent key) is accepted by default; an
/// unsuitable original is rejected with the reason.
pub open spec fn spec_delete_outcome(original_action_addr: Address, store: Store) -> Result<
    Verdict,
    EngineError,
> {
    match store.spec_get(original_action_addr) {
        None => Err(EngineError::RecordNotFound(original_action_addr)),
        Some(rec) => match rec.action {
            Action::Create(c) => spec_delete_against(c.entry_type, rec.entry),
            Action::Update(u) => spec_delete_against(u.entry_type, rec.entry),
            _ => Ok(Verdict::Invalid(Reason::DeleteOriginalNotCreation)),
        },
    }
}

/// The outcome of a delete once the original record was fetched.
pub open spec fn spec_delete_against(
    original_entry_type: EntryType,
    original_entry: Option<Entry>,
) -> Result<Verdict, EngineError> {
    match original_entry_type {
        EntryType::App(def) => match original_entry {
            None => Ok(Verdict::Invalid(Reason::DeleteOriginalMissingEntry)),
            Some(entry) => {
                if spec_is_profile_def(def) {
                    match entry {
                        Entry::App(crate::model::AppPayload::Profile(_)) => Ok(
                            Verdict::Invalid(Reason::ProfilesCannotBeDeleted),
                        ),
                        _ => Ok(Verdict::Invalid(Reason::DeleteOriginalUndeclared)),
                    }
                } else {
                    Ok(Verdict::Invalid(Reason::DeleteOriginalUndeclared))
                }
            },
        },
        _ => Ok(Verdict::Valid),
    }
}

/// The outcome of an agent-chain bootstrap: the action immediately
/// preceding the agent-key record must be an AgentValidationPkg, whose
/// membrane proof the joining policy then judges.
pub open spec fn spec_agent_outcome(
    policy: MembershipPolicy,
    agent: Address,
    prev_action_addr: Address,
    store: Store,
) -> Result<Verdict, EngineError> {
    match store.spec_get(prev_action_addr) {
        None => Err(EngineError::ActionNotFound(prev_action_addr)),
        Some(rec) => match rec.action {
            Action::AgentValidationPkg(avp) => Ok(
                spec_membership_verdict(policy, agent, avp.membrane_proof),
            ),
            _ => Ok(Verdict::Invalid(Reason::PrevActionNotValidationPkg)),
        },
    }
}

/// The verdict of a link creation: only the single declared link type is
/// allowed, and any other type is rejected — a closed-world policy, shared
/// by the lightweight and the full-record phase.
pub open spec fn spec_create_link_verdict(link_type: Option<LinkTypes>) -> Verdict {
    match link_type {
        Some(LinkTypes::AgentToProfile) => Verdict::Valid,
        None => Verdict::Invalid(Reason::UndeclaredLinkType),
    }
}

/// Routes one classified operation to its validator. Every arm either
/// applies a declared rule or accepts by the explicit default for phases
/// the application has no opinion about.
pub open spec fn spec_dispatch(flat: FlatOpV, store: Store, policy: Policy) -> Result<
    Verdict,
    EngineError,
> {
    match flat {
        FlatOpV::StoreEntry(oe) => match oe {
            OpEntryV::CreateEntry { .. } => Ok(Verdict::Valid),
            OpEntryV::UpdateEntry { .. } => Ok(Verdict::Valid),
            OpEntryV::Other => Ok(Verdict::Valid),
        },
        FlatOpV::RegisterUpdate(ou) => match ou {
            OpUpdateV::Entry { app_entry: EntryTypesV::Profile(p), action } => spec_update_outcome(
                policy.update,
                p,
                action.original_action_addr,
                store,
            ),
            OpUpdateV::Other => Ok(Verdict::Valid),
        },
        FlatOpV::RegisterDelete { action } => spec_delete_outcome(action.deletes_addr, store),
        FlatOpV::RegisterCreateLink { link_type, .. } => Ok(spec_create_link_verdict(link_type)),
        FlatOpV::RegisterDeleteLink { .. } => Ok(Verdict::Invalid(Reason::NoDeletableLinkTypes)),
        FlatOpV::StoreRecord(orc) => match orc {
            OpRecordV::CreateEntry { .. } => Ok(Verdict::Valid),
            OpRecordV::UpdateEntry { app_entry: EntryTypesV::Profile(p), action } => {
                spec_update_outcome(policy.update, p, action.original_action_addr, store)
            },
            OpRecordV::DeleteEntry { action } => spec_delete_outcome(action.deletes_addr, store),
            OpRecordV::CreateLink { link_type, .. } => Ok(spec_create_link_verdict(link_type)),
            OpRecordV::DeleteLink { .. } => Ok(Verdict::Invalid(Reason::NoDeletableLinkTypes)),
            OpRecordV::Other => Ok(Verdict::Valid),
        },
        FlatOpV::RegisterAgentActivity(oa) => match oa {
            OpActivity::CreateAgent { agent, action } => spec_agent_outcome(
                policy.membership,
                agent,
                action.prev_action,
                store,
            ),
            OpActivity::Other => Ok(Verdict::Valid),
        },
    }
}

/// What [`validate`] returns: classification followed by dispatch.
pub open spec fn spec_validate(op: Op, store: Store, policy: Policy) -> Result<
    Verdict,
    EngineError,
> {
    match spec_flatten(op) {
        Ok(flat) => spec_dispatch(flat, store, policy),
        Err(e) => Err(e),
    }
}

/// Extracts the original profile from a fetched record's declared type and
/// entry, as [`spec_original_profile`] describes.
fn original_profile<'a>(entry_type: &EntryType, entry: &'a Option<Entry>) -> (r: Option<
    &'a Profile,
>)
    ensures
        match r {
            Some(p) => spec_original_profile(*entry_type, *entry) == Some(p@),
            None => spec_original_profile(*entry_type, *entry) is None,
        },
{
    match entry_type {
        EntryType::App(def) => {
            if crate::registry::is_profile_def(def) {
                match entry {
                    Some(Entry::App(crate::model::AppPayload::Profile(p))) => Some(p),
                    _ => None,
                }
            } else {
                None
            }
        },
        _ => None,
    }
}

/// Resolves the original record of an update and judges the transition
/// under the declared update policy.
fn update_outcome(
    policy: &UpdatePolicy,
    new_profile: &Profile,
    action: &UpdateAction,
    store: &Store,
) -> (r: Result<Verdict, EngineError>)
    ensures
        r == spec_update_outcome(*policy, new_profile@, action.original_action_addr, *store),
{
    let addr = action.original_action_addr;
    match store.get_record(addr) {
        None => Err(EngineError::RecordNotFound(addr)),
        Some(rec) => {
            let original_action = match &rec.action {
                Action::Create(c) => EntryCreationAction::Create(*c),
                Action::Update(u) => EntryCreationAction::Update(*u),
                _ => {
                    return Ok(Verdict::Invalid(Reason::UpdateOriginalNotCreation));
                },
            };
            let original_entry_type = match &original_action {
                EntryCreationAction::Create(c) => &c.entry_type,
                EntryCreationAction::Update(u) => &u.entry_type,
            };
            match original_profile(original_entry_type, &rec.entry) {
                Some(original) => Ok(
                    validate_update_profile(policy, action, new_profile, &original_action, original),
                ),
                None => Ok(Verdict::Invalid(Reason::UpdateOriginalTypeMismatch)),
            }
        },
    }
}

/// Resolves the record a delete refers to, recovers its concrete type, and
/// judges the delete.
fn delete_outcome(delete: &crate::model::DeleteAction, store: &Store) -> (r: Result<
    Verdict,
    EngineError,
>)
    ensures
        r == spec_delete_outcome(delete.deletes_addr, *store),
{
    let addr = delete.deletes_addr;
    match store.get_record(addr) {
        None => Err(EngineError::RecordNotFound(addr)),
        Some(rec) => {
            let original_action = match &rec.action {
                Action::Create(c) => EntryCreationAction::Create(*c),
                Action::Update(u) => EntryCreationAction::Update(*u),
                _ => {
                    return Ok(Verdict::Invalid(Reason::DeleteOriginalNotCreation));
                },
            };
            let original_entry_type = match &original_action {
                EntryCreationAction::Create(c) => &c.entry_type,
                EntryCreationAction::Update(u) => &u.entry_type,
            };
            match original_entry_type {
                EntryType::App(_) => match &rec.entry {
                    None => Ok(Verdict::Invalid(Reason::DeleteOriginalMissingEntry)),
                    Some(_) => match original_profile(original_entry_type, &rec.entry) {
                        Some(original) => Ok(
                            validate_delete_profile(delete, &original_action, original),
                        ),
                        None => Ok(Verdict::Invalid(Reason::DeleteOriginalUndeclared)),
                    },
                },
                _ => Ok(Verdict::Valid),
            }
        },
    }
}

/// Resolves the action preceding an agent-key record and judges the
/// chain bootstrap under the joining policy.
fn agent_outcome(
    policy: &MembershipPolicy,
    agent: Address,
    prev_action_addr: Address,
    store: &Store,
) -> (r: Result<Verdict, EngineError>)
    ensures
        r == spec_agent_outcome(*policy, agent, prev_action_addr, *store),
{
    match store.get_action(prev_action_addr) {
        None => Err(EngineError::ActionNotFound(prev_action_addr)),
        Some(action) => match action {
            Action::AgentValidationPkg(avp) => Ok(
                validate_agent_joining(policy, agent, &avp.membrane_proof),
            ),
            _ => Ok(Verdict::Invalid(Reason::PrevActionNotValidationPkg)),
        },
    }
}

/// Decides whether a link creation is of the single declared link type.
fn create_link_verdict(link_type: &Option<LinkTypes>) -> (r: Verdict)
    ensures
        r == spec_create_link_verdict(*link_type),
{
    match link_type {
        Some(LinkTypes::AgentToProfile) => Verdict::Valid,
        None => Verdict::Invalid(Reason::UndeclaredLinkType),
    }
}

/// Routes one classified operation to the single applicable validator.
pub fn dispatch(flat: &FlatOp, store: &Store, policy: &Policy) -> (r: Result<
    Verdict,
    EngineError,
>)
    ensures
        r == spec_dispatch(flat@, *store, *policy),
{
    match flat {
        FlatOp::StoreEntry(oe) => match oe {
            OpEntry::CreateEntry { app_entry: EntryTypes::Profile(p), action } => Ok(
                validate_create_profile(&EntryCreationAction::Create(*action), p),
            ),
            OpEntry::UpdateEntry { app_entry: EntryTypes::Profile(p), action } => Ok(
                validate_create_profile(&EntryCreationAction::Update(*action), p),
            ),
            OpEntry::Other => Ok(Verdict::Valid),
        },
        FlatOp::RegisterUpdate(ou) => match ou {
            OpUpdate::Entry { app_entry: EntryTypes::Profile(p), action } => update_outcome(
                &policy.update,
                p,
                action,
                store,
            ),
            OpUpdate::Other => Ok(Verdict::Valid),
        },
        FlatOp::RegisterDelete { action } => delete_outcome(action, store),
        FlatOp::RegisterCreateLink { link_type, .. } => Ok(create_link_verdict(link_type)),
        FlatOp::RegisterDeleteLink { .. } => Ok(Verdict::Invalid(Reason::NoDeletableLinkTypes)),
        FlatOp::StoreRecord(orc) => match orc {
            OpRecord::CreateEntry { app_entry: EntryTypes::Profile(p), action } => Ok(
                validate_create_profile(&EntryCreationAction::Create(*action), p),
            ),
            OpRecord::UpdateEntry { app_entry: EntryTypes::Profile(p), action } => {
                // The new content must pass the creation checks before the
                // transition itself is judged.
                let content = validate_create_profile(&EntryCreationAction::Update(*action), p);
                match content {
                    Verdict::Valid => update_outcome(&policy.update, p, action, store),
                    Verdict::Invalid(_) => Ok(content),
                }
            },
            OpRecord::DeleteEntry { action } => delete_outcome(action, store),
            OpRecord::CreateLink { link_type, .. } => Ok(create_link_verdict(link_type)),
            OpRecord::DeleteLink { .. } => Ok(Verdict::Invalid(Reason::NoDeletableLinkTypes)),
            OpRecord::Other => Ok(Verdict::Valid),
        },
        FlatOp::RegisterAgentActivity(oa) => match oa {
            OpActivity::CreateAgent { agent, action } => agent_outcome(
                &policy.membership,
                *agent,
                action.prev_action,
                store,
            ),
            OpActivity::Other => Ok(Verdict::Valid),
        },
    }
}

/// The validation entry point: classifies one operation, routes it, and
/// returns the verdict — or the failure that classification or a lookup
/// produced. This is the entire external surface of the engine; it is a
/// pure function of its three arguments, so every replica holding the same
/// records reaches the identical verdict.
pub fn validate(op: &Op, store: &Store, policy: &Policy) -> (r: Result<Verdict, EngineError>)
    ensures
        r == spec_validate(*op, *store, *policy),
{
    match flatten(op) {
        Ok(flat) => dispatch(&flat, store, policy),
        Err(e) => Err(e),
    }
}

} // verus!
