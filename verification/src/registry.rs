//! The type registry: the closed set of entry types and link types this
//! application declares, and the resolution of raw payloads against it.
//!
//! The registry declares exactly one entry type (the profile) and exactly
//! one link type (agent to profile). Anything outside this schema is either
//! rejected or default-accepted by the dispatcher, never silently treated as
//! a declared type.

use vstd::prelude::*;

use crate::model::{AppEntryDef, AppPayload, EntryVisibility};
use crate::profile::{Profile, ProfileV};

verus! {

/// The zome index under which this application's types are declared.
pub const DECLARED_ZOME_INDEX: u64 = 0;

/// The entry-type index of the profile type within its zome.
pub const PROFILE_ENTRY_INDEX: u64 = 0;

/// The link-type index of the agent-to-profile link within its zome.
pub const AGENT_TO_PROFILE_LINK_INDEX: u64 = 0;

/// The declared entry types of this application, resolved to their content.
#[derive(Clone, Debug)]
pub enum EntryTypes {
    Profile(Profile),
}

/// The mathematical model of a resolved entry: the declared type it carries.
pub ghost enum EntryTypesV {
    Profile(ProfileV),
}

impl View for EntryTypes {
    type V = EntryTypesV;

    open spec fn view(&self) -> EntryTypesV {
        match self {
            EntryTypes::Profile(p) => EntryTypesV::Profile(p@),
        }
    }
}

/// The declared link types of this application.
#[derive(Clone, Copy, Debug, PartialEq, Eq, Structural)]
pub enum LinkTypes {
    AgentToProfile,
}

/// Whether `def` names the declared profile entry type: right zome, right
/// index, and published content.
pub open spec fn spec_is_profile_def(def: AppEntryDef) -> bool {
    &&& def.zome_index == DECLARED_ZOME_INDEX
    &&& def.entry_index == PROFILE_ENTRY_INDEX
    &&& def.visibility == EntryVisibility::Public
}

/// Decides [`spec_is_profile_def`].
pub fn is_profile_def(def: &AppEntryDef) -> (r: bool)
    ensures
        r == spec_is_profile_def(*def),
{
    def.zome_index == DECLARED_ZOME_INDEX && def.entry_index == PROFILE_ENTRY_INDEX
        && matches!(def.visibility, EntryVisibility::Public)
}

/// How a raw app payload resolves against the registry under a claimed
/// entry-type coordinate.
#[derive(Clone, Copy, Debug, PartialEq, Eq, Structural)]
pub enum ResolvedKind {
    /// The coordinate is declared and the content parses as that type.
    Declared,
    /// The coordinate names no declared type of this application.
    UnknownType,
    /// The coordinate is declared but the content does not parse as it.
    Unparseable,
}

/// The resolution of a claimed coordinate and a payload against the registry.
pub open spec fn spec_resolve_kind(def: AppEntryDef, payload: AppPayload) -> ResolvedKind {
    if !spec_is_profile_def(def) {
        ResolvedKind::UnknownType
    } else {
        match payload {
            AppPayload::Profile(_) => ResolvedKind::Declared,
            AppPayload::Undeclared => ResolvedKind::Unparseable,
        }
    }
}

/// Resolves a claimed entry-type coordinate and a raw payload against the
/// registry: the declared content on success, and the failure kind otherwise.
pub fn resolve_app_entry(def: &AppEntryDef, payload: &AppPayload) -> (r: Result<
    EntryTypes,
    ResolvedKind,
>)
    ensures
        match r {
            Ok(et) => {
                &&& spec_resolve_kind(*def, *payload) == ResolvedKind::Declared
                &&& payload matches AppPayload::Profile(p) && et@ == EntryTypesV::Profile(p@)
            },
            Err(k) => k != ResolvedKind::Declared && k == spec_resolve_kind(*def, *payload),
        },
{
    if !is_profile_def(def) {
        Err(ResolvedKind::UnknownType)
    } else {
        match payload {
            AppPayload::Profile(p) => Ok(EntryTypes::Profile(p.clone())),
            AppPayload::Undeclared => Err(ResolvedKind::Unparseable),
        }
    }
}

/// Whether a raw link-type coordinate names a declared link type, and which.
pub open spec fn spec_link_type(zome_index: u64, link_index: u64) -> Option<LinkTypes> {
    if zome_index == DECLARED_ZOME_INDEX && link_index == AGENT_TO_PROFILE_LINK_INDEX {
        Some(LinkTypes::AgentToProfile)
    } else {
        None
    }
}

/// Resolves a raw link-type coordinate against the registry.
pub fn link_type_of(zome_index: u64, link_index: u64) -> (r: Option<LinkTypes>)
    ensures
        r == spec_link_type(zome_index, link_index),
{
    if zome_index == DECLARED_ZOME_INDEX && link_index == AGENT_TO_PROFILE_LINK_INDEX {
        Some(LinkTypes::AgentToProfile)
    } else {
        None
    }
}

} // verus!
