//! The operation classifier: normalizes a raw operation into one of the
//! seven lifecycle-phase variants, each refined by the concrete declared
//! type it concerns.
//!
//! For entry-bearing phases the payload is resolved against the registry;
//! content that does not match any declared type makes classification fail,
//! and that failure propagates as an [`EngineError`], never as a silent
//! accept. Phases the application has no opinion about (agent keys, private
//! entries, capability bookkeeping, chain markers) classify as their
//! `Other` variant, which the dispatcher accepts by default.

use vstd::prelude::*;

use crate::model::{
    Address, CreateAction, CreateAgentAction, DeleteAction, Entry, EntryCreationAction, EntryType,
    EntryVisibility, Op, UpdateAction,
};
use crate::registry::{
    resolve_app_entry, spec_resolve_kind, spec_link_type, link_type_of, EntryTypes, EntryTypesV,
    LinkTypes, ResolvedKind,
};
use crate::verdict::EngineError;

verus! {

/// A classified entry-storing operation.
#[derive(Clone, Debug)]
pub enum OpEntry {
    /// A declared entry is being created.
    CreateEntry { app_entry: EntryTypes, action: CreateAction },
    /// A declared entry is being written by an update.
    UpdateEntry { app_entry: EntryTypes, action: UpdateAction },
    /// An entry the application has no opinion about (an agent key).
    Other,
}

/// The mathematical model of [`OpEntry`].
pub ghost enum OpEntryV {
    CreateEntry { app_entry: EntryTypesV, action: CreateAction },
    UpdateEntry { app_entry: EntryTypesV, action: UpdateAction },
    Other,
}

impl View for OpEntry {
    type V = OpEntryV;

    open spec fn view(&self) -> OpEntryV {
        match self {
            OpEntry::CreateEntry { app_entry, action } => OpEntryV::CreateEntry {
                app_entry: app_entry@,
                action: *action,
            },
            OpEntry::UpdateEntry { app_entry, action } => OpEntryV::UpdateEntry {
                app_entry: app_entry@,
                action: *action,
            },
            OpEntry::Other => OpEntryV::Other,
        }
    }
}

/// A classified update registration.
#[derive(Clone, Debug)]
pub enum OpUpdate {
    /// A declared entry is being replaced.
    Entry { app_entry: EntryTypes, action: UpdateAction },
    /// An update the application has no opinion about (an agent key, a
    /// private entry, capability bookkeeping).
    Other,
}

/// The mathematical model of [`OpUpdate`].
pub ghost enum OpUpdateV {
    Entry { app_entry: EntryTypesV, action: UpdateAction },
    Other,
}

impl View for OpUpdate {
    type V = OpUpdateV;

    open spec fn view(&self) -> OpUpdateV {
        match self {
            OpUpdate::Entry { app_entry, action } => OpUpdateV::Entry {
                app_entry: app_entry@,
                action: *action,
            },
            OpUpdate::Other => OpUpdateV::Other,
        }
    }
}

/// A classified full-record operation.
#[derive(Clone, Debug)]
pub enum OpRecord {
    /// The record creates a declared entry.
    CreateEntry { app_entry: EntryTypes, action: CreateAction },
    /// The record updates a declared entry.
    UpdateEntry { app_entry: EntryTypes, action: UpdateAction },
    /// The record deletes an entry; the original must be fetched to learn
    /// its concrete type.
    DeleteEntry { action: DeleteAction },
    /// The record creates a link; `link_type` is its registry resolution.
    CreateLink { link_type: Option<LinkTypes>, base_addr: Address, target_addr: Address },
    /// The record deletes a link.
    DeleteLink { original_action_addr: Address, base_addr: Address },
    /// A record the application has no opinion about (private entries,
    /// capability bookkeeping, chain markers, agent keys).
    Other,
}

/// The mathematical model of [`OpRecord`].
pub ghost enum OpRecordV {
    CreateEntry { app_entry: EntryTypesV, action: CreateAction },
    UpdateEntry { app_entry: EntryTypesV, action: UpdateAction },
    DeleteEntry { action: DeleteAction },
    CreateLink { link_type: Option<LinkTypes>, base_addr: Address, target_addr: Address },
    DeleteLink { original_action_addr: Address, base_addr: Address },
    Other,
}

impl View for OpRecord {
    type V = OpRecordV;

    open spec fn view(&self) -> OpRecordV {
        match self {
            OpRecord::CreateEntry { app_entry, action } => OpRecordV::CreateEntry {
                app_entry: app_entry@,
                action: *action,
            },
            OpRecord::UpdateEntry { app_entry, action } => OpRecordV::UpdateEntry {
                app_entry: app_entry@,
                action: *action,
            },
            OpRecord::DeleteEntry { action } => OpRecordV::DeleteEntry { action: *action },
            OpRecord::CreateLink { link_type, base_addr, target_addr } => OpRecordV::CreateLink {
                link_type: *link_type,
                base_addr: *base_addr,
                target_addr: *target_addr,
            },
            OpRecord::DeleteLink { original_action_addr, base_addr } => OpRecordV::DeleteLink {
                original_action_addr: *original_action_addr,
                base_addr: *base_addr,
            },
            OpRecord::Other => OpRecordV::Other,
        }
    }
}

/// A classified agent-chain extension.
#[derive(Clone, Copy, Debug, PartialEq, Eq, Structural)]
pub enum OpActivity {
    /// An agent key is being recorded at the root of a chain.
    CreateAgent { agent: Address, action: CreateAgentAction },
    /// Chain activity the application has no opinion about.
    Other,
}

/// A raw operation, classified into its lifecycle phase and concrete type.
#[derive(Clone, Debug)]
pub enum FlatOp {
    StoreEntry(OpEntry),
    RegisterUpdate(OpUpdate),
    RegisterDelete { action: DeleteAction },
    RegisterCreateLink { link_type: Option<LinkTypes>, base_addr: Address, target_addr: Address },
    RegisterDeleteLink {
        link_type: Option<LinkTypes>,
        original_action_addr: Address,
        base_addr: Address,
    },
    StoreRecord(OpRecord),
    RegisterAgentActivity(OpActivity),
}

/// The mathematical model of [`FlatOp`].
pub ghost enum FlatOpV {
    StoreEntry(OpEntryV),
    RegisterUpdate(OpUpdateV),
    RegisterDelete { action: DeleteAction },
    RegisterCreateLink { link_type: Option<LinkTypes>, base_addr: Address, target_addr: Address },
    RegisterDeleteLink {
        link_type: Option<LinkTypes>,
        original_action_addr: Address,
        base_addr: Address,
    },
    StoreRecord(OpRecordV),
    RegisterAgentActivity(OpActivity),
}

impl View for FlatOp {
    type V = FlatOpV;

    open spec fn view(&self) -> FlatOpV {
        match self {
            FlatOp::StoreEntry(oe) => FlatOpV::StoreEntry(oe@),
            FlatOp::RegisterUpdate(ou) => FlatOpV::RegisterUpdate(ou@),
            FlatOp::RegisterDelete { action } => FlatOpV::RegisterDelete { action: *action },
            FlatOp::RegisterCreateLink { link_type, base_addr, target_addr } => {
                FlatOpV::RegisterCreateLink {
                    link_type: *link_type,
                    base_addr: *base_addr,
                    target_addr: *target_addr,
                }
            },
            FlatOp::RegisterDeleteLink { link_type, original_action_addr, base_addr } => {
                FlatOpV::RegisterDeleteLink {
                    link_type: *link_type,
                    original_action_addr: *original_action_addr,
                    base_addr: *base_addr,
                }
            },
            FlatOp::StoreRecord(orc) => FlatOpV::StoreRecord(orc@),
            FlatOp::RegisterAgentActivity(oa) => FlatOpV::RegisterAgentActivity(*oa),
        }
    }
}

/// The entry type an entry-creating action declares for its payload.
pub open spec fn spec_creation_entry_type(action: EntryCreationAction) -> EntryType {
    match action {
        EntryCreationAction::Create(c) => c.entry_type,
        EntryCreationAction::Update(u) => u.entry_type,
    }
}

/// The value behind an optional reference, for relating exec borrows to
/// their spec counterparts.
pub open spec fn spec_opt_entry(entry: Option<&Entry>) -> Option<Entry> {
    match entry {
        Some(e) => Some(*e),
        None => None,
    }
}

/// How an entry-bearing phase resolves: `Ok(Some(..))` is a declared entry,
/// `Ok(None)` is content the application has no opinion about, and `Err` is
/// a classification failure.
pub open spec fn spec_entry_flat(entry_type: EntryType, entry: Option<Entry>) -> Result<
    Option<EntryTypesV>,
    EngineError,
> {
    match entry_type {
        EntryType::App(def) => {
            if def.visibility == EntryVisibility::Private {
                Ok(None)
            } else {
                match entry {
                    Some(Entry::App(payload)) => match spec_resolve_kind(def, payload) {
                        ResolvedKind::Declared => match payload {
                            crate::model::AppPayload::Profile(p) => Ok(
                                Some(EntryTypesV::Profile(p@)),
                            ),
                            crate::model::AppPayload::Undeclared => Err(
                                EngineError::UndecodableEntry,
                            ),
                        },
                        ResolvedKind::UnknownType => Err(EngineError::UnknownEntryType),
                        ResolvedKind::Unparseable => Err(EngineError::UndecodableEntry),
                    },
                    Some(_) => Err(EngineError::MalformedOperation),
                    None => Err(EngineError::MalformedOperation),
                }
            }
        },
        _ => Ok(None),
    }
}

/// Resolves the payload of an entry-bearing phase against the registry.
fn entry_flat(entry_type: &EntryType, entry: Option<&Entry>) -> (r: Result<
    Option<EntryTypes>,
    EngineError,
>)
    ensures
        match r {
            Ok(Some(et)) => spec_entry_flat(*entry_type, spec_opt_entry(entry)) == Ok::<
                _,
                EngineError,
            >(Some(et@)),
            Ok(None) => spec_entry_flat(*entry_type, spec_opt_entry(entry)) == Ok::<
                Option<EntryTypesV>,
                EngineError,
            >(None),
            Err(e) => spec_entry_flat(*entry_type, spec_opt_entry(entry)) == Err::<
                Option<EntryTypesV>,
                _,
            >(e),
        },
{
    match entry_type {
        EntryType::App(def) => {
            if matches!(def.visibility, EntryVisibility::Private) {
                Ok(None)
            } else {
                match entry {
                    Some(Entry::App(payload)) => match resolve_app_entry(def, payload) {
                        Ok(et) => Ok(Some(et)),
                        Err(ResolvedKind::UnknownType) => Err(EngineError::UnknownEntryType),
                        Err(_) => Err(EngineError::UndecodableEntry),
                    },
                    Some(_) => Err(EngineError::MalformedOperation),
                    None => Err(EngineError::MalformedOperation),
                }
            }
        },
        _ => Ok(None),
    }
}

/// The classification of a raw operation: its lifecycle-phase variant, or
/// the failure that classifying it produced.
pub open spec fn spec_flatten(op: Op) -> Result<FlatOpV, EngineError> {
    match op {
        Op::StoreEntry { action, entry } => {
            match spec_entry_flat(spec_creation_entry_type(action), Some(entry)) {
                Err(e) => Err(e),
                Ok(None) => Ok(FlatOpV::StoreEntry(OpEntryV::Other)),
                Ok(Some(app_entry)) => match action {
                    EntryCreationAction::Create(c) => Ok(
                        FlatOpV::StoreEntry(OpEntryV::CreateEntry { app_entry, action: c }),
                    ),
                    EntryCreationAction::Update(u) => Ok(
                        FlatOpV::StoreEntry(OpEntryV::UpdateEntry { app_entry, action: u }),
                    ),
                },
            }
        },
        Op::RegisterUpdate { update, new_entry } => {
            match spec_entry_flat(update.entry_type, new_entry) {
                Err(e) => Err(e),
                Ok(None) => Ok(FlatOpV::RegisterUpdate(OpUpdateV::Other)),
                Ok(Some(app_entry)) => Ok(
                    FlatOpV::RegisterUpdate(OpUpdateV::Entry { app_entry, action: update }),
                ),
            }
        },
        Op::RegisterDelete { delete } => Ok(FlatOpV::RegisterDelete { action: delete }),
        Op::RegisterCreateLink { create_link } => Ok(
            FlatOpV::RegisterCreateLink {
                link_type: spec_link_type(create_link.zome_index, create_link.link_index),
                base_addr: create_link.base_addr,
                target_addr: create_link.target_addr,
            },
        ),
        Op::RegisterDeleteLink { delete_link, create_link } => Ok(
            FlatOpV::RegisterDeleteLink {
                link_type: spec_link_type(create_link.zome_index, create_link.link_index),
                original_action_addr: delete_link.link_addr,
                base_addr: delete_link.base_addr,
            },
        ),
        Op::StoreRecord { record } => {
            match record.action {
                crate::model::Action::Create(c) => {
                    match spec_entry_flat(c.entry_type, record.entry) {
                        Err(e) => Err(e),
                        Ok(None) => Ok(FlatOpV::StoreRecord(OpRecordV::Other)),
                        Ok(Some(app_entry)) => Ok(
                            FlatOpV::StoreRecord(OpRecordV::CreateEntry { app_entry, action: c }),
                        ),
                    }
                },
                crate::model::Action::Update(u) => {
                    match spec_entry_flat(u.entry_type, record.entry) {
                        Err(e) => Err(e),
                        Ok(None) => Ok(FlatOpV::StoreRecord(OpRecordV::Other)),
                        Ok(Some(app_entry)) => Ok(
                            FlatOpV::StoreRecord(OpRecordV::UpdateEntry { app_entry, action: u }),
                        ),
                    }
                },
                crate::model::Action::Delete(d) => Ok(
                    FlatOpV::StoreRecord(OpRecordV::DeleteEntry { action: d }),
                ),
                crate::model::Action::CreateLink(cl) => Ok(
                    FlatOpV::StoreRecord(
                        OpRecordV::CreateLink {
                            link_type: spec_link_type(cl.zome_index, cl.link_index),
                            base_addr: cl.base_addr,
                            target_addr: cl.target_addr,
                        },
                    ),
                ),
                crate::model::Action::DeleteLink(dl) => Ok(
                    FlatOpV::StoreRecord(
                        OpRecordV::DeleteLink {
                            original_action_addr: dl.link_addr,
                            base_addr: dl.base_addr,
                        },
                    ),
                ),
                _ => Ok(FlatOpV::StoreRecord(OpRecordV::Other)),
            }
        },
        Op::RegisterAgentActivity { action } => {
            match action {
                crate::model::Action::CreateAgent(ca) => Ok(
                    FlatOpV::RegisterAgentActivity(
                        OpActivity::CreateAgent { agent: ca.agent, action: ca },
                    ),
                ),
                _ => Ok(FlatOpV::RegisterAgentActivity(OpActivity::Other)),
            }
        },
    }
}

/// Classifies a raw operation into its lifecycle-phase variant, resolving
/// entry payloads and link types against the registry. A payload that does
/// not match any declared type is a classification failure, surfaced as an
/// error and never accepted silently.
pub fn flatten(op: &Op) -> (r: Result<FlatOp, EngineError>)
    ensures
        match r {
            Ok(flat) => spec_flatten(*op) == Ok::<_, EngineError>(flat@),
            Err(e) => spec_flatten(*op) == Err::<FlatOpV, _>(e),
        },
{
    match op {
        Op::StoreEntry { action, entry } => {
            let entry_type = match action {
                EntryCreationAction::Create(c) => &c.entry_type,
                EntryCreationAction::Update(u) => &u.entry_type,
            };
            match entry_flat(entry_type, Some(entry)) {
                Err(e) => Err(e),
                Ok(None) => Ok(FlatOp::StoreEntry(OpEntry::Other)),
                Ok(Some(app_entry)) => match action {
                    EntryCreationAction::Create(c) => Ok(
                        FlatOp::StoreEntry(OpEntry::CreateEntry { app_entry, action: *c }),
                    ),
                    EntryCreationAction::Update(u) => Ok(
                        FlatOp::StoreEntry(OpEntry::UpdateEntry { app_entry, action: *u }),
                    ),
                },
            }
        },
        Op::RegisterUpdate { update, new_entry } => {
            match entry_flat(&update.entry_type, new_entry.as_ref()) {
                Err(e) => Err(e),
                Ok(None) => Ok(FlatOp::RegisterUpdate(OpUpdate::Other)),
                Ok(Some(app_entry)) => Ok(
                    FlatOp::RegisterUpdate(OpUpdate::Entry { app_entry, action: *update }),
                ),
            }
        },
        Op::RegisterDelete { delete } => Ok(FlatOp::RegisterDelete { action: *delete }),
        Op::RegisterCreateLink { create_link } => Ok(
            FlatOp::RegisterCreateLink {
                link_type: link_type_of(create_link.zome_index, create_link.link_index),
                base_addr: create_link.base_addr,
                target_addr: create_link.target_addr,
            },
        ),
        Op::RegisterDeleteLink { delete_link, create_link } => Ok(
            FlatOp::RegisterDeleteLink {
                link_type: link_type_of(create_link.zome_index, create_link.link_index),
                original_action_addr: delete_link.link_addr,
                base_addr: delete_link.base_addr,
            },
        ),
        Op::StoreRecord { record } => {
            match &record.action {
                crate::model::Action::Create(c) => {
                    match entry_flat(&c.entry_type, record.entry.as_ref()) {
                        Err(e) => Err(e),
                        Ok(None) => Ok(FlatOp::StoreRecord(OpRecord::Other)),
                        Ok(Some(app_entry)) => Ok(
                            FlatOp::StoreRecord(OpRecord::CreateEntry { app_entry, action: *c }),
                        ),
                    }
                },
                crate::model::Action::Update(u) => {
                    match entry_flat(&u.entry_type, record.entry.as_ref()) {
                        Err(e) => Err(e),
                        Ok(None) => Ok(FlatOp::StoreRecord(OpRecord::Other)),
                        Ok(Some(app_entry)) => Ok(
                            FlatOp::StoreRecord(OpRecord::UpdateEntry { app_entry, action: *u }),
                        ),
                    }
                },
                crate::model::Action::Delete(d) => Ok(
                    FlatOp::StoreRecord(OpRecord::DeleteEntry { action: *d }),
                ),
                crate::model::Action::CreateLink(cl) => Ok(
                    FlatOp::StoreRecord(
                        OpRecord::CreateLink {
                            link_type: link_type_of(cl.zome_index, cl.link_index),
                            base_addr: cl.base_addr,
                            target_addr: cl.target_addr,
                        },
                    ),
                ),
                crate::model::Action::DeleteLink(dl) => Ok(
                    FlatOp::StoreRecord(
                        OpRecord::DeleteLink {
                            original_action_addr: dl.link_addr,
                            base_addr: dl.base_addr,
                        },
                    ),
                ),
                _ => Ok(FlatOp::StoreRecord(OpRecord::Other)),
            }
        },
        Op::RegisterAgentActivity { action } => {
            match action {
                crate::model::Action::CreateAgent(ca) => Ok(
                    FlatOp::RegisterAgentActivity(
                        OpActivity::CreateAgent { agent: ca.agent, action: *ca },
                    ),
                ),
                _ => Ok(FlatOp::RegisterAgentActivity(OpActivity::Other)),
            }
        },
    }
}

} // verus!
