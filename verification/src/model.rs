//! The data model the engine decides over.
//!
//! Entries, actions and records are content-addressed by the surrounding
//! store; an address is modeled as a plain integer handle. An action is a
//! signed, causally-ordered unit in an agent's append-only chain; every
//! action but the very first references exactly one immediately preceding
//! action. Signatures, timestamps and sequence numbers are checked by the
//! runtime before the engine runs and are therefore not part of the model.
//!
//! An app entry's serialized content is modeled by [`AppPayload`]: either
//! bytes that parse as one of the declared types, or bytes that parse as
//! none of them.

use vstd::prelude::*;

use crate::profile::Profile;

verus! {

/// A content address: the hash under which the store holds an action,
/// an entry or an agent key.
pub type Address = u64;

/// Whether an app entry's content is published to the network or kept
/// on the authoring chain only.
#[derive(Clone, Copy, Debug, PartialEq, Eq, Structural)]
pub enum EntryVisibility {
    Public,
    Private,
}

/// The coordinates of an app entry type: which integrity zome declared it,
/// and at which index, together with its visibility.
#[derive(Clone, Copy, Debug, PartialEq, Eq, Structural)]
pub struct AppEntryDef {
    pub zome_index: u64,
    pub entry_index: u64,
    pub visibility: EntryVisibility,
}

/// The system-level type of the entry an action creates or updates.
#[derive(Clone, Copy, Debug, PartialEq, Eq, Structural)]
pub enum EntryType {
    /// An application-defined entry, to be resolved against the registry.
    App(AppEntryDef),
    /// An agent's public key.
    AgentPubKey,
    /// A capability claim (private bookkeeping; the engine has no opinion).
    CapClaim,
    /// A capability grant (private bookkeeping; the engine has no opinion).
    CapGrant,
}

/// The serialized content of an app entry, as the registry sees it: either
/// it parses as a declared type, or it parses as none of them.
#[derive(Clone, Debug)]
pub enum AppPayload {
    /// Content that parses as a profile.
    Profile(Profile),
    /// Content that parses as no declared type of this application.
    Undeclared,
}

/// An entry: the immutable content payload an action may carry.
#[derive(Clone, Debug)]
pub enum Entry {
    /// An application-defined entry.
    App(AppPayload),
    /// An agent's public key.
    Agent(Address),
    /// A capability claim.
    CapClaim,
    /// A capability grant.
    CapGrant,
}

/// Creates a new entry.
#[derive(Clone, Copy, Debug, PartialEq, Eq, Structural)]
pub struct CreateAction {
    pub author: Address,
    pub prev_action: Address,
    pub entry_type: EntryType,
    pub entry_addr: Address,
}

/// Replaces the content of an earlier creation with a new entry.
#[derive(Clone, Copy, Debug, PartialEq, Eq, Structural)]
pub struct UpdateAction {
    pub author: Address,
    pub prev_action: Address,
    pub entry_type: EntryType,
    pub entry_addr: Address,
    /// The action that created or last updated the logical item.
    pub original_action_addr: Address,
}

/// Removes the visibility of an earlier creation.
#[derive(Clone, Copy, Debug, PartialEq, Eq, Structural)]
pub struct DeleteAction {
    pub author: Address,
    pub prev_action: Address,
    /// The creation action this delete refers to.
    pub deletes_addr: Address,
}

/// Creates a typed, tagged, directed edge from a base to a target address.
#[derive(Clone, Debug)]
pub struct CreateLinkAction {
    pub author: Address,
    pub prev_action: Address,
    pub base_addr: Address,
    pub target_addr: Address,
    /// Which integrity zome declared the link type.
    pub zome_index: u64,
    /// The link type's index within that zome.
    pub link_index: u64,
    /// An arbitrary byte tag, fixed at creation; the engine never reads it.
    pub tag: Vec<u8>,
}

/// Removes the visibility of an earlier link creation.
#[derive(Clone, Copy, Debug, PartialEq, Eq, Structural)]
pub struct DeleteLinkAction {
    pub author: Address,
    pub prev_action: Address,
    /// The link-creation action this delete refers to.
    pub link_addr: Address,
    pub base_addr: Address,
}

/// Carries the credential presented when an agent's chain is bootstrapped.
#[derive(Clone, Debug)]
pub struct AgentValidationPkgAction {
    pub author: Address,
    pub prev_action: Address,
    /// The membrane proof, as opaque serialized bytes, if one was presented.
    pub membrane_proof: Option<Vec<u8>>,
}

/// Records the agent's public key at the root of its chain.
#[derive(Clone, Copy, Debug, PartialEq, Eq, Structural)]
pub struct CreateAgentAction {
    pub author: Address,
    pub prev_action: Address,
    /// The public key being recorded.
    pub agent: Address,
}

/// A signed, causally-ordered unit in an agent's append-only chain.
#[derive(Clone, Debug)]
pub enum Action {
    /// The chain's root marker; the only action without a predecessor.
    Dna { author: Address },
    AgentValidationPkg(AgentValidationPkgAction),
    InitZomesComplete { author: Address, prev_action: Address },
    CreateAgent(CreateAgentAction),
    Create(CreateAction),
    Update(UpdateAction),
    Delete(DeleteAction),
    CreateLink(CreateLinkAction),
    DeleteLink(DeleteLinkAction),
    OpenChain { author: Address, prev_action: Address },
    CloseChain { author: Address, prev_action: Address },
}

/// An action that brings an entry into being: a Create or an Update.
#[derive(Clone, Copy, Debug, PartialEq, Eq, Structural)]
pub enum EntryCreationAction {
    Create(CreateAction),
    Update(UpdateAction),
}

/// An action paired with its entry payload, when one exists. The payload is
/// absent for link actions, chain markers and private entries.
#[derive(Clone, Debug)]
pub struct Record {
    /// The address under which the store holds this record's action.
    pub action_addr: Address,
    pub action: Action,
    pub entry: Option<Entry>,
}

/// The unit submitted for validation: one action, seen from one of the seven
/// lifecycle phases, together with whatever payload that phase carries.
///
/// The lightweight phases (`StoreEntry`, `RegisterUpdate`, `RegisterDelete`)
/// and the full-record phase (`StoreRecord`) re-derive the same verdict by
/// design: different replicas run one or the other depending on what data
/// they hold.
#[derive(Clone, Debug)]
pub enum Op {
    /// Hold the entry itself, keyed by its content.
    StoreEntry { action: EntryCreationAction, entry: Entry },
    /// Hold the full record: the action plus its payload, if any.
    StoreRecord { record: Record },
    /// Register that an entry was replaced; the new entry travels along
    /// when it is public.
    RegisterUpdate { update: UpdateAction, new_entry: Option<Entry> },
    /// Register that an entry's visibility was removed.
    RegisterDelete { delete: DeleteAction },
    /// Register a new link from its base address.
    RegisterCreateLink { create_link: CreateLinkAction },
    /// Register that a link's visibility was removed; the original
    /// link-creation action travels along.
    RegisterDeleteLink { delete_link: DeleteLinkAction, create_link: CreateLinkAction },
    /// Extend the author's chain; every action passes through this phase.
    RegisterAgentActivity { action: Action },
}

} // verus!
