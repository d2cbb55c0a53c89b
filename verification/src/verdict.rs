//! The engine's output: a verdict, and the failure class kept apart from it.
//!
//! A rejection is a deliberate, descriptive `Invalid` outcome: the mutation
//! simply does not take effect for this observer. A lookup or structural
//! failure (a required prior record that cannot be resolved, a payload that
//! does not decode into a declared type) is surfaced as an [`EngineError`],
//! never coerced into a silent `Valid` and never confused with a rejection.

use vstd::prelude::*;

verus! {

/// Why a mutation was rejected. Each reason renders to a fixed,
/// human-readable message through [`Reason::message`].
#[derive(Clone, Copy, Debug, PartialEq, Eq, Structural)]
pub enum Reason {
    /// An update whose new content equals the original (mutable policy).
    NoChangesMade,
    /// An update whose nickname is empty after trimming whitespace
    /// (mutable policy).
    NicknameEmpty,
    /// Any update of a profile under the immutable-after-create policy.
    ProfileImmutable,
    /// Any delete of a profile: the type is declared non-deletable.
    ProfilesCannotBeDeleted,
    /// A link creation whose type is not the single declared link type.
    UndeclaredLinkType,
    /// Any link removal: no declared link type is removable.
    NoDeletableLinkTypes,
    /// The original action referenced by an update is not a Create or Update.
    UpdateOriginalNotCreation,
    /// The original record referenced by an update does not hold an entry of
    /// the same declared type as the new entry.
    UpdateOriginalTypeMismatch,
    /// The original action referenced by a delete is not a Create or Update.
    DeleteOriginalNotCreation,
    /// The original record referenced by a delete carries no entry payload.
    DeleteOriginalMissingEntry,
    /// The original record referenced by a delete holds an entry that is not
    /// one of the declared entry types.
    DeleteOriginalUndeclared,
    /// The action immediately preceding a CreateAgent action is not an
    /// AgentValidationPkg.
    PrevActionNotValidationPkg,
    /// The joining policy requires a membrane proof and none was presented.
    MembraneProofRequired,
}

/// The engine's verdict on one operation: accept, or reject with a reason.
#[derive(Clone, Copy, Debug, PartialEq, Eq, Structural)]
pub enum Verdict {
    Valid,
    Invalid(Reason),
}

/// A failure distinct from a rejection: the engine could not reach a verdict
/// from its local view, or the operation's own payload was undecipherable.
#[derive(Clone, Copy, Debug, PartialEq, Eq, Structural)]
pub enum EngineError {
    /// A required prior action could not be resolved locally.
    ActionNotFound(u64),
    /// A required prior record could not be resolved locally.
    RecordNotFound(u64),
    /// The operation concerns an app entry whose type is not in the registry.
    UnknownEntryType,
    /// The operation's own entry payload does not parse as its declared type.
    UndecodableEntry,
    /// The operation's structure breaks a guarantee the runtime enforces
    /// (for example, a public app entry with no payload at all).
    MalformedOperation,
}

impl Reason {
    /// The human-readable message for this rejection reason.
    pub fn message(&self) -> (r: String)
        ensures
            r@ == self.spec_message(),
    {
        match self {
            Reason::NoChangesMade => "No changes made to profile".to_owned(),
            Reason::NicknameEmpty => "Nickname cannot be empty".to_owned(),
            Reason::ProfileImmutable => "Profiles cannot be updated".to_owned(),
            Reason::ProfilesCannotBeDeleted => "Profiles cannot be deleted".to_owned(),
            Reason::UndeclaredLinkType => "Only AgentToProfile links are allowed".to_owned(),
            Reason::NoDeletableLinkTypes => {
                "There are no link types in this integrity zome".to_owned()
            },
            Reason::UpdateOriginalNotCreation => {
                "Original action for an update must be a Create or Update action".to_owned()
            },
            Reason::UpdateOriginalTypeMismatch => {
                "The updated entry type must be the same as the original entry type".to_owned()
            },
            Reason::DeleteOriginalNotCreation => {
                "Original action for a delete must be a Create or Update action".to_owned()
            },
            Reason::DeleteOriginalMissingEntry => {
                "Original record for a delete must contain an entry".to_owned()
            },
            Reason::DeleteOriginalUndeclared => {
                "Original app entry must be one of the defined entry types for this zome"
                    .to_owned()
            },
            Reason::PrevActionNotValidationPkg => {
                "The previous action for a CreateAgent action must be an AgentValidationPkg"
                    .to_owned()
            },
            Reason::MembraneProofRequired => {
                "A membrane proof is required to join this network".to_owned()
            },
        }
    }

    /// The message each reason renders to, as a sequence of characters.
    pub open spec fn spec_message(self) -> Seq<char> {
        match self {
            Reason::NoChangesMade => "No changes made to profile"@,
            Reason::NicknameEmpty => "Nickname cannot be empty"@,
            Reason::ProfileImmutable => "Profiles cannot be updated"@,
            Reason::ProfilesCannotBeDeleted => "Profiles cannot be deleted"@,
            Reason::UndeclaredLinkType => "Only AgentToProfile links are allowed"@,
            Reason::NoDeletableLinkTypes => "There are no link types in this integrity zome"@,
            Reason::UpdateOriginalNotCreation => {
                "Original action for an update must be a Create or Update action"@
            },
            Reason::UpdateOriginalTypeMismatch => {
                "The updated entry type must be the same as the original entry type"@
            },
            Reason::DeleteOriginalNotCreation => {
                "Original action for a delete must be a Create or Update action"@
            },
            Reason::DeleteOriginalMissingEntry => {
                "Original record for a delete must contain an entry"@
            },
            Reason::DeleteOriginalUndeclared => {
                "Original app entry must be one of the defined entry types for this zome"@
            },
            Reason::PrevActionNotValidationPkg => {
                "The previous action for a CreateAgent action must be an AgentValidationPkg"@
            },
            Reason::MembraneProofRequired => {
                "A membrane proof is required to join this network"@
            },
        }
    }
}

impl Verdict {
    /// Whether this verdict accepts the operation.
    pub open spec fn is_valid(self) -> bool {
        self == Verdict::Valid
    }
}

} // verus!
