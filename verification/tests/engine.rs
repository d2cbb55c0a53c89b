//! End-to-end checks of the validation entry point: one scenario per
//! lifecycle phase, each policy, each rejection reason and each failure.

use profile_integrity::classify::{flatten, FlatOp, OpEntry};
use profile_integrity::engine::{
    genesis_self_check, validate, validate_agent_joining, GenesisSelfCheckData, MembershipPolicy,
    Policy,
};
use profile_integrity::model::{
    Action, AgentValidationPkgAction, AppEntryDef, AppPayload, CreateAction, CreateAgentAction,
    CreateLinkAction, DeleteAction, DeleteLinkAction, Entry, EntryCreationAction, EntryType,
    EntryVisibility, Op, Record, UpdateAction,
};
use profile_integrity::profile::{Profile, UpdatePolicy};
use profile_integrity::registry::{
    AGENT_TO_PROFILE_LINK_INDEX, DECLARED_ZOME_INDEX, PROFILE_ENTRY_INDEX,
};
use profile_integrity::store::Store;
use profile_integrity::verdict::{EngineError, Reason, Verdict};

fn profile(nickname: &str) -> Profile {
    Profile { nickname: nickname.to_owned() }
}

fn profile_def() -> AppEntryDef {
    AppEntryDef {
        zome_index: DECLARED_ZOME_INDEX,
        entry_index: PROFILE_ENTRY_INDEX,
        visibility: EntryVisibility::Public,
    }
}

fn profile_entry(nickname: &str) -> Entry {
    Entry::App(AppPayload::Profile(profile(nickname)))
}

fn create_action(entry_addr: u64) -> CreateAction {
    CreateAction {
        author: 11,
        prev_action: 3,
        entry_type: EntryType::App(profile_def()),
        entry_addr,
    }
}

fn update_action(entry_addr: u64, original_action_addr: u64) -> UpdateAction {
    UpdateAction {
        author: 11,
        prev_action: 4,
        entry_type: EntryType::App(profile_def()),
        entry_addr,
        original_action_addr,
    }
}

fn mutable_policy() -> Policy {
    Policy { update: UpdatePolicy::Mutable, membership: MembershipPolicy::Open }
}

fn immutable_policy() -> Policy {
    Policy { update: UpdatePolicy::Immutable, membership: MembershipPolicy::Open }
}

/// A store holding one record: the creation of `nickname`'s profile at
/// address `addr`.
fn store_with_profile(addr: u64, nickname: &str) -> Store {
    let mut store = Store::new();
    store.insert(Record {
        action_addr: addr,
        action: Action::Create(create_action(100)),
        entry: Some(profile_entry(nickname)),
    });
    store
}

#[test]
fn create_profile_is_valid() {
    let op = Op::StoreEntry {
        action: EntryCreationAction::Create(create_action(100)),
        entry: profile_entry("alice"),
    };
    let r = validate(&op, &Store::new(), &mutable_policy());
    assert_eq!(r, Ok(Verdict::Valid));
}

#[test]
fn create_profile_record_is_valid() {
    let op = Op::StoreRecord {
        record: Record {
            action_addr: 7,
            action: Action::Create(create_action(100)),
            entry: Some(profile_entry("alice")),
        },
    };
    let r = validate(&op, &Store::new(), &mutable_policy());
    assert_eq!(r, Ok(Verdict::Valid));
}

#[test]
fn noop_update_is_rejected_under_mutable_policy() {
    let store = store_with_profile(7, "alice");
    let op = Op::RegisterUpdate {
        update: update_action(101, 7),
        new_entry: Some(profile_entry("alice")),
    };
    let r = validate(&op, &store, &mutable_policy());
    assert_eq!(r, Ok(Verdict::Invalid(Reason::NoChangesMade)));
    assert_eq!(Reason::NoChangesMade.message(), "No changes made to profile");
}

#[test]
fn blank_nickname_update_is_rejected() {
    let store = store_with_profile(7, "alice");
    let op = Op::RegisterUpdate {
        update: update_action(101, 7),
        new_entry: Some(profile_entry("  ")),
    };
    let r = validate(&op, &store, &mutable_policy());
    assert_eq!(r, Ok(Verdict::Invalid(Reason::NicknameEmpty)));
    assert_eq!(Reason::NicknameEmpty.message(), "Nickname cannot be empty");
}

#[test]
fn unicode_whitespace_nickname_is_blank() {
    let store = store_with_profile(7, "alice");
    let op = Op::RegisterUpdate {
        update: update_action(101, 7),
        new_entry: Some(profile_entry("\u{3000}\u{2003}\t\u{00A0}")),
    };
    let r = validate(&op, &store, &mutable_policy());
    assert_eq!(r, Ok(Verdict::Invalid(Reason::NicknameEmpty)));
}

#[test]
fn changed_update_is_valid_under_mutable_policy() {
    let store = store_with_profile(7, "alice");
    let op = Op::RegisterUpdate {
        update: update_action(101, 7),
        new_entry: Some(profile_entry("bob")),
    };
    let r = validate(&op, &store, &mutable_policy());
    assert_eq!(r, Ok(Verdict::Valid));
}

#[test]
fn update_record_phase_agrees_with_lightweight_phase() {
    let store = store_with_profile(7, "alice");
    let light = Op::RegisterUpdate {
        update: update_action(101, 7),
        new_entry: Some(profile_entry("bob")),
    };
    let full = Op::StoreRecord {
        record: Record {
            action_addr: 9,
            action: Action::Update(update_action(101, 7)),
            entry: Some(profile_entry("bob")),
        },
    };
    let policy = mutable_policy();
    assert_eq!(validate(&light, &store, &policy), validate(&full, &store, &policy));
    assert_eq!(validate(&light, &store, &policy), Ok(Verdict::Valid));
}

#[test]
fn any_update_is_rejected_under_immutable_policy() {
    let store = store_with_profile(7, "alice");
    let op = Op::RegisterUpdate {
        update: update_action(101, 7),
        new_entry: Some(profile_entry("bob")),
    };
    let r = validate(&op, &store, &immutable_policy());
    assert_eq!(r, Ok(Verdict::Invalid(Reason::ProfileImmutable)));
    assert_eq!(Reason::ProfileImmutable.message(), "Profiles cannot be updated");
}

#[test]
fn update_with_missing_original_is_a_lookup_failure() {
    let op = Op::RegisterUpdate {
        update: update_action(101, 42),
        new_entry: Some(profile_entry("bob")),
    };
    let r = validate(&op, &Store::new(), &mutable_policy());
    assert_eq!(r, Err(EngineError::RecordNotFound(42)));
}

#[test]
fn update_whose_original_is_not_a_creation_is_rejected() {
    let mut store = Store::new();
    store.insert(Record {
        action_addr: 7,
        action: Action::Delete(DeleteAction { author: 11, prev_action: 6, deletes_addr: 2 }),
        entry: None,
    });
    let op = Op::RegisterUpdate {
        update: update_action(101, 7),
        new_entry: Some(profile_entry("bob")),
    };
    let r = validate(&op, &store, &mutable_policy());
    assert_eq!(r, Ok(Verdict::Invalid(Reason::UpdateOriginalNotCreation)));
}

#[test]
fn update_whose_original_is_not_a_profile_is_rejected() {
    let mut store = Store::new();
    store.insert(Record {
        action_addr: 7,
        action: Action::Create(CreateAction {
            author: 11,
            prev_action: 3,
            entry_type: EntryType::AgentPubKey,
            entry_addr: 100,
        }),
        entry: Some(Entry::Agent(11)),
    });
    let op = Op::RegisterUpdate {
        update: update_action(101, 7),
        new_entry: Some(profile_entry("bob")),
    };
    let r = validate(&op, &store, &mutable_policy());
    assert_eq!(r, Ok(Verdict::Invalid(Reason::UpdateOriginalTypeMismatch)));
    assert_eq!(
        Reason::UpdateOriginalTypeMismatch.message(),
        "The updated entry type must be the same as the original entry type"
    );
}

#[test]
fn delete_profile_is_rejected() {
    let store = store_with_profile(7, "alice");
    let op = Op::RegisterDelete {
        delete: DeleteAction { author: 11, prev_action: 5, deletes_addr: 7 },
    };
    let r = validate(&op, &store, &mutable_policy());
    assert_eq!(r, Ok(Verdict::Invalid(Reason::ProfilesCannotBeDeleted)));
    assert_eq!(Reason::ProfilesCannotBeDeleted.message(), "Profiles cannot be deleted");
}

#[test]
fn delete_profile_record_phase_agrees() {
    let store = store_with_profile(7, "alice");
    let op = Op::StoreRecord {
        record: Record {
            action_addr: 9,
            action: Action::Delete(DeleteAction { author: 11, prev_action: 5, deletes_addr: 7 }),
            entry: None,
        },
    };
    let r = validate(&op, &store, &immutable_policy());
    assert_eq!(r, Ok(Verdict::Invalid(Reason::ProfilesCannotBeDeleted)));
}

#[test]
fn delete_of_agent_key_is_accepted_by_default() {
    let mut store = Store::new();
    store.insert(Record {
        action_addr: 7,
        action: Action::Create(CreateAction {
            author: 11,
            prev_action: 3,
            entry_type: EntryType::AgentPubKey,
            entry_addr: 100,
        }),
        entry: Some(Entry::Agent(11)),
    });
    let op = Op::RegisterDelete {
        delete: DeleteAction { author: 11, prev_action: 5, deletes_addr: 7 },
    };
    let r = validate(&op, &store, &mutable_policy());
    assert_eq!(r, Ok(Verdict::Valid));
}

#[test]
fn delete_with_entryless_original_is_rejected() {
    let mut store = Store::new();
    store.insert(Record {
        action_addr: 7,
        action: Action::Create(create_action(100)),
        entry: None,
    });
    let op = Op::RegisterDelete {
        delete: DeleteAction { author: 11, prev_action: 5, deletes_addr: 7 },
    };
    let r = validate(&op, &store, &mutable_policy());
    assert_eq!(r, Ok(Verdict::Invalid(Reason::DeleteOriginalMissingEntry)));
    assert_eq!(
        Reason::DeleteOriginalMissingEntry.message(),
        "Original record for a delete must contain an entry"
    );
}

#[test]
fn delete_with_undeclared_original_is_rejected() {
    let mut store = Store::new();
    store.insert(Record {
        action_addr: 7,
        action: Action::Create(create_action(100)),
        entry: Some(Entry::App(AppPayload::Undeclared)),
    });
    let op = Op::RegisterDelete {
        delete: DeleteAction { author: 11, prev_action: 5, deletes_addr: 7 },
    };
    let r = validate(&op, &store, &mutable_policy());
    assert_eq!(r, Ok(Verdict::Invalid(Reason::DeleteOriginalUndeclared)));
    assert_eq!(
        Reason::DeleteOriginalUndeclared.message(),
        "Original app entry must be one of the defined entry types for this zome"
    );
}

#[test]
fn delete_with_missing_original_is_a_lookup_failure() {
    let op = Op::RegisterDelete {
        delete: DeleteAction { author: 11, prev_action: 5, deletes_addr: 42 },
    };
    let r = validate(&op, &Store::new(), &mutable_policy());
    assert_eq!(r, Err(EngineError::RecordNotFound(42)));
}

fn link_action(zome_index: u64, link_index: u64) -> CreateLinkAction {
    CreateLinkAction {
        author: 11,
        prev_action: 5,
        base_addr: 200,
        target_addr: 201,
        zome_index,
        link_index,
        tag: vec![1, 2, 3],
    }
}

#[test]
fn declared_link_type_is_valid() {
    let op = Op::RegisterCreateLink {
        create_link: link_action(DECLARED_ZOME_INDEX, AGENT_TO_PROFILE_LINK_INDEX),
    };
    let r = validate(&op, &Store::new(), &mutable_policy());
    assert_eq!(r, Ok(Verdict::Valid));
}

#[test]
fn undeclared_link_type_is_rejected() {
    let op = Op::RegisterCreateLink { create_link: link_action(DECLARED_ZOME_INDEX, 7) };
    let r = validate(&op, &Store::new(), &mutable_policy());
    assert_eq!(r, Ok(Verdict::Invalid(Reason::UndeclaredLinkType)));
    assert_eq!(Reason::UndeclaredLinkType.message(), "Only AgentToProfile links are allowed");
}

#[test]
fn link_type_of_another_zome_is_rejected() {
    let op = Op::RegisterCreateLink { create_link: link_action(3, AGENT_TO_PROFILE_LINK_INDEX) };
    let r = validate(&op, &Store::new(), &mutable_policy());
    assert_eq!(r, Ok(Verdict::Invalid(Reason::UndeclaredLinkType)));
}

#[test]
fn create_link_record_phase_agrees() {
    let op = Op::StoreRecord {
        record: Record {
            action_addr: 9,
            action: Action::CreateLink(link_action(DECLARED_ZOME_INDEX, 7)),
            entry: None,
        },
    };
    let r = validate(&op, &Store::new(), &mutable_policy());
    assert_eq!(r, Ok(Verdict::Invalid(Reason::UndeclaredLinkType)));
}

#[test]
fn delete_link_is_rejected_in_both_phases() {
    let delete_link = DeleteLinkAction { author: 11, prev_action: 6, link_addr: 9, base_addr: 200 };
    let light = Op::RegisterDeleteLink {
        delete_link,
        create_link: link_action(DECLARED_ZOME_INDEX, AGENT_TO_PROFILE_LINK_INDEX),
    };
    let full = Op::StoreRecord {
        record: Record { action_addr: 10, action: Action::DeleteLink(delete_link), entry: None },
    };
    let policy = mutable_policy();
    assert_eq!(
        validate(&light, &Store::new(), &policy),
        Ok(Verdict::Invalid(Reason::NoDeletableLinkTypes))
    );
    assert_eq!(validate(&light, &Store::new(), &policy), validate(&full, &Store::new(), &policy));
    assert_eq!(
        Reason::NoDeletableLinkTypes.message(),
        "There are no link types in this integrity zome"
    );
}

fn create_agent_op(prev_action: u64) -> Op {
    Op::RegisterAgentActivity {
        action: Action::CreateAgent(CreateAgentAction { author: 11, prev_action, agent: 11 }),
    }
}

fn validation_pkg_record(addr: u64, membrane_proof: Option<Vec<u8>>) -> Record {
    Record {
        action_addr: addr,
        action: Action::AgentValidationPkg(AgentValidationPkgAction {
            author: 11,
            prev_action: 1,
            membrane_proof,
        }),
        entry: None,
    }
}

#[test]
fn create_agent_with_validation_pkg_predecessor_is_valid() {
    let mut store = Store::new();
    store.insert(validation_pkg_record(2, None));
    let r = validate(&create_agent_op(2), &store, &mutable_policy());
    assert_eq!(r, Ok(Verdict::Valid));
}

#[test]
fn create_agent_with_wrong_predecessor_is_rejected() {
    let mut store = Store::new();
    store.insert(Record {
        action_addr: 2,
        action: Action::Dna { author: 11 },
        entry: None,
    });
    let r = validate(&create_agent_op(2), &store, &mutable_policy());
    assert_eq!(r, Ok(Verdict::Invalid(Reason::PrevActionNotValidationPkg)));
    assert_eq!(
        Reason::PrevActionNotValidationPkg.message(),
        "The previous action for a CreateAgent action must be an AgentValidationPkg"
    );
}

#[test]
fn create_agent_with_unresolved_predecessor_is_a_lookup_failure() {
    let r = validate(&create_agent_op(2), &Store::new(), &mutable_policy());
    assert_eq!(r, Err(EngineError::ActionNotFound(2)));
}

#[test]
fn gated_membership_requires_a_proof() {
    let gated = Policy { update: UpdatePolicy::Mutable, membership: MembershipPolicy::RequireProof };
    let mut store = Store::new();
    store.insert(validation_pkg_record(2, None));
    let r = validate(&create_agent_op(2), &store, &gated);
    assert_eq!(r, Ok(Verdict::Invalid(Reason::MembraneProofRequired)));

    let mut store_with_proof = Store::new();
    store_with_proof.insert(validation_pkg_record(2, Some(vec![9, 9])));
    let r = validate(&create_agent_op(2), &store_with_proof, &gated);
    assert_eq!(r, Ok(Verdict::Valid));
}

#[test]
fn other_chain_activity_is_accepted_by_default() {
    let op = Op::RegisterAgentActivity {
        action: Action::OpenChain { author: 11, prev_action: 5 },
    };
    let r = validate(&op, &Store::new(), &mutable_policy());
    assert_eq!(r, Ok(Verdict::Valid));
}

#[test]
fn chain_marker_records_are_accepted_by_default() {
    for action in [
        Action::Dna { author: 11 },
        Action::InitZomesComplete { author: 11, prev_action: 3 },
        Action::OpenChain { author: 11, prev_action: 3 },
        Action::CloseChain { author: 11, prev_action: 3 },
        Action::CreateAgent(CreateAgentAction { author: 11, prev_action: 2, agent: 11 }),
    ] {
        let op = Op::StoreRecord {
            record: Record { action_addr: 9, action, entry: None },
        };
        let r = validate(&op, &Store::new(), &mutable_policy());
        assert_eq!(r, Ok(Verdict::Valid));
    }
}

#[test]
fn private_entry_creation_is_accepted_by_default() {
    let def = AppEntryDef {
        zome_index: DECLARED_ZOME_INDEX,
        entry_index: PROFILE_ENTRY_INDEX,
        visibility: EntryVisibility::Private,
    };
    let op = Op::StoreRecord {
        record: Record {
            action_addr: 9,
            action: Action::Create(CreateAction {
                author: 11,
                prev_action: 3,
                entry_type: EntryType::App(def),
                entry_addr: 100,
            }),
            entry: None,
        },
    };
    let r = validate(&op, &Store::new(), &mutable_policy());
    assert_eq!(r, Ok(Verdict::Valid));
}

#[test]
fn unknown_entry_type_fails_classification() {
    let def = AppEntryDef {
        zome_index: DECLARED_ZOME_INDEX,
        entry_index: 5,
        visibility: EntryVisibility::Public,
    };
    let op = Op::StoreEntry {
        action: EntryCreationAction::Create(CreateAction {
            author: 11,
            prev_action: 3,
            entry_type: EntryType::App(def),
            entry_addr: 100,
        }),
        entry: profile_entry("alice"),
    };
    let r = validate(&op, &Store::new(), &mutable_policy());
    assert_eq!(r, Err(EngineError::UnknownEntryType));
}

#[test]
fn undecodable_payload_fails_classification() {
    let op = Op::StoreEntry {
        action: EntryCreationAction::Create(create_action(100)),
        entry: Entry::App(AppPayload::Undeclared),
    };
    let r = validate(&op, &Store::new(), &mutable_policy());
    assert_eq!(r, Err(EngineError::UndecodableEntry));
}

#[test]
fn public_entry_record_without_payload_is_malformed() {
    let op = Op::StoreRecord {
        record: Record { action_addr: 9, action: Action::Create(create_action(100)), entry: None },
    };
    let r = validate(&op, &Store::new(), &mutable_policy());
    assert_eq!(r, Err(EngineError::MalformedOperation));
}

#[test]
fn newest_record_under_an_address_wins() {
    let mut store = Store::new();
    store.insert(Record {
        action_addr: 7,
        action: Action::Create(CreateAction {
            author: 11,
            prev_action: 3,
            entry_type: EntryType::AgentPubKey,
            entry_addr: 100,
        }),
        entry: Some(Entry::Agent(11)),
    });
    store.insert(Record {
        action_addr: 7,
        action: Action::Create(create_action(100)),
        entry: Some(profile_entry("alice")),
    });
    let op = Op::RegisterDelete {
        delete: DeleteAction { author: 11, prev_action: 5, deletes_addr: 7 },
    };
    let r = validate(&op, &store, &mutable_policy());
    assert_eq!(r, Ok(Verdict::Invalid(Reason::ProfilesCannotBeDeleted)));
}

#[test]
fn genesis_self_check_accepts() {
    let data = GenesisSelfCheckData { agent_key: 11, membrane_proof: None };
    assert_eq!(genesis_self_check(&data), Verdict::Valid);
}

#[test]
fn agent_joining_follows_the_injected_policy() {
    assert_eq!(
        validate_agent_joining(&MembershipPolicy::Open, 11, &None),
        Verdict::Valid
    );
    assert_eq!(
        validate_agent_joining(&MembershipPolicy::RequireProof, 11, &None),
        Verdict::Invalid(Reason::MembraneProofRequired)
    );
    assert_eq!(
        validate_agent_joining(&MembershipPolicy::RequireProof, 11, &Some(vec![1])),
        Verdict::Valid
    );
}

#[test]
fn classifier_routes_a_create_to_the_entry_phase() {
    let op = Op::StoreEntry {
        action: EntryCreationAction::Create(create_action(100)),
        entry: profile_entry("alice"),
    };
    match flatten(&op) {
        Ok(FlatOp::StoreEntry(OpEntry::CreateEntry { app_entry, .. })) => {
            let profile_integrity::registry::EntryTypes::Profile(p) = app_entry;
            assert_eq!(p.nickname, "alice");
        }
        other => panic!("unexpected classification: {:?}", other),
    }
}

#[test]
fn default_policy_is_mutable_and_open() {
    let policy = Policy::default();
    assert_eq!(policy, mutable_policy());
}

#[test]
fn entry_phase_of_an_update_checks_the_content_alone() {
    // The lightweight entry view of an update carries no causal context;
    // the transition itself is judged by the update-registration phase.
    let op = Op::StoreEntry {
        action: EntryCreationAction::Update(update_action(101, 7)),
        entry: profile_entry("alice"),
    };
    let r = validate(&op, &Store::new(), &mutable_policy());
    assert_eq!(r, Ok(Verdict::Valid));
}

#[test]
fn private_entry_update_is_accepted_by_default() {
    let def = AppEntryDef {
        zome_index: DECLARED_ZOME_INDEX,
        entry_index: PROFILE_ENTRY_INDEX,
        visibility: EntryVisibility::Private,
    };
    let op = Op::RegisterUpdate {
        update: UpdateAction {
            author: 11,
            prev_action: 4,
            entry_type: EntryType::App(def),
            entry_addr: 101,
            original_action_addr: 7,
        },
        new_entry: None,
    };
    let r = validate(&op, &Store::new(), &mutable_policy());
    assert_eq!(r, Ok(Verdict::Valid));
}
