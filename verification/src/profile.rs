//! The one declared entry type of this application, and its validators.
//!
//! A profile's lifecycle policy is explicit and injectable: two mutually
//! exclusive update policies exist in this domain, immutable-after-create and
//! mutable-with-guardrails, and a deployment must pick one. Deletion is
//! forbidden under either policy: the type is declared non-deletable.

use vstd::prelude::*;
use vstd::string::StrSliceExecFns;

use crate::model::{DeleteAction, EntryCreationAction, UpdateAction};
use crate::verdict::{Reason, Verdict};

verus! {

/// The content payload of the declared entry type: a user profile.
#[derive(Debug)]
pub struct Profile {
    pub nickname: String,
}

/// The mathematical model of a profile: its nickname's characters.
pub ghost struct ProfileV {
    pub nickname: Seq<char>,
}

impl View for Profile {
    type V = ProfileV;

    open spec fn view(&self) -> ProfileV {
        ProfileV { nickname: self.nickname@ }
    }
}

impl Clone for Profile {
    fn clone(&self) -> (r: Self)
        ensures
            r@ == self@,
    {
        Profile { nickname: self.nickname.clone() }
    }
}

/// The update policy declared for the profile type. The two policies are
/// mutually exclusive; a deployment picks one and applies it consistently.
#[derive(Clone, Copy, Debug, PartialEq, Eq, Structural)]
pub enum UpdatePolicy {
    /// Profiles are immutable after creation: every update is rejected.
    Immutable,
    /// Profiles may be updated, with guardrails: a no-op update is rejected,
    /// and so is an update whose nickname is blank.
    Mutable,
}

/// Whether `c` carries the Unicode `White_Space` property, the set of
/// characters that whitespace-trimming removes.
pub open spec fn is_whitespace_char(c: char) -> bool {
    c == ' ' || c == '\t' || c == '\n' || c == '\u{0B}' || c == '\u{0C}' || c == '\r'
        || c == '\u{85}' || c == '\u{A0}' || c == '\u{1680}' || c == '\u{2000}'
        || c == '\u{2001}' || c == '\u{2002}' || c == '\u{2003}' || c == '\u{2004}'
        || c == '\u{2005}' || c == '\u{2006}' || c == '\u{2007}' || c == '\u{2008}'
        || c == '\u{2009}' || c == '\u{200A}' || c == '\u{2028}' || c == '\u{2029}'
        || c == '\u{202F}' || c == '\u{205F}' || c == '\u{3000}'
}

/// Whether `s` is empty after trimming whitespace: every character of it
/// (possibly none) is whitespace.
pub open spec fn is_blank(s: Seq<char>) -> bool {
    forall|i: int| 0 <= i < s.len() ==> is_whitespace_char(#[trigger] s[i])
}

/// Decides [`is_whitespace_char`] on one character.
pub fn whitespace_char(c: char) -> (r: bool)
    ensures
        r == is_whitespace_char(c),
{
    c == ' ' || c == '\t' || c == '\n' || c == '\u{0B}' || c == '\u{0C}' || c == '\r'
        || c == '\u{85}' || c == '\u{A0}' || c == '\u{1680}' || c == '\u{2000}'
        || c == '\u{2001}' || c == '\u{2002}' || c == '\u{2003}' || c == '\u{2004}'
        || c == '\u{2005}' || c == '\u{2006}' || c == '\u{2007}' || c == '\u{2008}'
        || c == '\u{2009}' || c == '\u{200A}' || c == '\u{2028}' || c == '\u{2029}'
        || c == '\u{202F}' || c == '\u{205F}' || c == '\u{3000}'
}

/// Decides [`is_blank`]: whether `s` is empty after trimming whitespace.
pub fn blank(s: &str) -> (r: bool)
    ensures
        r == is_blank(s@),
{
    let n: usize = s.unicode_len();
    let mut i: usize = 0;
    while i < n
        invariant
            0 <= i <= n,
            n == s@.len(),
            forall|j: int| 0 <= j < i ==> is_whitespace_char(#[trigger] s@[j]),
        decreases n - i,
    {
        if !whitespace_char(s.get_char(i)) {
            return false;
        }
        i = i + 1;
    }
    true
}

/// The verdict an update of a profile receives from its declared policy,
/// once the original profile has been resolved.
pub open spec fn spec_update_verdict(
    policy: UpdatePolicy,
    new: ProfileV,
    original: ProfileV,
) -> Verdict {
    match policy {
        UpdatePolicy::Immutable => Verdict::Invalid(Reason::ProfileImmutable),
        UpdatePolicy::Mutable => {
            if new == original {
                Verdict::Invalid(Reason::NoChangesMade)
            } else if is_blank(new.nickname) {
                Verdict::Invalid(Reason::NicknameEmpty)
            } else {
                Verdict::Valid
            }
        },
    }
}

/// Validates a newly created profile. The schema places no mandatory
/// constraint on creation beyond type matching, which the classifier has
/// already established; the contract point exists so that field constraints
/// can be added without touching dispatch logic.
pub fn validate_create_profile(action: &EntryCreationAction, profile: &Profile) -> (r: Verdict)
    ensures
        r == Verdict::Valid,
{
    let _ = action;
    let _ = profile;
    Verdict::Valid
}

/// Validates a content transition of a profile under the declared update
/// policy: immutable-after-create rejects every update; the mutable policy
/// rejects a no-op update and a blank nickname, and accepts anything else.
pub fn validate_update_profile(
    policy: &UpdatePolicy,
    action: &UpdateAction,
    profile: &Profile,
    original_action: &EntryCreationAction,
    original_profile: &Profile,
) -> (r: Verdict)
    ensures
        r == spec_update_verdict(*policy, profile@, original_profile@),
{
    let _ = action;
    let _ = original_action;
    match policy {
        UpdatePolicy::Immutable => Verdict::Invalid(Reason::ProfileImmutable),
        UpdatePolicy::Mutable => {
            if profile.nickname == original_profile.nickname {
                Verdict::Invalid(Reason::NoChangesMade)
            } else if blank(profile.nickname.as_str()) {
                Verdict::Invalid(Reason::NicknameEmpty)
            } else {
                Verdict::Valid
            }
        },
    }
}

/// Validates a deletion of a profile: always rejected, because the schema
/// declares the type non-deletable.
pub fn validate_delete_profile(
    action: &DeleteAction,
    original_action: &EntryCreationAction,
    original_profile: &Profile,
) -> (r: Verdict)
    ensures
        r == Verdict::Invalid(Reason::ProfilesCannotBeDeleted),
{
    let _ = action;
    let _ = original_action;
    let _ = original_profile;
    Verdict::Invalid(Reason::ProfilesCannotBeDeleted)
}

} // verus!
