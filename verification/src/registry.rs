//! Who wrote a message: the accounts that the relay listens to, and the
//! role that each of them plays.

use vstd::prelude::*;

verus! {

/// The account of `sriracha`, the bot that reports on the stages.
pub const STATUS_PRIMARY: u64 = 607661949194469376;

/// The account of `ohsheet`, the bot that both reports on the stages and
/// confirms lookups.
pub const STATUS_SECONDARY: u64 = 640402425395675178;

/// The account of `lc`, the bot that confirms lookups.
pub const CONFIRMATION: u64 = 661826254215053324;

/// The account of the second bot that confirms lookups.
pub const AUXILIARY_CONFIRMATION: u64 = 1014282115086565486;

/// The accounts of the four bots, each under the part it plays. Made once
/// when the relay starts and read from then on.
#[derive(Clone, Copy, Debug, PartialEq, Eq, Structural)]
pub struct IdentityRegistry {
    pub status_primary: u64,
    pub status_secondary: u64,
    pub confirmation: u64,
    pub auxiliary_confirmation: u64,
}

/// What the author of a message is to the relay.
#[derive(Clone, Copy, Debug, PartialEq, Eq, Structural)]
pub enum Role {
    /// Its messages report on the stages.
    StatusSource,
    /// Its messages confirm lookups, and it is no status source.
    ConfirmationSource,
    /// Anyone else.
    Unrelated,
}

impl IdentityRegistry {
    /// The registry of the four accounts that the relay is run with.
    pub open spec fn known() -> IdentityRegistry {
        IdentityRegistry {
            status_primary: STATUS_PRIMARY,
            status_secondary: STATUS_SECONDARY,
            confirmation: CONFIRMATION,
            auxiliary_confirmation: AUXILIARY_CONFIRMATION,
        }
    }

    /// The accounts whose messages report on the stages.
    pub open spec fn status_sources(self) -> Set<u64> {
        set![self.status_primary, self.status_secondary]
    }

    /// The accounts whose messages confirm lookups.
    pub open spec fn confirmation_sources(self) -> Set<u64> {
        set![self.status_secondary, self.confirmation, self.auxiliary_confirmation]
    }

    /// The role of an account. An account of both sets is a status source.
    pub open spec fn role_of(self, author_id: u64) -> Role {
        if self.status_sources().contains(author_id) {
            Role::StatusSource
        } else if self.confirmation_sources().contains(author_id) {
            Role::ConfirmationSource
        } else {
            Role::Unrelated
        }
    }

    /// Makes the registry of the four accounts that the relay is run with.
    pub fn new() -> (registry: IdentityRegistry)
        ensures
            registry == IdentityRegistry::known(),
    {
        IdentityRegistry {
            status_primary: STATUS_PRIMARY,
            status_secondary: STATUS_SECONDARY,
            confirmation: CONFIRMATION,
            auxiliary_confirmation: AUXILIARY_CONFIRMATION,
        }
    }
}

/// Tests whether an account is a status source.
pub fn is_sriracha_bot(registry: &IdentityRegistry, author_id: u64) -> (b: bool)
    ensures
        b == registry.status_sources().contains(author_id),
{
    author_id == registry.status_primary || author_id == registry.status_secondary
}

/// Tests whether an account is a confirmation source, whatever else it is.
pub fn is_lc_bot(registry: &IdentityRegistry, author_id: u64) -> (b: bool)
    ensures
        b == registry.confirmation_sources().contains(author_id),
{
    author_id == registry.status_secondary || author_id == registry.confirmation
        || author_id == registry.auxiliary_confirmation
}

/// The role of an account.
pub fn classify(registry: &IdentityRegistry, author_id: u64) -> (role: Role)
    ensures
        role == registry.role_of(author_id),
{
    if is_sriracha_bot(registry, author_id) {
        Role::StatusSource
    } else if is_lc_bot(registry, author_id) {
        Role::ConfirmationSource
    } else {
        Role::Unrelated
    }
}

/// The second status source is in both sets: each of the two tests accepts
/// it, and its role is that of a status source.
pub proof fn lemma_shared_identity(registry: IdentityRegistry)
    ensures
        registry.status_sources().contains(registry.status_secondary),
        registry.confirmation_sources().contains(registry.status_secondary),
        registry.role_of(registry.status_secondary) == Role::StatusSource,
{
}

/// The role says which of the two tests an account passes: a status source
/// passes the first, a confirmation source the second and not the first,
/// and an unrelated account neither.
pub proof fn lemma_role_follows_tests(registry: IdentityRegistry, author_id: u64)
    ensures
        registry.role_of(author_id) == Role::StatusSource <==> registry.status_sources().contains(
            author_id,
        ),
        registry.role_of(author_id) == Role::ConfirmationSource <==> (
        registry.confirmation_sources().contains(author_id) && !registry.status_sources().contains(
            author_id,
        )),
        registry.role_of(author_id) == Role::Unrelated <==> (
        !registry.confirmation_sources().contains(author_id)
            && !registry.status_sources().contains(author_id)),
{
}

} // verus!
