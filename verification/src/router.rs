//! What the relay does with each message of the channel.
//!
//! A message of a status source is remembered: its text where it begins
//! with the trigger, else the message itself where it carries an embed. A
//! message of a confirmation source that begins with the lead is answered:
//! with the lookup of the author it names, sent after the settle delay, or
//! at once with the notice that it names none. Every other message is let
//! pass.

use vstd::prelude::*;
use vstd::string::StringExecFns;
use crate::intent::{
    author_get, author_of, lead, lemma_confirmation_names_author, lemma_unterminated_names_none,
    separator, terminator, well_formed,
};
use crate::registry::{classify, IdentityRegistry, Role};
use crate::session::{SessionState, SessionStateView, TrackedMessage};
use crate::text::{begins_with, chars_of, starts_with};

verus! {

/// Seconds to wait before a lookup is sent.
pub const SETTLE_DELAY_SECS: u64 = 3;

/// A message as the channel delivers it.
#[derive(Clone, Debug, PartialEq, Eq)]
pub struct InboundMessage {
    pub author_id: u64,
    pub content: String,
    /// How many embeds the message carries.
    pub embeds: usize,
    pub channel_id: u64,
    pub message_id: u64,
}

/// What is to be sent in answer to a message.
#[derive(Clone, Debug, PartialEq, Eq)]
pub enum Outbound {
    /// Nothing.
    Nothing,
    /// `text`, to the channel `channel_id`, once `delay_secs` seconds have
    /// passed.
    Say { channel_id: u64, delay_secs: u64, text: String },
}

/// An answer, with its text as characters.
#[verifier::ext_equal]
pub ghost enum OutboundView {
    Nothing,
    Say { channel_id: u64, delay_secs: u64, text: Seq<char> },
}

impl View for Outbound {
    type V = OutboundView;

    open spec fn view(&self) -> OutboundView {
        match self {
            Outbound::Nothing => OutboundView::Nothing,
            Outbound::Say { channel_id, delay_secs, text } => OutboundView::Say {
                channel_id: *channel_id,
                delay_secs: *delay_secs,
                text: text@,
            },
        }
    }
}

/// What a status message begins with when its text is to be remembered.
pub open spec fn status_trigger() -> Seq<char> {
    ".lc"@
}

/// What a confirmation begins with.
pub open spec fn confirmation_lead() -> Seq<char> {
    "Looking up"@
}

/// What a lookup begins with; the author's name follows.
pub open spec fn lookup_verb() -> Seq<char> {
    "sauce -qa "@
}

/// The notice sent where a confirmation names no author.
pub open spec fn author_not_found() -> Seq<char> {
    "Could not find author"@
}

impl InboundMessage {
    /// The name under which this message is tracked.
    pub open spec fn reference(self) -> TrackedMessage {
        TrackedMessage { channel_id: self.channel_id, message_id: self.message_id }
    }
}

/// The slots after `msg`: a status source's text is remembered where it
/// begins with the trigger, else the message where it carries an embed;
/// after any other message the slots are as before.
pub open spec fn state_after(
    registry: IdentityRegistry,
    state: SessionStateView,
    msg: InboundMessage,
) -> SessionStateView {
    if registry.role_of(msg.author_id) != Role::StatusSource {
        state
    } else if begins_with(msg.content@, status_trigger()) {
        state.with_status_text(msg.content@)
    } else if msg.embeds > 0 {
        state.with_tracked_message(msg.reference())
    } else {
        state
    }
}

/// The answer to `msg`: to a confirmation source's message that begins with
/// the lead, the lookup of the author it names, after the settle delay, or
/// the notice at once, either to the channel that the message came from; to
/// any other message, nothing.
pub open spec fn answer_to(registry: IdentityRegistry, msg: InboundMessage) -> OutboundView {
    if registry.role_of(msg.author_id) == Role::ConfirmationSource && begins_with(
        msg.content@,
        confirmation_lead(),
    ) {
        match author_of(msg.content@) {
            Some(author) => OutboundView::Say {
                channel_id: msg.channel_id,
                delay_secs: SETTLE_DELAY_SECS,
                text: lookup_verb() + author,
            },
            None => OutboundView::Say {
                channel_id: msg.channel_id,
                delay_secs: 0,
                text: author_not_found(),
            },
        }
    } else {
        OutboundView::Nothing
    }
}

/// The relay's end of the channel.
#[derive(Clone, Copy, Debug, PartialEq, Eq, Structural)]
pub struct Handler {
    pub registry: IdentityRegistry,
}

impl Handler {
    /// A handler that knows the accounts of `registry`.
    pub fn new(registry: IdentityRegistry) -> (handler: Handler)
        ensures
            handler.registry == registry,
    {
        Handler { registry }
    }

    /// Takes one message of the channel: updates the slots and says what is
    /// to be sent in answer.
    pub fn message(&self, state: &mut SessionState, msg: &InboundMessage) -> (out: Outbound)
        ensures
            final(state)@ == state_after(self.registry, old(state)@, *msg),
            out@ == answer_to(self.registry, *msg),
    {
        match classify(&self.registry, msg.author_id) {
            Role::StatusSource => {
                let content = chars_of(msg.content.as_str());
                let trigger = chars_of(".lc");
                if starts_with(content.as_slice(), trigger.as_slice()) {
                    state.set_last_status_text(msg.content.clone());
                } else if msg.embeds > 0 {
                    state.set_last_tracked_message(
                        TrackedMessage { channel_id: msg.channel_id, message_id: msg.message_id },
                    );
                }
                Outbound::Nothing
            },
            Role::ConfirmationSource => {
                let content = chars_of(msg.content.as_str());
                let opening = chars_of("Looking up");
                if starts_with(content.as_slice(), opening.as_slice()) {
                    match author_get(msg.content.as_str()) {
                        Ok(author) => Outbound::Say {
                            channel_id: msg.channel_id,
                            delay_secs: SETTLE_DELAY_SECS,
                            text: "sauce -qa ".to_owned().concat(author.as_str()),
                        },
                        Err(_) => Outbound::Say {
                            channel_id: msg.channel_id,
                            delay_secs: 0,
                            text: "Could not find author".to_owned(),
                        },
                    }
                } else {
                    Outbound::Nothing
                }
            },
            Role::Unrelated => Outbound::Nothing,
        }
    }
}

/// A message changes at most one slot, and one that changes a slot is not
/// answered.
pub proof fn lemma_remembered_or_answered(
    registry: IdentityRegistry,
    state: SessionStateView,
    msg: InboundMessage,
)
    ensures
        state_after(registry, state, msg).last_status_text == state.last_status_text || state_after(
            registry,
            state,
            msg,
        ).last_tracked_message == state.last_tracked_message,
        state_after(registry, state, msg) != state ==> answer_to(registry, msg)
            == OutboundView::Nothing,
{
}

/// A status message that begins with the trigger is remembered by its text
/// alone, whatever embeds it carries.
pub proof fn lemma_trigger_goes_before_embeds(
    registry: IdentityRegistry,
    state: SessionStateView,
    msg: InboundMessage,
)
    requires
        registry.status_sources().contains(msg.author_id),
        begins_with(msg.content@, status_trigger()),
    ensures
        state_after(registry, state, msg) == state.with_status_text(msg.content@),
        state_after(registry, state, msg).last_tracked_message == state.last_tracked_message,
{
}

/// The sentence made of a well-formed target and author, from an account
/// that confirms lookups and reports no status, is answered with the lookup
/// of that author after the settle delay; the same sentence without its
/// full stop is answered with the notice at once.
pub proof fn lemma_confirmation_is_answered(
    registry: IdentityRegistry,
    msg: InboundMessage,
    target: Seq<char>,
    author: Seq<char>,
)
    requires
        registry.role_of(msg.author_id) == Role::ConfirmationSource,
        well_formed(target, author),
    ensures
        msg.content@ == lead() + target + separator() + author + terminator() ==> answer_to(
            registry,
            msg,
        ) == (OutboundView::Say {
            channel_id: msg.channel_id,
            delay_secs: SETTLE_DELAY_SECS,
            text: lookup_verb() + author,
        }),
        msg.content@ == lead() + target + separator() + author ==> answer_to(registry, msg) == (
        OutboundView::Say {
            channel_id: msg.channel_id,
            delay_secs: 0,
            text: author_not_found(),
        }),
{
    reveal_strlit("Looking up");
    reveal_strlit("Looking up ");
    let full = lead() + target + separator() + author + terminator();
    let cut = lead() + target + separator() + author;
    assert(full.subrange(0, confirmation_lead().len() as int) =~= confirmation_lead());
    assert(cut.subrange(0, confirmation_lead().len() as int) =~= confirmation_lead());
    lemma_confirmation_names_author(target, author);
    lemma_unterminated_names_none(target, author);
}

} // verus!
