//! What the relay remembers between messages.
//!
//! Two slots, each holding at most one value: the text of the last status
//! message that began with the trigger, and the last status message that
//! carried an embed. A write to one slot replaces what it held and leaves
//! the other slot as it was. Nothing outlives the process.

use vstd::prelude::*;

verus! {

/// A message of the channel, named well enough to find it again.
#[derive(Clone, Copy, Debug, PartialEq, Eq, Structural)]
pub struct TrackedMessage {
    pub channel_id: u64,
    pub message_id: u64,
}

/// The two slots.
#[derive(Clone, Debug, PartialEq, Eq)]
pub struct SessionState {
    last_status_text: String,
    last_tracked_message: Option<TrackedMessage>,
}

/// What the two slots hold.
#[verifier::ext_equal]
pub ghost struct SessionStateView {
    pub last_status_text: Seq<char>,
    pub last_tracked_message: Option<TrackedMessage>,
}

impl SessionStateView {
    /// Both slots as they are when the relay starts: no text, no message.
    pub open spec fn initial() -> SessionStateView {
        SessionStateView { last_status_text: Seq::empty(), last_tracked_message: None }
    }

    /// The slots after a write of `text` to the first.
    pub open spec fn with_status_text(self, text: Seq<char>) -> SessionStateView {
        SessionStateView { last_status_text: text, ..self }
    }

    /// The slots after a write of `message` to the second.
    pub open spec fn with_tracked_message(self, message: TrackedMessage) -> SessionStateView {
        SessionStateView { last_tracked_message: Some(message), ..self }
    }
}

impl View for SessionState {
    type V = SessionStateView;

    closed spec fn view(&self) -> SessionStateView {
        SessionStateView {
            last_status_text: self.last_status_text@,
            last_tracked_message: self.last_tracked_message,
        }
    }
}

impl SessionState {
    /// Both slots as they are when the relay starts.
    pub fn new() -> (state: SessionState)
        ensures
            state@ == SessionStateView::initial(),
    {
        SessionState { last_status_text: String::new(), last_tracked_message: None }
    }

    /// The text in the first slot.
    pub fn last_status_text(&self) -> (text: &str)
        ensures
            text@ == self@.last_status_text,
    {
        self.last_status_text.as_str()
    }

    /// The message in the second slot.
    pub fn last_tracked_message(&self) -> (message: Option<TrackedMessage>)
        ensures
            message == self@.last_tracked_message,
    {
        self.last_tracked_message
    }

    /// Writes `text` to the first slot.
    pub fn set_last_status_text(&mut self, text: String)
        ensures
            final(self)@ == old(self)@.with_status_text(text@),
    {
        self.last_status_text = text;
    }

    /// Writes `message` to the second slot.
    pub fn set_last_tracked_message(&mut self, message: TrackedMessage)
        ensures
            final(self)@ == old(self)@.with_tracked_message(message),
    {
        self.last_tracked_message = Some(message);
    }
}

/// Of two writes to the first slot the later one stays.
pub proof fn lemma_last_status_text_wins(state: SessionStateView, a: Seq<char>, b: Seq<char>)
    ensures
        state.with_status_text(a).with_status_text(b) == state.with_status_text(b),
        state.with_status_text(a).with_status_text(b).last_status_text == b,
{
}

/// Of two writes to the second slot the later one stays.
pub proof fn lemma_last_tracked_message_wins(
    state: SessionStateView,
    a: TrackedMessage,
    b: TrackedMessage,
)
    ensures
        state.with_tracked_message(a).with_tracked_message(b) == state.with_tracked_message(b),
        state.with_tracked_message(a).with_tracked_message(b).last_tracked_message == Some(b),
{
}

/// A write to one slot leaves the other as it was, and writes to the two
/// slots give the same in either order.
pub proof fn lemma_slots_are_independent(
    state: SessionStateView,
    text: Seq<char>,
    message: TrackedMessage,
)
    ensures
        state.with_status_text(text).last_tracked_message == state.last_tracked_message,
        state.with_tracked_message(message).last_status_text == state.last_status_text,
        state.with_status_text(text).with_tracked_message(message) == state.with_tracked_message(
            message,
        ).with_status_text(text),
{
}

} // verus!
