use sauce_relay::commands::lc_retry;
use sauce_relay::registry::{
    IdentityRegistry, AUXILIARY_CONFIRMATION, CONFIRMATION, STATUS_PRIMARY, STATUS_SECONDARY,
};
use sauce_relay::router::{Handler, InboundMessage, Outbound, SETTLE_DELAY_SECS};
use sauce_relay::session::{SessionState, TrackedMessage};

const HERE: TrackedMessage = TrackedMessage { channel_id: 100, message_id: 200 };

fn inbound(author_id: u64, content: &str, embeds: usize) -> InboundMessage {
    InboundMessage {
        author_id,
        content: content.to_string(),
        embeds,
        channel_id: HERE.channel_id,
        message_id: HERE.message_id,
    }
}

/// What a fresh relay answers to one message, and what it remembers then.
fn take(author_id: u64, content: &str, embeds: usize) -> (Outbound, SessionState) {
    let mut state = SessionState::new();
    let handler = Handler::new(IdentityRegistry::new());
    let out = handler.message(&mut state, &inbound(author_id, content, embeds));
    (out, state)
}

fn say_now(text: &str) -> Outbound {
    Outbound::Say { channel_id: HERE.channel_id, delay_secs: 0, text: text.to_string() }
}

fn say_later(text: &str) -> Outbound {
    Outbound::Say { channel_id: HERE.channel_id, delay_secs: 3, text: text.to_string() }
}

#[test]
fn settle_delay_is_three_seconds() {
    assert_eq!(SETTLE_DELAY_SECS, 3);
}

#[test]
fn confirmation_is_answered_with_a_delayed_lookup() {
    let (out, state) = take(CONFIRMATION, "Looking up Foo by Bar.", 0);
    assert_eq!(out, say_later("sauce -qa Bar"));
    assert_eq!(state, SessionState::new());
}

#[test]
fn confirmation_without_full_stop_is_answered_at_once() {
    let (out, state) = take(CONFIRMATION, "Looking up Foo by Bar", 0);
    assert_eq!(out, say_now("Could not find author"));
    assert_eq!(state, SessionState::new());
}

#[test]
fn answer_goes_to_the_channel_of_the_message() {
    let mut state = SessionState::new();
    let handler = Handler::new(IdentityRegistry::new());
    let mut msg = inbound(CONFIRMATION, "Looking up Foo by Bar.", 0);
    msg.channel_id = 77;
    assert_eq!(
        handler.message(&mut state, &msg),
        Outbound::Say { channel_id: 77, delay_secs: 3, text: "sauce -qa Bar".to_string() }
    );
    msg.content = "Looking up Foo".to_string();
    assert_eq!(
        handler.message(&mut state, &msg),
        Outbound::Say { channel_id: 77, delay_secs: 0, text: "Could not find author".to_string() }
    );
}

#[test]
fn auxiliary_account_confirms_too() {
    let (out, _) = take(AUXILIARY_CONFIRMATION, "Looking up A by B C.", 0);
    assert_eq!(out, say_later("sauce -qa B C"));
}

#[test]
fn lookup_carries_the_author_up_to_the_first_full_stop() {
    let (out, _) = take(CONFIRMATION, "Looking up Widget by J. Smith.", 0);
    assert_eq!(out, say_later("sauce -qa J"));
}

#[test]
fn lead_without_a_sentence_is_answered_with_the_notice() {
    let notice = say_now("Could not find author");
    assert_eq!(take(CONFIRMATION, "Looking up", 0).0, notice);
    assert_eq!(take(CONFIRMATION, "Looking upwards by Bar.", 0).0, notice);
    assert_eq!(take(CONFIRMATION, "Looking up  by Bar.", 0).0, notice);
    assert_eq!(take(CONFIRMATION, "Looking up Foo by .", 0).0, notice);
}

#[test]
fn other_text_of_a_confirmation_source_is_let_pass() {
    for content in ["hello", "", " Looking up Foo by Bar.", "looking up Foo by Bar.", ".lc 5"] {
        let (out, state) = take(CONFIRMATION, content, 3);
        assert_eq!(out, Outbound::Nothing);
        assert_eq!(state, SessionState::new());
    }
}

#[test]
fn status_text_with_trigger_is_remembered() {
    let (out, state) = take(STATUS_PRIMARY, ".lc something 5", 0);
    assert_eq!(out, Outbound::Nothing);
    assert_eq!(state.last_status_text(), ".lc something 5");
    assert_eq!(state.last_tracked_message(), None);
}

#[test]
fn trigger_alone_is_remembered() {
    let (_, state) = take(STATUS_SECONDARY, ".lc", 0);
    assert_eq!(state.last_status_text(), ".lc");
}

#[test]
fn status_message_with_embed_is_tracked() {
    let (out, state) = take(STATUS_PRIMARY, "stage report", 1);
    assert_eq!(out, Outbound::Nothing);
    assert_eq!(state.last_tracked_message(), Some(HERE));
    assert_eq!(state.last_status_text(), "");
}

#[test]
fn message_with_several_embeds_is_tracked() {
    let (_, state) = take(STATUS_SECONDARY, "", 4);
    assert_eq!(state.last_tracked_message(), Some(HERE));
}

#[test]
fn trigger_goes_before_embeds() {
    let (_, state) = take(STATUS_PRIMARY, ".lc with embed", 2);
    assert_eq!(state.last_status_text(), ".lc with embed");
    assert_eq!(state.last_tracked_message(), None);
}

#[test]
fn status_message_without_trigger_or_embed_changes_nothing() {
    for content in ["just talking", " .lc", ".l", ".LC", ""] {
        let (out, state) = take(STATUS_PRIMARY, content, 0);
        assert_eq!(out, Outbound::Nothing);
        assert_eq!(state, SessionState::new());
    }
}

#[test]
fn later_status_messages_replace_earlier_ones() {
    let mut state = SessionState::new();
    let handler = Handler::new(IdentityRegistry::new());
    handler.message(&mut state, &inbound(STATUS_PRIMARY, ".lc a", 0));
    handler.message(&mut state, &inbound(STATUS_SECONDARY, ".lc b", 0));
    assert_eq!(state.last_status_text(), ".lc b");
    let mut first = inbound(STATUS_PRIMARY, "one", 1);
    first.message_id = 2;
    let mut second = inbound(STATUS_PRIMARY, "two", 1);
    second.message_id = 3;
    handler.message(&mut state, &first);
    handler.message(&mut state, &second);
    assert_eq!(
        state.last_tracked_message(),
        Some(TrackedMessage { channel_id: HERE.channel_id, message_id: 3 })
    );
    assert_eq!(state.last_status_text(), ".lc b");
}

#[test]
fn account_of_both_sets_is_handled_as_a_status_source() {
    let (out, state) = take(STATUS_SECONDARY, "Looking up Foo by Bar.", 0);
    assert_eq!(out, Outbound::Nothing);
    assert_eq!(state, SessionState::new());
    let (out, state) = take(STATUS_SECONDARY, "Looking up Foo by Bar.", 1);
    assert_eq!(out, Outbound::Nothing);
    assert_eq!(state.last_tracked_message(), Some(HERE));
}

#[test]
fn unrelated_accounts_are_let_pass() {
    for content in [".lc 5", "Looking up Foo by Bar.", "Looking up Foo by Bar", ""] {
        for author_id in [0, 42, u64::MAX] {
            let (out, state) = take(author_id, content, 1);
            assert_eq!(out, Outbound::Nothing);
            assert_eq!(state, SessionState::new());
        }
    }
}

#[test]
fn confirmation_leaves_the_slots_as_they_were() {
    let mut state = SessionState::new();
    let handler = Handler::new(IdentityRegistry::new());
    handler.message(&mut state, &inbound(STATUS_PRIMARY, ".lc a", 0));
    handler.message(&mut state, &inbound(STATUS_PRIMARY, "embed", 1));
    let before = state.clone();
    handler.message(&mut state, &inbound(CONFIRMATION, "Looking up Foo by Bar.", 1));
    handler.message(&mut state, &inbound(CONFIRMATION, "Looking up Foo by Bar", 1));
    assert_eq!(state, before);
}

#[test]
fn handler_goes_by_the_registry_it_is_given() {
    let registry = IdentityRegistry {
        status_primary: 1,
        status_secondary: 2,
        confirmation: 3,
        auxiliary_confirmation: 4,
    };
    let handler = Handler::new(registry);
    let mut state = SessionState::new();
    let out = handler.message(&mut state, &inbound(3, "Looking up Foo by Bar.", 0));
    assert_eq!(out, say_later("sauce -qa Bar"));
    let out = handler.message(&mut state, &inbound(CONFIRMATION, "Looking up Foo by Bar.", 0));
    assert_eq!(out, Outbound::Nothing);
    handler.message(&mut state, &inbound(1, ".lc x", 0));
    assert_eq!(state.last_status_text(), ".lc x");
}

#[test]
fn retry_after_status_message_sends_its_text() {
    let (_, state) = take(STATUS_PRIMARY, ".lc find this", 0);
    assert_eq!(lc_retry(&state), ".lc find this");
}
