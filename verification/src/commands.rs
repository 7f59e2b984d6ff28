//! What the relay sends for each command of a user.
//!
//! Three stages, `qc`, `st` and `lc`, numbered 1 to 3, each list, move and
//! delete entries; `lc` also sends the remembered status text again. Two
//! more commands set the flag of a locale on the tracked message.

use vstd::prelude::*;
use vstd::string::StringExecFns;
use crate::argument::{get_id, id_of, word_of, ArgumentFormatError};
use crate::decimal::{decimal, decimal_digits};
use crate::session::{SessionState, TrackedMessage};

verus! {

/// One of the three queues that an entry passes through.
#[derive(Clone, Copy, Debug, PartialEq, Eq, Structural)]
pub enum Stage {
    Qc,
    St,
    Lc,
}

/// The locale whose flag a reaction command sets.
#[derive(Clone, Copy, Debug, PartialEq, Eq, Structural)]
pub enum Locale {
    Primary,
    Secondary,
}

/// One call on the channel's reactions.
#[derive(Clone, Copy, Debug, PartialEq, Eq, Structural)]
pub enum ReactionCall {
    /// Take every reaction with the flag of `locale` off `message`.
    RemoveAll { message: TrackedMessage, locale: Locale },
    /// Put one reaction with the flag of `locale` on `message`.
    Add { message: TrackedMessage, locale: Locale },
}

impl Stage {
    /// The number of the stage.
    pub open spec fn spec_number(self) -> u32 {
        match self {
            Stage::Qc => 1,
            Stage::St => 2,
            Stage::Lc => 3,
        }
    }

    /// What stands before the stage's number when its entries are listed.
    pub open spec fn list_label(self) -> Seq<char> {
        match self {
            Stage::Lc => "lc "@,
            _ => Seq::empty(),
        }
    }

    /// The command that lists entry `id` of the stage.
    pub open spec fn list_text(self, id: u32) -> Seq<char> {
        "sauce "@ + self.list_label() + decimal_digits(self.spec_number() as nat) + "#"@
            + decimal_digits(id as nat)
    }

    /// The command that moves entry `id` of the stage on to the next.
    pub open spec fn move_text(self, id: u32) -> Seq<char> {
        "sauce move "@ + decimal_digits(self.spec_number() as nat) + "#"@ + decimal_digits(
            id as nat,
        ) + " "@ + decimal_digits((self.spec_number() + 1) as nat)
    }

    /// The command that deletes entry `id` of the stage.
    pub open spec fn delete_text(self, id: u32) -> Seq<char> {
        "sauce delete "@ + decimal_digits(self.spec_number() as nat) + "#"@ + decimal_digits(
            id as nat,
        )
    }

    /// The number of the stage.
    #[verifier::when_used_as_spec(spec_number)]
    pub fn number(self) -> (n: u32)
        ensures
            n == self.spec_number(),
    {
        match self {
            Stage::Qc => 1,
            Stage::St => 2,
            Stage::Lc => 3,
        }
    }

    /// Writes the stage's number, `#` and `id`.
    fn entry(self, id: u32) -> (s: String)
        ensures
            s@ == decimal_digits(self.spec_number() as nat) + "#"@ + decimal_digits(id as nat),
    {
        decimal(self.number()).concat("#").concat(decimal(id).as_str())
    }

    /// The command that lists the entry that `argument` means.
    pub fn list(self, argument: Option<&str>) -> (res: Result<String, ArgumentFormatError>)
        ensures
            match id_of(word_of(argument)) {
                Ok(id) => res matches Ok(text) && text@ == self.list_text(id),
                Err(e) => res == Err::<String, ArgumentFormatError>(e),
            },
    {
        let id = match get_id(argument) {
            Ok(id) => id,
            Err(e) => {
                return Err(e);
            },
        };
        let mut text = "sauce ".to_owned();
        match self {
            Stage::Lc => {
                text.append("lc ");
            },
            _ => {},
        }
        text.append(self.entry(id).as_str());
        assert(text@ =~= self.list_text(id));
        Ok(text)
    }

    /// The command that moves the entry that `argument` means on to the
    /// next stage.
    pub fn move_on(self, argument: Option<&str>) -> (res: Result<String, ArgumentFormatError>)
        ensures
            match id_of(word_of(argument)) {
                Ok(id) => res matches Ok(text) && text@ == self.move_text(id),
                Err(e) => res == Err::<String, ArgumentFormatError>(e),
            },
    {
        let id = match get_id(argument) {
            Ok(id) => id,
            Err(e) => {
                return Err(e);
            },
        };
        let mut text = "sauce move ".to_owned();
        text.append(self.entry(id).as_str());
        text.append(" ");
        text.append(decimal(self.number() + 1).as_str());
        assert(text@ =~= self.move_text(id));
        Ok(text)
    }

    /// The command that deletes the entry that `argument` means.
    pub fn delete(self, argument: Option<&str>) -> (res: Result<String, ArgumentFormatError>)
        ensures
            match id_of(word_of(argument)) {
                Ok(id) => res matches Ok(text) && text@ == self.delete_text(id),
                Err(e) => res == Err::<String, ArgumentFormatError>(e),
            },
    {
        let id = match get_id(argument) {
            Ok(id) => id,
            Err(e) => {
                return Err(e);
            },
        };
        let mut text = "sauce delete ".to_owned();
        text.append(self.entry(id).as_str());
        assert(text@ =~= self.delete_text(id));
        Ok(text)
    }
}

impl Locale {
    /// The flag of the locale, as the emoji of a reaction.
    pub open spec fn flag(self) -> Seq<char> {
        match self {
            Locale::Primary => "\u{1F1FA}\u{1F1F8}"@,
            Locale::Secondary => "\u{1F1EF}\u{1F1F5}"@,
        }
    }

    /// The flag of the locale, as the emoji of a reaction.
    pub fn emoji(self) -> (s: &'static str)
        ensures
            s@ == self.flag(),
    {
        match self {
            Locale::Primary => "\u{1F1FA}\u{1F1F8}",
            Locale::Secondary => "\u{1F1EF}\u{1F1F5}",
        }
    }
}

/// The calls that set the flag of `locale` on the tracked message: every
/// reaction with that flag is taken off it, then one is put on. Where no
/// message is tracked there is no call.
pub open spec fn toggle_calls(target: Option<TrackedMessage>, locale: Locale) -> Seq<
    ReactionCall,
> {
    match target {
        Some(message) => seq![
            ReactionCall::RemoveAll { message, locale },
            ReactionCall::Add { message, locale },
        ],
        None => Seq::empty(),
    }
}

/// The calls that set the flag of `locale` on the tracked message.
pub fn toggle(state: &SessionState, locale: Locale) -> (calls: Vec<ReactionCall>)
    ensures
        calls@ == toggle_calls(state@.last_tracked_message, locale),
        state@.last_tracked_message is None ==> calls@.len() == 0,
{
    let mut calls: Vec<ReactionCall> = Vec::new();
    match state.last_tracked_message() {
        Some(message) => {
            calls.push(ReactionCall::RemoveAll { message, locale });
            calls.push(ReactionCall::Add { message, locale });
            assert(calls@ =~= toggle_calls(state@.last_tracked_message, locale));
        },
        None => {},
    }
    calls
}

/// `lc`: lists an entry of stage 3.
pub fn lc_list(argument: Option<&str>) -> (res: Result<String, ArgumentFormatError>)
    ensures
        match id_of(word_of(argument)) {
            Ok(id) => res matches Ok(text) && text@ == Stage::Lc.list_text(id),
            Err(e) => res == Err::<String, ArgumentFormatError>(e),
        },
{
    Stage::Lc.list(argument)
}

/// `lc move`: moves an entry of stage 3 on.
pub fn lc_move(argument: Option<&str>) -> (res: Result<String, ArgumentFormatError>)
    ensures
        match id_of(word_of(argument)) {
            Ok(id) => res matches Ok(text) && text@ == Stage::Lc.move_text(id),
            Err(e) => res == Err::<String, ArgumentFormatError>(e),
        },
{
    Stage::Lc.move_on(argument)
}

/// `lc delete`: deletes an entry of stage 3.
pub fn lc_delete(argument: Option<&str>) -> (res: Result<String, ArgumentFormatError>)
    ensures
        match id_of(word_of(argument)) {
            Ok(id) => res matches Ok(text) && text@ == Stage::Lc.delete_text(id),
            Err(e) => res == Err::<String, ArgumentFormatError>(e),
        },
{
    Stage::Lc.delete(argument)
}

/// `lc retry`: the remembered status text, as it is, to be sent again.
pub fn lc_retry(state: &SessionState) -> (text: String)
    ensures
        text@ == state@.last_status_text,
{
    state.last_status_text().to_owned()
}

/// `st`: lists an entry of stage 2.
pub fn st_list(argument: Option<&str>) -> (res: Result<String, ArgumentFormatError>)
    ensures
        match id_of(word_of(argument)) {
            Ok(id) => res matches Ok(text) && text@ == Stage::St.list_text(id),
            Err(e) => res == Err::<String, ArgumentFormatError>(e),
        },
{
    Stage::St.list(argument)
}

/// `st move`: moves an entry of stage 2 on.
pub fn st_move(argument: Option<&str>) -> (res: Result<String, ArgumentFormatError>)
    ensures
        match id_of(word_of(argument)) {
            Ok(id) => res matches Ok(text) && text@ == Stage::St.move_text(id),
            Err(e) => res == Err::<String, ArgumentFormatError>(e),
        },
{
    Stage::St.move_on(argument)
}

/// `st delete`: deletes an entry of stage 2.
pub fn st_delete(argument: Option<&str>) -> (res: Result<String, ArgumentFormatError>)
    ensures
        match id_of(word_of(argument)) {
            Ok(id) => res matches Ok(text) && text@ == Stage::St.delete_text(id),
            Err(e) => res == Err::<String, ArgumentFormatError>(e),
        },
{
    Stage::St.delete(argument)
}

/// `qc`: lists an entry of stage 1.
pub fn qc_list(argument: Option<&str>) -> (res: Result<String, ArgumentFormatError>)
    ensures
        match id_of(word_of(argument)) {
            Ok(id) => res matches Ok(text) && text@ == Stage::Qc.list_text(id),
            Err(e) => res == Err::<String, ArgumentFormatError>(e),
        },
{
    Stage::Qc.list(argument)
}

/// `qc move`: moves an entry of stage 1 on.
pub fn qc_move(argument: Option<&str>) -> (res: Result<String, ArgumentFormatError>)
    ensures
        match id_of(word_of(argument)) {
            Ok(id) => res matches Ok(text) && text@ == Stage::Qc.move_text(id),
            Err(e) => res == Err::<String, ArgumentFormatError>(e),
        },
{
    Stage::Qc.move_on(argument)
}

/// `qc delete`: deletes an entry of stage 1.
pub fn qc_delete(argument: Option<&str>) -> (res: Result<String, ArgumentFormatError>)
    ensures
        match id_of(word_of(argument)) {
            Ok(id) => res matches Ok(text) && text@ == Stage::Qc.delete_text(id),
            Err(e) => res == Err::<String, ArgumentFormatError>(e),
        },
{
    Stage::Qc.delete(argument)
}

/// `en`: sets the flag of the primary locale on the tracked message.
pub fn en(state: &SessionState) -> (calls: Vec<ReactionCall>)
    ensures
        calls@ == toggle_calls(state@.last_tracked_message, Locale::Primary),
        state@.last_tracked_message is None ==> calls@.len() == 0,
{
    toggle(state, Locale::Primary)
}

/// `jp`: sets the flag of the secondary locale on the tracked message.
pub fn jp(state: &SessionState) -> (calls: Vec<ReactionCall>)
    ensures
        calls@ == toggle_calls(state@.last_tracked_message, Locale::Secondary),
        state@.last_tracked_message is None ==> calls@.len() == 0,
{
    toggle(state, Locale::Secondary)
}

/// The two locales have different flags.
pub proof fn lemma_flags_differ()
    ensures
        Locale::Primary.flag() != Locale::Secondary.flag(),
{
    reveal_strlit("\u{1F1FA}\u{1F1F8}");
    reveal_strlit("\u{1F1EF}\u{1F1F5}");
    assert(Locale::Primary.flag()[0] != Locale::Secondary.flag()[0]);
}

} // verus!
