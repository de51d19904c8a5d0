//! Helpers shared by the commands: elapsed-time text, track metadata, and the
//! check every command makes before it touches a call.

use vstd::prelude::*;
use vstd::string::StringExecFns;
use crate::decimal::{decimal_pad2, decimal_value, is_digit, lemma_decimal_pad2, push_decimal_pad2};
use crate::timespan::TimeSpan;

verus! {

/// `[MM:SS]` for a number of seconds: minutes without bound, both parts
/// padded with `0` to two digits.
pub open spec fn elapsed_text(secs: nat) -> Seq<char> {
    seq!['['] + decimal_pad2(secs / 60) + seq![':'] + decimal_pad2(secs % 60) + seq![']']
}

/// Renders the whole seconds of `dur` as `[MM:SS]`.
pub fn human_print_time(dur: TimeSpan) -> (text: String)
    ensures
        text@ == elapsed_text(dur@ / 1_000_000_000),
{
    let total: u64 = dur.as_secs();
    let minutes: u64 = total / 60;
    let secs: u64 = total % 60;
    let mut text = String::from_str("[");
    push_decimal_pad2(&mut text, minutes);
    text.append(":");
    push_decimal_pad2(&mut text, secs);
    text.append("]");
    proof {
        reveal_strlit("[");
        reveal_strlit(":");
        reveal_strlit("]");
        assert("["@ =~= seq!['[']);
        assert(":"@ =~= seq![':']);
        assert("]"@ =~= seq![']']);
    }
    text
}

/// The elapsed-time text reads back: between `[` and the last `:` stand the
/// minutes, the number of seconds divided by 60 and rounded down; between that
/// `:` and `]` stand two digits that denote the remaining seconds, below 60.
pub proof fn lemma_elapsed_text_reads_back(secs: nat)
    ensures
        ({
            let text = elapsed_text(secs);
            let n = text.len() as int;
            &&& n >= 7
            &&& text[0] == '['
            &&& text[n - 4] == ':'
            &&& text[n - 1] == ']'
            &&& forall|i: int| 1 <= i < n - 1 && i != n - 4 ==> is_digit(#[trigger] text[i])
            &&& decimal_value(text.subrange(1, n - 4)) == secs / 60
            &&& decimal_value(text.subrange(n - 3, n - 1)) == secs % 60
            &&& secs % 60 < 60
        }),
{
    let minutes = decimal_pad2(secs / 60);
    let seconds = decimal_pad2(secs % 60);
    let text = elapsed_text(secs);
    let n = text.len() as int;
    lemma_decimal_pad2(secs / 60);
    lemma_decimal_pad2(secs % 60);
    assert(seconds.len() == 2);
    assert(n == minutes.len() + 5);
    assert(text.subrange(1, n - 4) =~= minutes);
    assert(text.subrange(n - 3, n - 1) =~= seconds);
    assert forall|i: int| 1 <= i < n - 1 && i != n - 4 implies is_digit(#[trigger] text[i]) by {
        if i < n - 4 {
            assert(text[i] == minutes[i - 1]);
        } else {
            assert(text[i] == seconds[i - (n - 3)]);
        }
    }
}

/// The text of an optional string.
pub open spec fn text_of(value: Option<String>) -> Option<Seq<char>> {
    match value {
        Some(text) => Some(text@),
        None => None,
    }
}

/// What is known of a track when it is queued: where it came from, what it is
/// called, who uploaded it, how long it runs, and who asked for it.
#[derive(Debug, PartialEq, Eq)]
pub struct CustomMetadata {
    pub source_url: Option<String>,
    pub title: Option<String>,
    pub channel: Option<String>,
    pub duration: Option<TimeSpan>,
    pub requested_by: String,
}

/// The mathematical content of a [`CustomMetadata`]: texts as sequences of
/// characters, the duration in nanoseconds.
pub struct MetadataView {
    pub source_url: Option<Seq<char>>,
    pub title: Option<Seq<char>>,
    pub channel: Option<Seq<char>>,
    pub duration: Option<nat>,
    pub requested_by: Seq<char>,
}

impl View for CustomMetadata {
    type V = MetadataView;

    open spec fn view(&self) -> MetadataView {
        MetadataView {
            source_url: text_of(self.source_url),
            title: text_of(self.title),
            channel: text_of(self.channel),
            duration: match self.duration {
                Some(span) => Some(span@),
                None => None,
            },
            requested_by: self.requested_by@,
        }
    }
}

/// The reply to a command issued outside a server.
pub open spec fn not_in_server_text() -> Seq<char> {
    "I can only operate in a server!"@
}

/// The reply to a command issued while the bot is in no voice channel.
pub open spec fn not_in_voice_text() -> Seq<char> {
    "I'm not in voice chat yet!"@
}

/// Resolves the call a command acts on.
///
/// `guild` is the server the command came from, `call` the voice call the bot
/// holds there. The call is handed back when both are present; otherwise the
/// error is the reply the caller is owed.
pub fn get_handler_lock<C>(guild: Option<u64>, call: Option<C>) -> (found: Result<C, String>)
    ensures
        found is Ok <==> guild is Some && call is Some,
        found matches Ok(c) ==> call == Some(c),
        found matches Err(text) ==> text@ == if guild is None {
            not_in_server_text()
        } else {
            not_in_voice_text()
        },
{
    if guild.is_none() {
        return Err(String::from_str("I can only operate in a server!"));
    }
    match call {
        Some(c) => Ok(c),
        None => Err(String::from_str("I'm not in voice chat yet!")),
    }
}

} // verus!
