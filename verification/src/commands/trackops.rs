//! Commands that act on the track that is playing.

use vstd::prelude::*;
use vstd::string::StringExecFns;
use crate::decimal::is_digit;
use crate::reply::{
    command_error, command_error_text, track_command_error, track_command_error_text,
};
use crate::timespan::{TimeSpan, NANOS_PER_SEC};
use crate::utils::{elapsed_text, human_print_time, text_of, CustomMetadata};

verus! {

/// The number of digits, `0` to `9`, among the characters of `text`.
pub open spec fn digit_count(text: Seq<char>) -> nat
    decreases text.len(),
{
    if text.len() == 0 {
        0
    } else {
        digit_count(text.drop_last()) + if is_digit(text.last()) {
            1nat
        } else {
            0nat
        }
    }
}

/// The most digits a time may hold to be read at all.
pub const MAX_DIGITS: usize = 11;

/// Whether `text` holds no more than [`MAX_DIGITS`] digits.
fn has_few_digits(text: &str) -> (few: bool)
    ensures
        few == (digit_count(text@) <= MAX_DIGITS),
{
    let mut count: usize = 0;
    for c in it: text.chars()
        invariant
            it.seq() == text@,
            count <= MAX_DIGITS + 1,
            count == vstd::math::min(
                digit_count(text@.take(it.index() as int)) as int,
                MAX_DIGITS + 1,
            ),
    {
        assert(text@.take(it.index() + 1).drop_last() =~= text@.take(it.index() as int));
        if count <= MAX_DIGITS && (c == '0' || c == '1' || c == '2' || c == '3' || c == '4' || c
            == '5' || c == '6' || c == '7' || c == '8' || c == '9') {
            count = count + 1;
        }
    }
    assert(text@.take(text@.len() as int) =~= text@);
    count <= MAX_DIGITS
}

/// What `humantime::parse_duration` makes of `text`: the whole seconds and
/// the nanoseconds beyond them that it reads, or, where it rejects the text,
/// its error in the words of the error's `Debug` form.
pub uninterp spec fn parsed_duration(text: Seq<char>) -> Result<(u64, u32), Seq<char>>;

/// Reads a time such as `2min 2s` with `humantime::parse_duration`, and
/// words the error, if there is one, by its `Debug` form.
///
/// Nothing is proved of the outcome: it is named [`parsed_duration`], which
/// rests on the parser, and the wording of its error, being functions of the
/// text alone. The nanoseconds are taken to be less than a second, as
/// `std::time::Duration::subsec_nanos` promises. The parser adds up seconds in
/// 64 bits and can panic where the sum comes to the largest such number,
/// which takes twelve digits or more: texts with that many are left out.
#[verifier::external_body]
fn parse_duration(text: &str) -> (parsed: Result<(u64, u32), String>)
    requires
        digit_count(text@) <= MAX_DIGITS,
    ensures
        match parsed {
            Ok(parts) => parsed_duration(text@) == Ok::<(u64, u32), Seq<char>>(parts) && parts.1
                < NANOS_PER_SEC,
            Err(detail) => parsed_duration(text@) == Err::<(u64, u32), Seq<char>>(detail@),
        },
{
    match humantime::parse_duration(text) {
        Ok(duration) => Ok((duration.as_secs(), duration.subsec_nanos())),
        Err(error) => Err(format!("{:?}", error)),
    }
}

/// What to do to the playing track.
#[derive(Clone, Copy, Debug, PartialEq, Eq)]
pub enum TrackAction {
    /// Resume it.
    Play,
    /// Pause it.
    Pause,
    /// Play it from the start.
    Restart,
    /// Play it from this position.
    SeekTo(TimeSpan),
    /// Repeat it without end.
    EnableLoop,
    /// Repeat it this many times.
    LoopFor(usize),
    /// Repeat it no more.
    DisableLoop,
}

/// What a track command leads to: a reply at once, or an action on the
/// playing track, whose outcome decides the reply.
#[derive(Debug, PartialEq, Eq)]
pub enum Step {
    Reply(String),
    Perform(TrackAction),
}

/// The content of a [`TrackAction`]: positions in nanoseconds.
pub enum ActionView {
    Play,
    Pause,
    Restart,
    SeekTo(nat),
    EnableLoop,
    LoopFor(usize),
    DisableLoop,
}

/// The content of a [`Step`].
pub enum StepView {
    Reply(Seq<char>),
    Perform(ActionView),
}

impl View for TrackAction {
    type V = ActionView;

    open spec fn view(&self) -> ActionView {
        match self {
            TrackAction::Play => ActionView::Play,
            TrackAction::Pause => ActionView::Pause,
            TrackAction::Restart => ActionView::Restart,
            TrackAction::SeekTo(position) => ActionView::SeekTo(position@),
            TrackAction::EnableLoop => ActionView::EnableLoop,
            TrackAction::LoopFor(times) => ActionView::LoopFor(*times),
            TrackAction::DisableLoop => ActionView::DisableLoop,
        }
    }
}

impl View for Step {
    type V = StepView;

    open spec fn view(&self) -> StepView {
        match self {
            Step::Reply(text) => StepView::Reply(text@),
            Step::Perform(action) => StepView::Perform(action@),
        }
    }
}

/// The reply of a track command where no track is playing.
pub open spec fn no_track_text() -> Seq<char> {
    "Nothing is queued right now!"@
}

/// The step of a command that needs a playing track and then does `action`.
pub open spec fn track_step(has_track: bool, action: ActionView) -> StepView {
    if has_track {
        StepView::Perform(action)
    } else {
        StepView::Reply(no_track_text())
    }
}

/// The step of a track command that takes no argument.
fn plain_step(has_track: bool, action: TrackAction) -> (step: Step)
    ensures
        step@ == track_step(has_track, action@),
{
    if has_track {
        Step::Perform(action)
    } else {
        Step::Reply(String::from_str("Nothing is queued right now!"))
    }
}

/// Resumes the playing track, if there is one.
pub fn resume(has_track: bool) -> (step: Step)
    ensures
        step@ == track_step(has_track, ActionView::Play),
{
    plain_step(has_track, TrackAction::Play)
}

/// Pauses the playing track, if there is one.
pub fn pause(has_track: bool) -> (step: Step)
    ensures
        step@ == track_step(has_track, ActionView::Pause),
{
    plain_step(has_track, TrackAction::Pause)
}

/// Plays the playing track from its start, if there is one.
pub fn replay(has_track: bool) -> (step: Step)
    ensures
        step@ == track_step(has_track, ActionView::Restart),
{
    plain_step(has_track, TrackAction::Restart)
}

/// Ends the repeating of the playing track, if there is one.
pub fn stop_looping(has_track: bool) -> (step: Step)
    ensures
        step@ == track_step(has_track, ActionView::DisableLoop),
{
    plain_step(has_track, TrackAction::DisableLoop)
}

/// How to repeat a track for a requested number of times: without end where
/// the number is missing or 0.
pub open spec fn loop_action(loop_times: Option<usize>) -> ActionView {
    match loop_times {
        Some(times) => if times == 0 {
            ActionView::EnableLoop
        } else {
            ActionView::LoopFor(times)
        },
        None => ActionView::EnableLoop,
    }
}

/// Makes the playing track repeat, if there is one: `loop_times` times, or
/// without end where that is missing or 0.
pub fn loop_current(has_track: bool, loop_times: Option<usize>) -> (step: Step)
    ensures
        step@ == track_step(has_track, loop_action(loop_times)),
{
    let action = match loop_times {
        Some(0) => TrackAction::EnableLoop,
        Some(times) => TrackAction::LoopFor(times),
        None => TrackAction::EnableLoop,
    };
    plain_step(has_track, action)
}

/// The reply to a time that cannot be read, with the reason between code fences.
pub open spec fn invalid_time_text(detail: Seq<char>) -> Seq<char> {
    "Invalid time value!\n```"@ + detail + "```"@
}

/// The reply to a time behind the end of the track.
pub open spec fn too_far_text() -> Seq<char> {
    "The track is not that long!"@
}

/// The reason given for a time with more than [`MAX_DIGITS`] digits.
pub open spec fn too_many_digits_text() -> Seq<char> {
    "NumberOverflow"@
}

/// The step for a time that was read as `parsed`, a position in nanoseconds
/// or the reason why there is none, on a track of length `total`.
pub open spec fn seek_target_step(parsed: Result<nat, Seq<char>>, total: Option<nat>) -> StepView {
    match parsed {
        Ok(target) => if total is Some && target > total->0 {
            StepView::Reply(too_far_text())
        } else {
            StepView::Perform(ActionView::SeekTo(target))
        },
        Err(detail) => StepView::Reply(invalid_time_text(detail)),
    }
}

/// Decides what a time that has been read leads to: a reply where it could
/// not be read or lies behind the end of the track, else the jump to it. A
/// track of unknown length takes any position.
pub fn seek_target(parsed: Result<TimeSpan, String>, total: Option<TimeSpan>) -> (step: Step)
    ensures
        step@ == seek_target_step(
            match parsed {
                Ok(target) => Ok(target@),
                Err(detail) => Err(detail@),
            },
            match total {
                Some(length) => Some(length@),
                None => None,
            },
        ),
{
    let target = match parsed {
        Ok(target) => target,
        Err(detail) => {
            let mut reply = String::from_str("Invalid time value!\n```");
            reply.append(detail.as_str());
            reply.append("```");
            return Step::Reply(reply);
        },
    };
    match total {
        Some(length) => {
            if target.exceeds(&length) {
                return Step::Reply(String::from_str("The track is not that long!"));
            }
        },
        None => {},
    }
    Step::Perform(TrackAction::SeekTo(target))
}

/// The length of a track in nanoseconds, where it is known.
pub open spec fn length_of(track: &CustomMetadata) -> Option<nat> {
    track@.duration
}

/// What a time is read as, given what the parser makes of it: a position in
/// nanoseconds, or the reason why there is none.
pub open spec fn read_time(parsed: Result<(u64, u32), Seq<char>>) -> Result<nat, Seq<char>> {
    match parsed {
        Ok((secs, nanos)) => Ok(secs as nat * 1_000_000_000 + nanos as nat),
        Err(detail) => Err(detail),
    }
}

/// Jumps to the position that `time` names, such as `1min` or `2min 2s`, in
/// the playing track `track`.
///
/// Without a track the reply says so. A time with more than [`MAX_DIGITS`]
/// digits is not read and counts as too large; any other is read by the
/// duration parser, and what it makes of it goes through [`seek_target`].
pub fn seek(track: Option<&CustomMetadata>, time: &str) -> (step: Step)
    ensures
        step@ == match track {
            Some(track) => seek_target_step(
                if digit_count(time@) > MAX_DIGITS {
                    Err(too_many_digits_text())
                } else {
                    read_time(parsed_duration(time@))
                },
                length_of(track),
            ),
            None => StepView::Reply(no_track_text()),
        },
{
    let track = match track {
        Some(track) => track,
        None => {
            return Step::Reply(String::from_str("Nothing is queued right now!"));
        },
    };
    if !has_few_digits(time) {
        return seek_target(Err(String::from_str("NumberOverflow")), track.duration);
    }
    let parsed = match parse_duration(time) {
        Ok((secs, nanos)) => Ok(TimeSpan::new(secs, nanos).unwrap()),
        Err(detail) => Err(detail),
    };
    seek_target(parsed, track.duration)
}

/// The reply once an action on the playing track was tried: `refusal` is the
/// voice driver's account of why it did not happen, `None` if it did.
pub open spec fn report_text(action: ActionView, refusal: Option<Seq<char>>) -> Seq<char> {
    match refusal {
        Some(detail) => match action {
            ActionView::EnableLoop | ActionView::LoopFor(_) | ActionView::DisableLoop =>
                command_error_text(detail),
            _ => track_command_error_text(detail),
        },
        None => match action {
            ActionView::Play => "Resumed!"@,
            ActionView::Pause => "Paused!"@,
            ActionView::Restart => "Restarted!"@,
            ActionView::SeekTo(position) => "Seeked to "@ + elapsed_text(position / 1_000_000_000)
                + "!"@,
            ActionView::EnableLoop | ActionView::LoopFor(_) => "Current track set to loop!"@,
            ActionView::DisableLoop => "Stopped looping the current track!"@,
        },
    }
}

/// Words the reply once an action on the playing track was tried.
pub fn report(action: TrackAction, refusal: Option<String>) -> (reply: String)
    ensures
        reply@ == report_text(action@, text_of(refusal)),
{
    match refusal {
        Some(detail) => match action {
            TrackAction::EnableLoop | TrackAction::LoopFor(_) | TrackAction::DisableLoop =>
                command_error(detail.as_str()),
            _ => track_command_error(detail.as_str()),
        },
        None => match action {
            TrackAction::Play => String::from_str("Resumed!"),
            TrackAction::Pause => String::from_str("Paused!"),
            TrackAction::Restart => String::from_str("Restarted!"),
            TrackAction::SeekTo(position) => {
                let mut reply = String::from_str("Seeked to ");
                reply.append(human_print_time(position).as_str());
                reply.append("!");
                reply
            },
            TrackAction::EnableLoop | TrackAction::LoopFor(_) => String::from_str(
                "Current track set to loop!",
            ),
            TrackAction::DisableLoop => String::from_str("Stopped looping the current track!"),
        },
    }
}

} // verus!
