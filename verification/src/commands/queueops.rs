//! Commands that change the queue: adding a track, reordering, pruning, and
//! leaving the call.

use std::collections::VecDeque;
use rand::seq::SliceRandom;
use vstd::prelude::*;
use vstd::string::{StrSliceExecFns, StringExecFns};
use crate::decimal::{decimal, push_decimal};
use crate::reply::{command_error, command_error_text};
use crate::utils::{not_in_server_text, text_of};

verus! {

/// Shuffles the whole queue in place with `rand::seq::SliceRandom::shuffle`,
/// drawing from the thread's generator, `rand::rng`.
///
/// The order that comes out is left open. What is claimed is that the call
/// only moves entries: the queue afterwards holds what it held before, each
/// entry as often as before. The generator takes its seed from the operating
/// system when a thread first asks for it and panics if that fails.
#[verifier::external_body]
fn shuffle_entries<T>(queue: &mut VecDeque<T>)
    ensures
        final(queue)@.to_multiset() == old(queue)@.to_multiset(),
{
    queue.make_contiguous().shuffle(&mut rand::rng());
}

/// The reply of a command that found the queue empty.
pub open spec fn nothing_queued_text() -> Seq<char> {
    "Nothing is queued!"@
}

/// Puts the tracks behind the playing one into a random order.
///
/// The first entry stays where it is and the rest is permuted. An empty queue
/// is left alone, and the reply says so.
pub fn shuffle<T>(queue: &mut VecDeque<T>) -> (reply: String)
    ensures
        old(queue)@.len() == 0 ==> final(queue)@ == old(queue)@ && reply@ == nothing_queued_text(),
        old(queue)@.len() > 0 ==> {
            &&& reply@ == "Shuffled!"@
            &&& final(queue)@.len() == old(queue)@.len()
            &&& final(queue)@[0] == old(queue)@[0]
            &&& final(queue)@.skip(1).to_multiset() == old(queue)@.skip(1).to_multiset()
        },
{
    let front = match queue.pop_front() {
        Some(front) => front,
        None => {
            return String::from_str("Nothing is queued!");
        },
    };
    let ghost rest = queue@;
    shuffle_entries(queue);
    let ghost shuffled = queue@;
    queue.push_front(front);
    proof {
        assert(rest =~= old(queue)@.skip(1));
        assert(queue@.skip(1) =~= shuffled);
        rest.to_multiset_ensures();
        shuffled.to_multiset_ensures();
    }
    String::from_str("Shuffled!")
}

/// The reply of `clear` to a queue that holds the playing track only.
pub open spec fn only_one_text() -> Seq<char> {
    "There's only one item in the queue, no point in clearing!"@
}

/// Drops every track behind the playing one.
///
/// Returns the dropped tracks, last first, for the caller to stop, and the
/// reply. A queue of one track or none is left alone, and the reply says so.
pub fn clear<T>(queue: &mut VecDeque<T>) -> (dropped: (Vec<T>, String))
    ensures
        old(queue)@.len() <= 1 ==> final(queue)@ == old(queue)@ && dropped.0@.len() == 0,
        old(queue)@.len() == 0 ==> dropped.1@ == nothing_queued_text(),
        old(queue)@.len() == 1 ==> dropped.1@ == only_one_text(),
        old(queue)@.len() > 1 ==> {
            &&& final(queue)@ == seq![old(queue)@[0]]
            &&& dropped.0@ == old(queue)@.skip(1).reverse()
            &&& dropped.1@ == "Cleared!"@
        },
{
    let mut stopped: Vec<T> = Vec::new();
    if queue.len() == 0 {
        return (stopped, String::from_str("Nothing is queued!"));
    }
    if queue.len() == 1 {
        return (
            stopped,
            String::from_str("There's only one item in the queue, no point in clearing!"),
        );
    }
    let ghost before = queue@;
    let ghost rest = before.skip(1);
    let current = queue.pop_front().unwrap();
    assert(queue@ =~= rest);
    while queue.len() > 0
        invariant
            queue@.len() <= rest.len(),
            queue@ == rest.take(queue@.len() as int),
            stopped@ == rest.skip(queue@.len() as int).reverse(),
        decreases queue@.len(),
    {
        let ghost left = queue@.len();
        let item = queue.pop_back().unwrap();
        stopped.push(item);
        assert(queue@ =~= rest.take(left - 1));
        assert(stopped@ =~= rest.skip(left - 1).reverse());
    }
    queue.push_front(current);
    assert(queue@ =~= seq![before[0]]);
    assert(rest.skip(0) =~= rest);
    (stopped, String::from_str("Cleared!"))
}

/// The reply of `remove` to a position behind the end of the queue.
pub open spec fn no_such_track_text() -> Seq<char> {
    "There's no track at that position!"@
}

/// Where a removal starts, counted from 0: `index` counts from 1, and 0 is
/// read as 1.
pub open spec fn removal_start(index: usize) -> nat {
    if index == 0 {
        0
    } else {
        (index - 1) as nat
    }
}

/// Where a removal ends: behind the track at the start and `size` more, or
/// with the queue.
pub open spec fn removal_end(index: usize, size: Option<usize>, len: nat) -> nat {
    let wanted = removal_start(index) + 1 + match size {
        Some(more) => more as nat,
        None => 0,
    };
    if wanted < len {
        wanted
    } else {
        len
    }
}

/// Takes the track at position `index`, counted from 1, out of the queue, and
/// `size` more tracks behind it, as far as the queue goes.
///
/// Returns the removed tracks in queue order, for the caller to stop, and the
/// reply. An empty queue and a position behind its end change nothing, and
/// the reply says which it was.
pub fn remove<T>(queue: &mut VecDeque<T>, index: usize, size: Option<usize>) -> (removed: (
    Vec<T>,
    String,
))
    ensures
        old(queue)@.len() == 0 ==> removed.1@ == nothing_queued_text(),
        0 < old(queue)@.len() <= removal_start(index) ==> removed.1@ == no_such_track_text(),
        removal_start(index) >= old(queue)@.len() ==> final(queue)@ == old(queue)@
            && removed.0@.len() == 0,
        removal_start(index) < old(queue)@.len() ==> {
            let start = removal_start(index) as int;
            let end = removal_end(index, size, old(queue)@.len()) as int;
            &&& removed.1@ == "Removed!"@
            &&& start < end <= old(queue)@.len()
            &&& removed.0@ == old(queue)@.subrange(start, end)
            &&& final(queue)@ == old(queue)@.take(start) + old(queue)@.skip(end)
        },
        1 <= index <= old(queue)@.len() + 1 ==> removed.0@.len() == vstd::math::min(
            match size {
                Some(more) => more + 1,
                None => 1,
            },
            old(queue)@.len() - index + 1,
        ),
        index > 1 && old(queue)@.len() > 0 ==> final(queue)@.len() > 0 && final(queue)@[0] == old(
            queue,
        )@[0],
{
    let mut taken: Vec<T> = Vec::new();
    let len: usize = queue.len();
    if len == 0 {
        return (taken, String::from_str("Nothing is queued!"));
    }
    let start: usize = if index == 0 {
        0
    } else {
        index - 1
    };
    if start >= len {
        return (taken, String::from_str("There's no track at that position!"));
    }
    let more: usize = match size {
        Some(more) => more,
        None => 0,
    };
    let end: usize = if more >= len - start - 1 {
        len
    } else {
        start + 1 + more
    };
    let ghost before = queue@;
    while taken.len() < end - start
        invariant
            start < end <= len,
            len == before.len(),
            taken@.len() <= end - start,
            taken@ == before.subrange(start as int, start + taken@.len()),
            queue@ == before.take(start as int) + before.skip(start + taken@.len()),
        decreases end - start - taken@.len(),
    {
        let ghost done = taken@.len();
        let track = queue.remove(start).unwrap();
        taken.push(track);
        assert(taken@ =~= before.subrange(start as int, start + done + 1));
        assert(queue@ =~= before.take(start as int) + before.skip(start + done + 1));
    }
    (taken, String::from_str("Removed!"))
}

/// Moves the last track of the queue to its front, ahead of the track that
/// was playing. A queue of one track or none stays as it is.
pub fn move_to_front<T>(queue: &mut VecDeque<T>)
    ensures
        old(queue)@.len() <= 1 ==> final(queue)@ == old(queue)@,
        old(queue)@.len() > 1 ==> final(queue)@ == seq![old(queue)@.last()] + old(
            queue,
        )@.drop_last(),
{
    if queue.len() == 1 {
        return ;
    }
    match queue.pop_back() {
        Some(last) => {
            queue.push_front(last);
        },
        None => {},
    }
}

/// What a query names: a video by its address, or words to search for.
#[derive(Clone, Copy, Debug, PartialEq, Eq, Structural)]
pub enum QueryKind {
    DirectLink,
    Search,
}

/// Whether `prefix` stands in `text` at position `from`.
pub open spec fn prefix_at(text: Seq<char>, from: nat, prefix: Seq<char>) -> bool {
    from + prefix.len() <= text.len() && text.subrange(
        from as int,
        (from + prefix.len()) as int,
    ) == prefix
}

/// The length of the scheme a query starts with, `http://` or `https://`, if
/// it starts with either.
pub open spec fn scheme_len(query: Seq<char>) -> Option<nat> {
    if prefix_at(query, 0, "https://"@) {
        Some("https://"@.len())
    } else if prefix_at(query, 0, "http://"@) {
        Some("http://"@.len())
    } else {
        None
    }
}

/// Whether a query is the address of a video: a scheme, `http://` or
/// `https://`, then `www.` or not, then `youtube.com/` or `youtu.be/`.
pub open spec fn is_direct_link(query: Seq<char>) -> bool {
    match scheme_len(query) {
        Some(scheme) => {
            let host = if prefix_at(query, scheme, "www."@) {
                scheme + "www."@.len()
            } else {
                scheme
            };
            prefix_at(query, host, "youtube.com/"@) || prefix_at(query, host, "youtu.be/"@)
        },
        None => false,
    }
}

/// Whether `prefix` stands in `text` at position `from`, counted in characters.
fn starts_at(text: &str, from: usize, prefix: &str) -> (found: bool)
    ensures
        found == prefix_at(text@, from as nat, prefix@),
{
    let len: usize = text.unicode_len();
    let width: usize = prefix.unicode_len();
    if from > len || width > len - from {
        return false;
    }
    let part = String::from_str(text.substring_char(from, from + width));
    part == String::from_str(prefix)
}

/// Tells the address of a video from words to search for.
pub fn classify_query(query: &str) -> (kind: QueryKind)
    ensures
        kind == if is_direct_link(query@) {
            QueryKind::DirectLink
        } else {
            QueryKind::Search
        },
{
    let scheme: usize = if starts_at(query, 0, "https://") {
        "https://".unicode_len()
    } else if starts_at(query, 0, "http://") {
        "http://".unicode_len()
    } else {
        return QueryKind::Search;
    };
    let www: usize = "www.".unicode_len();
    proof {
        reveal_strlit("https://");
        reveal_strlit("http://");
        reveal_strlit("www.");
    }
    let host: usize = if starts_at(query, scheme, "www.") {
        scheme + www
    } else {
        scheme
    };
    if starts_at(query, host, "youtube.com/") || starts_at(query, host, "youtu.be/") {
        QueryKind::DirectLink
    } else {
        QueryKind::Search
    }
}

/// What `play` is to do once the caller is known to be in a voice channel.
#[derive(Clone, Copy, Debug, PartialEq, Eq, Structural)]
pub struct PlayPlan {
    /// The server to play in.
    pub guild: u64,
    /// The voice channel to join.
    pub channel: u64,
    /// How to look the track up.
    pub source: QueryKind,
    /// Whether to rewind and pause what plays, and to put the new track in
    /// front of it.
    pub immediate: bool,
    /// Whether the new track is to repeat.
    pub track_loop: bool,
}

/// One thing that `play` does to the call once the track has been looked up.
#[derive(Clone, Copy, Debug, PartialEq, Eq, Structural)]
pub enum PlayStep {
    /// Pause the track that is playing, if there is one, and rewind it.
    RewindCurrent,
    /// Append the new track to the queue.
    Enqueue,
    /// Move the new track from the end of the queue to its front.
    MoveToFront,
    /// Make the new track repeat without end.
    EnableLoop,
}

/// The steps of `play`, in order. A track to play at once is put in front of
/// the one that was playing, which is rewound and paused first; any other is
/// appended. A track that is to repeat is told so once it is queued.
pub open spec fn play_steps(immediate: bool, track_loop: bool) -> Seq<PlayStep> {
    let queueing = if immediate {
        seq![PlayStep::RewindCurrent, PlayStep::Enqueue, PlayStep::MoveToFront]
    } else {
        seq![PlayStep::Enqueue]
    };
    if track_loop {
        queueing.push(PlayStep::EnableLoop)
    } else {
        queueing
    }
}

impl PlayPlan {
    /// Lists what is to be done to the call, in order.
    pub fn steps(&self) -> (steps: Vec<PlayStep>)
        ensures
            steps@ == play_steps(self.immediate, self.track_loop),
    {
        let mut steps: Vec<PlayStep> = Vec::new();
        if self.immediate {
            steps.push(PlayStep::RewindCurrent);
        }
        steps.push(PlayStep::Enqueue);
        if self.immediate {
            steps.push(PlayStep::MoveToFront);
        }
        if self.track_loop {
            steps.push(PlayStep::EnableLoop);
        }
        assert(steps@ =~= play_steps(self.immediate, self.track_loop));
        steps
    }
}

/// The reply of `play` to a caller who is in no voice channel.
pub open spec fn not_in_channel_text() -> Seq<char> {
    "You've gotta be in a voice channel to play!"@
}

/// Decides what a request to play `query` leads to.
///
/// `guild` is the server the request came from and `voice_channel` the voice
/// channel its author is in. Outside a server, or with the author in no voice
/// channel, the request is refused with the reply to send; otherwise the plan
/// says where to play, how to look the track up, and what to do with it.
pub fn play(
    guild: Option<u64>,
    voice_channel: Option<u64>,
    query: &str,
    immediate: bool,
    track_loop: bool,
) -> (decision: Result<PlayPlan, String>)
    ensures
        decision is Ok <==> guild is Some && voice_channel is Some,
        decision matches Ok(plan) ==> plan == (PlayPlan {
            guild: guild->0,
            channel: voice_channel->0,
            source: if is_direct_link(query@) {
                QueryKind::DirectLink
            } else {
                QueryKind::Search
            },
            immediate,
            track_loop,
        }),
        decision matches Err(reply) ==> reply@ == if guild is None {
            not_in_server_text()
        } else {
            not_in_channel_text()
        },
{
    let guild = match guild {
        Some(guild) => guild,
        None => {
            return Err(String::from_str("I can only operate in a server!"));
        },
    };
    let channel = match voice_channel {
        Some(channel) => channel,
        None => {
            return Err(String::from_str("You've gotta be in a voice channel to play!"));
        },
    };
    Ok(PlayPlan { guild, channel, source: classify_query(query), immediate, track_loop })
}

/// How a track names the user who asked for it: a mention of the user.
pub open spec fn mention_text(user: u64) -> Seq<char> {
    "<@"@ + decimal(user as nat) + ">"@
}

/// Words the mention of a user, which is kept with each track that the user
/// asks for.
pub fn requester_mention(user: u64) -> (mention: String)
    ensures
        mention@ == mention_text(user),
{
    let mut mention = String::from_str("<@");
    push_decimal(&mut mention, user as u128);
    mention.append(">");
    mention
}

/// The reply for a track that was added to the queue.
pub open spec fn added_text(title: Option<Seq<char>>) -> Seq<char> {
    "Got it!. Added **"@ + match title {
        Some(text) => text,
        None => "Untitled"@,
    } + "** to the queue"@
}

/// Words the reply of `play` for a track that was added, by its title or as
/// `Untitled`.
pub fn play_added(title: Option<String>) -> (reply: String)
    ensures
        reply@ == added_text(text_of(title)),
{
    let mut reply = String::from_str("Got it!. Added **");
    match title {
        Some(text) => reply.append(text.as_str()),
        None => reply.append("Untitled"),
    }
    reply.append("** to the queue");
    reply
}

/// Words the reply of `play` for a track that could not be looked up, with
/// the cause between code fences.
pub fn play_failed(cause: &str) -> (reply: String)
    ensures
        reply@ == command_error_text(cause@),
{
    command_error(cause)
}

/// How an attempt to leave a call ended.
#[derive(Debug, PartialEq, Eq)]
pub enum LeaveOutcome {
    /// The bot left.
    Left,
    /// There was no call to leave.
    NoCall,
    /// The voice driver failed, with its account of it.
    Failed(String),
}

/// Decides whether a request to stop leads to leaving a call: the server
/// whose call to leave, or the reply for a request made outside a server.
pub fn stop(guild: Option<u64>) -> (decision: Result<u64, String>)
    ensures
        match guild {
            Some(id) => decision == Ok::<u64, String>(id),
            None => decision matches Err(reply) && reply@ == not_in_server_text(),
        },
{
    match guild {
        Some(id) => Ok(id),
        None => Err(String::from_str("I can only operate in a server!")),
    }
}

/// The reply of `stop` by how leaving the call ended.
pub open spec fn stopped_text(outcome: LeaveOutcome) -> Seq<char> {
    match outcome {
        LeaveOutcome::Left => "Disconnected from server!"@,
        LeaveOutcome::NoCall => "I'm not playing anything!"@,
        LeaveOutcome::Failed(detail) => command_error_text(detail@),
    }
}

/// Words the reply of `stop` once leaving the call was tried.
pub fn stop_reply(outcome: LeaveOutcome) -> (reply: String)
    ensures
        reply@ == stopped_text(outcome),
{
    match outcome {
        LeaveOutcome::Left => String::from_str("Disconnected from server!"),
        LeaveOutcome::NoCall => String::from_str("I'm not playing anything!"),
        LeaveOutcome::Failed(detail) => command_error(detail.as_str()),
    }
}

/// The reply of `next` by what the voice driver said to skipping.
pub open spec fn skipped_text(refusal: Option<Seq<char>>) -> Seq<char> {
    match refusal {
        Some(detail) => command_error_text(detail),
        None => "Skipped!"@,
    }
}

/// Words the reply to skipping the playing track: `refusal` is the voice
/// driver's account of why it did not, `None` if it did.
pub fn next(refusal: Option<String>) -> (reply: String)
    ensures
        reply@ == skipped_text(text_of(refusal)),
{
    match refusal {
        Some(detail) => command_error(detail.as_str()),
        None => String::from_str("Skipped!"),
    }
}

} // verus!
