//! Rendering of the queue and of the track that is playing.

use vstd::prelude::*;
use vstd::slice::slice_subrange;
use vstd::string::{StrSliceExecFns, StringExecFns};
use crate::decimal::{decimal, push_decimal};
use crate::timespan::TimeSpan;
use crate::track::{LoopState, PlayMode, TrackState};
use crate::reply::{Colour, Embed, EmbedField, EmbedView, FieldView, Reply, ReplyView};
use crate::utils::{elapsed_text, human_print_time, text_of, CustomMetadata, MetadataView};

verus! {

/// The longest title shown in full, in characters.
pub const TITLE_LIMIT: usize = 48;

/// The link target of a track whose source is unknown.
pub open spec fn default_source_url() -> Seq<char> {
    "https://www.youtube.com"@
}

/// The title of a track that has none.
pub open spec fn default_title() -> Seq<char> {
    "Untitled"@
}

/// The pattern of a bracketed remark in a title: from a `[` to the last `]`
/// on the same line.
pub open spec fn bracket_pattern() -> Seq<char> {
    "\\[.*\\]"@
}

/// The text that `regex` produces when it compiles `pattern` and replaces
/// every match of it in `haystack` by `replacement`; `None` where it rejects
/// the pattern.
pub uninterp spec fn regex_replace_all(
    pattern: Seq<char>,
    haystack: Seq<char>,
    replacement: Seq<char>,
) -> Option<Seq<char>>;

/// Compiles `pattern` with `regex::Regex::new` and, if that succeeds, calls
/// `regex::Regex::replace_all` on `haystack` with `replacement`.
///
/// Nothing is proved of the outcome: it is named [`regex_replace_all`], which
/// rests on the two calls being functions of their arguments alone.
#[verifier::external_body]
fn replace_all(pattern: &str, haystack: &str, replacement: &str) -> (replaced: Option<String>)
    ensures
        text_of(replaced) == regex_replace_all(pattern@, haystack@, replacement@),
{
    match regex::Regex::new(pattern) {
        Ok(re) => Some(re.replace_all(haystack, replacement).into_owned()),
        Err(_) => None,
    }
}

/// A title without its bracketed remarks, given what the pattern replacement
/// returned for it: the replaced text, or the title itself where there is none.
pub open spec fn stripped_title(title: Seq<char>, replaced: Option<Seq<char>>) -> Seq<char> {
    match replaced {
        Some(text) => text,
        None => title,
    }
}

/// A title cut to [`TITLE_LIMIT`] characters, with `...` in place of what was cut.
pub open spec fn shortened_title(title: Seq<char>) -> Seq<char> {
    if title.len() > TITLE_LIMIT {
        title.take(TITLE_LIMIT as int) + "..."@
    } else {
        title
    }
}

/// A markdown link that shows `title` and leads to `url`.
pub open spec fn title_link(title: Seq<char>, url: Seq<char>) -> Seq<char> {
    "["@ + shortened_title(title) + "]("@ + url + ")"@
}

/// The link for a track with the given source and title, either of which may
/// be unknown.
pub open spec fn track_title_text(url: Option<Seq<char>>, title: Option<Seq<char>>) -> Seq<char> {
    let shown = match title {
        Some(text) => text,
        None => default_title(),
    };
    let target = match url {
        Some(text) => text,
        None => default_source_url(),
    };
    title_link(
        stripped_title(shown, regex_replace_all(bracket_pattern(), shown, ""@)),
        target,
    )
}

/// Renders a title, already free of bracketed remarks, as a markdown link to
/// `url`: titles longer than [`TITLE_LIMIT`] characters are cut there and
/// marked with `...`.
pub fn link_title(title: &str, url: &str) -> (link: String)
    ensures
        link@ == title_link(title@, url@),
{
    let mut link = String::from_str("[");
    if title.unicode_len() > TITLE_LIMIT {
        link.append(title.substring_char(0, TITLE_LIMIT));
        link.append("...");
    } else {
        link.append(title);
    }
    link.append("](");
    link.append(url);
    link.append(")");
    link
}

/// Renders a track as a markdown link: the title without bracketed remarks,
/// cut to [`TITLE_LIMIT`] characters, over the source URL. A missing title
/// reads `Untitled`; a missing URL leads to the site's front page.
pub fn track_title(url: Option<String>, title: Option<String>) -> (link: String)
    ensures
        link@ == track_title_text(text_of(url), text_of(title)),
{
    let source_url = match url {
        Some(text) => text,
        None => String::from_str("https://www.youtube.com"),
    };
    let title = match title {
        Some(text) => text,
        None => String::from_str("Untitled"),
    };
    let title = match replace_all("\\[.*\\]", title.as_str(), "") {
        Some(text) => text,
        None => title,
    };
    link_title(title.as_str(), source_url.as_str())
}

/// `-` for an empty queue, else the number of songs in words.
pub open spec fn queue_size_text(size: nat) -> Seq<char> {
    if size == 0 {
        "-"@
    } else if size == 1 {
        "1 song"@
    } else {
        decimal(size) + " songs"@
    }
}

/// Describes the size of the queue.
pub fn queue_size_fmt(size: usize) -> (text: String)
    ensures
        text@ == queue_size_text(size as nat),
{
    if size == 0 {
        String::from_str("-")
    } else if size == 1 {
        String::from_str("1 song")
    } else {
        let mut text = String::new();
        push_decimal(&mut text, size as u128);
        text.append(" songs");
        text
    }
}

/// The width of the progress bar under the playing track, in glyphs.
pub const BAR_WIDTH: u8 = 15;

/// Where on a bar of `width` glyphs the marker stands for a track of length
/// `total` played up to `position`: at `width * position / total`, rounded
/// down. A track of no length that has not started has it at the front. Past
/// the end of the track, or at it, there is none.
pub open spec fn marker_index(position: nat, total: nat, width: nat) -> Option<nat> {
    if total == 0 {
        if position == 0 {
            Some(0)
        } else {
            None
        }
    } else if position < total {
        Some(width * position / total)
    } else {
        None
    }
}

/// A bar of `width` glyphs: the marker at `marker`, the track glyph elsewhere.
pub open spec fn progress_bar(marker: Option<nat>, width: nat) -> Seq<char> {
    Seq::new(
        width,
        |i: int|
            if marker == Some(i as nat) {
                '🔘'
            } else {
                '▬'
            },
    )
}

/// The bar for a track of which the length may be unknown: empty if it is.
pub open spec fn progress_bar_text(position: nat, total: Option<nat>, width: nat) -> Seq<char> {
    match total {
        Some(length) => progress_bar(marker_index(position, length, width), width),
        None => Seq::empty(),
    }
}

/// Before the end of a track the bar has `width` glyphs, one of them the
/// marker, which stands at `width * position / total` rounded down.
pub proof fn lemma_progress_bar_has_one_marker(position: nat, total: nat, width: nat)
    requires
        position < total,
        width > 0,
    ensures
        ({
            let bar = progress_bar_text(position, Some(total), width);
            let at = (width * position / total) as int;
            &&& bar.len() == width
            &&& 0 <= at < width
            &&& bar[at] == '🔘'
            &&& forall|i: int| 0 <= i < width && i != at ==> #[trigger] bar[i] == '▬'
        }),
{
    lemma_marker_within_bar(position, total, width);
}

/// Before the end of a track the marker's place is on the bar.
proof fn lemma_marker_within_bar(position: nat, total: nat, width: nat)
    requires
        position < total,
        width > 0,
    ensures
        0 <= width * position / total < width,
{
    assert(width * position < width * total) by (nonlinear_arith)
        requires
            position < total,
            width > 0,
    ;
    assert(width * position / total < width) by (nonlinear_arith)
        requires
            width * position < width * total,
            total > 0,
    ;
    assert(0 <= width * position / total) by (nonlinear_arith)
        requires
            total > 0,
    ;
}

/// Draws the progress bar of a track played up to `position`. A track of
/// unknown length has none: the result is empty.
pub fn render_progress_bar(position: TimeSpan, total: Option<TimeSpan>, width: u8) -> (bar: String)
    ensures
        bar@ == progress_bar_text(
            position@,
            match total {
                Some(length) => Some(length@),
                None => None,
            },
            width as nat,
        ),
{
    let mut bar = String::new();
    let length = match total {
        Some(length) => length.as_nanos(),
        None => {
            return bar;
        },
    };
    let played: u128 = position.as_nanos();
    let marker: Option<u128> = if length == 0 {
        if played == 0 {
            Some(0)
        } else {
            None
        }
    } else if played < length {
        assert(width as u128 * played < 0x4000_0000_0000_0000_0000_0000_00) by (nonlinear_arith)
            requires
                width < 0x100,
                played < 0x4000_0000_0000_0000_0000_0000,
        ;
        Some(width as u128 * played / length)
    } else {
        None
    };
    let ghost at = marker_index(played as nat, length as nat, width as nat);
    assert(at == match marker {
        Some(m) => Some(m as nat),
        None => None,
    });
    let mut i: u8 = 0;
    while i < width
        invariant
            i <= width,
            bar@ == progress_bar(at, i as nat),
            at == match marker {
                Some(m) => Some(m as nat),
                None => None,
            },
        decreases width - i,
    {
        proof {
            reveal_strlit("🔘");
            reveal_strlit("▬");
        }
        if marker == Some(i as u128) {
            bar.append("🔘");
        } else {
            bar.append("▬");
        }
        i = i + 1;
        assert(bar@ =~= progress_bar(at, i as nat));
    }
    bar
}

/// The glyph for a play mode: playing, paused, or neither.
pub open spec fn play_button(playing: PlayMode) -> Seq<char> {
    match playing {
        PlayMode::Play => "▶️"@,
        PlayMode::Pause => "⏸️"@,
        _ => "⏹️"@,
    }
}

/// The glyph for a track that repeats; empty for one that does not.
pub open spec fn loop_button(loops: LoopState) -> Seq<char> {
    match loops {
        LoopState::Infinite => "🔁"@,
        LoopState::Finite(left) => if left == 0 {
            ""@
        } else {
            "🔁"@
        },
    }
}

/// The playback line under the playing track: play glyph, loop glyph,
/// progress bar of [`BAR_WIDTH`] glyphs, then elapsed and total time between
/// backticks. Empty for a track of unknown length.
pub open spec fn track_duration_text(
    duration: Option<nat>,
    playing: PlayMode,
    loops: LoopState,
    position: nat,
) -> Seq<char> {
    match duration {
        Some(length) => play_button(playing) + loop_button(loops) + progress_bar(
            marker_index(position, length, BAR_WIDTH as nat),
            BAR_WIDTH as nat,
        ) + "`"@ + elapsed_text(position / 1_000_000_000) + "/"@ + elapsed_text(
            length / 1_000_000_000,
        ) + "`"@,
        None => Seq::empty(),
    }
}

/// Renders the playback line of a track: its state, how far it has played,
/// and the elapsed and total times. A track of unknown length has none.
pub fn track_duration(duration: Option<TimeSpan>, info: TrackState) -> (line: String)
    ensures
        line@ == track_duration_text(
            match duration {
                Some(length) => Some(length@),
                None => None,
            },
            info.playing,
            info.loops,
            info.position@,
        ),
{
    let length = match duration {
        Some(length) => length,
        None => {
            return String::new();
        },
    };
    let mut line = String::from_str(
        match info.playing {
            PlayMode::Play => "▶️",
            PlayMode::Pause => "⏸️",
            _ => "⏹️",
        },
    );
    line.append(
        match info.loops {
            LoopState::Infinite => "🔁",
            LoopState::Finite(0) => "",
            LoopState::Finite(_) => "🔁",
        },
    );
    let bar = render_progress_bar(info.position, Some(length), BAR_WIDTH);
    line.append(bar.as_str());
    line.append("`");
    line.append(human_print_time(info.position).as_str());
    line.append("/");
    line.append(human_print_time(length).as_str());
    line.append("`");
    line
}

/// The number of entries on a full page of the queue listing.
pub const PAGE_SIZE: usize = 10;

/// One page of the queue listing: the entries at positions `start..end` of the
/// queue, counted from 0.
#[derive(Clone, Copy, Debug, PartialEq, Eq, Structural)]
pub struct Page {
    pub start: usize,
    pub end: usize,
}

/// The positions that a page lists, as numbers without bound.
pub struct PageRange {
    pub start: nat,
    pub end: nat,
}

impl View for Page {
    type V = PageRange;

    open spec fn view(&self) -> PageRange {
        PageRange { start: self.start as nat, end: self.end as nat }
    }
}

/// The ranges of a run of pages.
pub open spec fn ranges_of(pages: Seq<Page>) -> Seq<PageRange> {
    pages.map_values(|page: Page| page@)
}

/// The number of pages for a queue of `len` entries: `len / page_size`,
/// rounded up.
pub open spec fn page_count(len: nat, page_size: nat) -> nat {
    if page_size == 0 {
        0
    } else {
        ((len + page_size - 1) / (page_size as int)) as nat
    }
}

/// Where page `k` starts. Pages cut the queue every `page_size` entries; the
/// first page leaves out position 0, the track that is playing.
pub open spec fn page_start(k: nat, page_size: nat) -> nat {
    if k == 0 {
        1
    } else {
        k * page_size
    }
}

/// Where page `k` ends: `page_size` entries after the cut it starts from, or
/// with the queue.
pub open spec fn page_end(k: nat, len: nat, page_size: nat) -> nat {
    if (k + 1) * page_size < len {
        (k + 1) * page_size
    } else {
        len
    }
}

/// The pages of a queue of `len` entries.
pub open spec fn page_ranges(len: nat, page_size: nat) -> Seq<PageRange> {
    Seq::new(
        page_count(len, page_size),
        |k: int|
            PageRange {
                start: page_start(k as nat, page_size),
                end: page_end(k as nat, len, page_size),
            },
    )
}

/// The entries that a run of pages lists, in order.
pub open spec fn listed_entries<T>(snapshot: Seq<T>, pages: Seq<PageRange>) -> Seq<T>
    decreases pages.len(),
{
    if pages.len() == 0 {
        Seq::empty()
    } else {
        listed_entries(snapshot, pages.drop_last()) + snapshot.subrange(
            pages.last().start as int,
            pages.last().end as int,
        )
    }
}

/// One page more reaches `page_size` entries further.
proof fn lemma_next_cut(k: int, page_size: int)
    ensures
        (k + 1) * page_size == k * page_size + page_size,
{
    assert((k + 1) * page_size == k * page_size + page_size) by (nonlinear_arith);
}

/// A later page is not cut before an earlier one.
proof fn lemma_cuts_ordered(j: int, k: int, page_size: int)
    requires
        j <= k,
        page_size > 0,
    ensures
        j * page_size <= k * page_size,
{
    assert(j * page_size <= k * page_size) by (nonlinear_arith)
        requires
            j <= k,
            page_size > 0,
    ;
}

/// The pages of a queue reach its end, and one page fewer would not. An
/// empty queue has no page, any other has one at least.
proof fn lemma_page_count_bounds(len: nat, page_size: nat)
    requires
        page_size > 0,
    ensures
        len <= page_count(len, page_size) * page_size < len + page_size,
        len == 0 <==> page_count(len, page_size) == 0,
{
    let q = (len + page_size - 1) / (page_size as int);
    assert(q * page_size <= len + page_size - 1 < q * page_size + page_size && (len == 0 <==> q
        == 0)) by (nonlinear_arith)
        requires
            page_size > 0,
            len >= 0,
            q == (len + page_size - 1) / (page_size as int),
    ;
}

/// A count `k` of pages that reaches the end of the queue, while one page
/// fewer does not, is the page count.
proof fn lemma_page_count(k: nat, len: nat, page_size: nat)
    requires
        page_size > 0,
        k * page_size >= len,
        k > 0 ==> (k - 1) * page_size < len,
    ensures
        k == page_count(len, page_size),
{
    let q = page_count(len, page_size) as int;
    lemma_page_count_bounds(len, page_size);
    if k < q {
        lemma_cuts_ordered(k as int + 1, q, page_size as int);
        lemma_next_cut(k as int, page_size as int);
    } else if k > q {
        lemma_cuts_ordered(q, k - 1, page_size as int);
    }
}

/// Cuts the queue into pages of `page_size` entries. The track that is
/// playing, at position 0, is listed on no page: the first page starts behind it.
pub fn paginate<T>(snapshot: &[T], page_size: usize) -> (pages: Vec<Page>)
    requires
        page_size > 0,
    ensures
        ranges_of(pages@) == page_ranges(snapshot@.len(), page_size as nat),
{
    let len: usize = snapshot.len();
    let mut pages: Vec<Page> = Vec::new();
    let mut cut: usize = 0;
    assert(pages@.len() * page_size == 0) by (nonlinear_arith)
        requires
            pages@.len() == 0,
    ;
    while cut < len
        invariant
            page_size > 0,
            len == snapshot@.len(),
            cut <= len,
            cut == if pages@.len() * page_size < len {
                pages@.len() * page_size
            } else {
                len as int
            },
            pages@.len() > 0 ==> (pages@.len() - 1) * page_size < len,
            forall|k: int|
                0 <= k < pages@.len() ==> (#[trigger] pages@[k])@ == (PageRange {
                    start: page_start(k as nat, page_size as nat),
                    end: page_end(k as nat, len as nat, page_size as nat),
                }),
        decreases len - cut,
    {
        let ghost k = pages@.len();
        let ghost before = pages@;
        proof {
            lemma_next_cut(k as int, page_size as int);
        }
        let end: usize = if len - cut > page_size {
            cut + page_size
        } else {
            len
        };
        let start: usize = if cut == 0 {
            1
        } else {
            cut
        };
        assert(cut == 0 <==> k == 0) by (nonlinear_arith)
            requires
                cut == k * page_size,
                page_size > 0,
        ;
        pages.push(Page { start, end });
        cut = end;
        assert forall|j: int| 0 <= j < pages@.len() implies (#[trigger] pages@[j])@ == (PageRange {
            start: page_start(j as nat, page_size as nat),
            end: page_end(j as nat, len as nat, page_size as nat),
        }) by {
            if j < k {
                assert(pages@[j] == before[j]);
            }
        }
    }
    proof {
        let k = pages@.len();
        lemma_page_count(k, len as nat, page_size as nat);
        assert(ranges_of(pages@) =~= page_ranges(len as nat, page_size as nat));
    }
    pages
}

/// The first `k` pages list the queue from position 1 up to where page `k - 1` ends.
proof fn lemma_pages_list_prefix<T>(snapshot: Seq<T>, page_size: nat, k: nat)
    requires
        page_size > 0,
        1 <= k <= page_count(snapshot.len(), page_size),
    ensures
        listed_entries(snapshot, page_ranges(snapshot.len(), page_size).take(k as int))
            == snapshot.subrange(1, page_end((k - 1) as nat, snapshot.len(), page_size) as int),
        1 <= page_end((k - 1) as nat, snapshot.len(), page_size) <= snapshot.len(),
    decreases k,
{
    let len = snapshot.len();
    let all = page_ranges(len, page_size);
    let pages = all.take(k as int);
    let last = pages.last();
    lemma_page_count_bounds(len, page_size);
    lemma_cuts_ordered(k as int, page_count(len, page_size) as int, page_size as int);
    lemma_cuts_ordered(0, k - 1, page_size as int);
    lemma_next_cut(k - 1, page_size as int);
    assert((k - 1) * page_size < len);
    assert(last == all[k - 1]);
    assert(last.start == page_start((k - 1) as nat, page_size));
    assert(last.end == page_end((k - 1) as nat, len, page_size));
    if k == 1 {
        assert(pages.drop_last() =~= Seq::<PageRange>::empty());
        assert(listed_entries(snapshot, pages.drop_last()) =~= Seq::<T>::empty());
        assert(listed_entries(snapshot, pages) =~= snapshot.subrange(1, last.end as int));
    } else {
        lemma_pages_list_prefix(snapshot, page_size, (k - 1) as nat);
        assert(pages.drop_last() =~= all.take(k - 1));
        lemma_next_cut(k - 2, page_size as int);
        assert(page_end((k - 2) as nat, len, page_size) == (k - 1) * page_size);
        assert(last.start == (k - 1) * page_size);
        assert(listed_entries(snapshot, pages) =~= snapshot.subrange(1, last.end as int));
    }
}

/// A queue of `len` entries has `len / page_size` pages, rounded up, and the
/// track that is playing followed by the entries of all pages, page after
/// page, is the queue: every entry is listed once, in its place.
pub proof fn lemma_pages_cover_queue<T>(snapshot: Seq<T>, page_size: nat)
    requires
        page_size > 0,
    ensures
        page_ranges(snapshot.len(), page_size).len() == page_count(snapshot.len(), page_size),
        page_count(snapshot.len(), page_size) * page_size >= snapshot.len(),
        page_count(snapshot.len(), page_size) * page_size < snapshot.len() + page_size,
        snapshot.len() > 0 ==> seq![snapshot[0]] + listed_entries(
            snapshot,
            page_ranges(snapshot.len(), page_size),
        ) == snapshot,
        snapshot.len() == 0 ==> listed_entries(snapshot, page_ranges(snapshot.len(), page_size))
            == snapshot,
{
    let len = snapshot.len();
    let all = page_ranges(len, page_size);
    let q = page_count(len, page_size);
    lemma_page_count_bounds(len, page_size);
    if len > 0 {
        lemma_pages_list_prefix(snapshot, page_size, q);
        lemma_next_cut(q - 1, page_size as int);
        assert(all.take(q as int) =~= all);
        assert(page_end((q - 1) as nat, len, page_size) == len);
        assert(seq![snapshot[0]] + snapshot.subrange(1, len as int) =~= snapshot);
    } else {
        assert(listed_entries(snapshot, all) =~= snapshot);
    }
}

/// The seconds a track runs, 0 where its length is unknown.
pub open spec fn listed_seconds(duration: Option<nat>) -> nat {
    match duration {
        Some(length) => length / 1_000_000_000,
        None => 0,
    }
}

/// One line of the queue listing: the number between backticks, the title as
/// a link, the length between backticks.
pub open spec fn entry_line(number: nat, entry: MetadataView) -> Seq<char> {
    "`"@ + decimal(number) + ".` "@ + track_title_text(entry.source_url, entry.title) + " `"@
        + elapsed_text(listed_seconds(entry.duration)) + "`\n"@
}

/// The listing of `entries`, which stand in the queue behind `base_index`
/// other entries: one line each, numbered by their place in the queue,
/// counted from 1.
pub open spec fn page_text(entries: Seq<CustomMetadata>, base_index: nat) -> Seq<char>
    decreases entries.len(),
{
    if entries.len() == 0 {
        Seq::empty()
    } else {
        page_text(entries.drop_last(), base_index) + entry_line(
            base_index + entries.len(),
            entries.last()@,
        )
    }
}

/// A copy of an optional text.
fn clone_text(value: &Option<String>) -> (copy: Option<String>)
    ensures
        copy == *value,
{
    match value {
        Some(text) => Some(text.clone()),
        None => None,
    }
}

/// Appends the line of the entry that stands at place `number` of the queue,
/// counted from 1.
fn push_entry_line(text: &mut String, number: u128, entry: &CustomMetadata)
    ensures
        final(text)@ == old(text)@ + entry_line(number as nat, entry@),
{
    let length = match entry.duration {
        Some(length) => length,
        None => TimeSpan::from_secs(0),
    };
    let mut line = String::from_str("`");
    push_decimal(&mut line, number);
    line.append(".` ");
    line.append(track_title(clone_text(&entry.source_url), clone_text(&entry.title)).as_str());
    line.append(" `");
    line.append(human_print_time(length).as_str());
    line.append("`\n");
    assert(line@ =~= entry_line(number as nat, entry@));
    text.append(line.as_str());
}

/// Renders the entries of one page, which stand in the queue behind
/// `base_index` other entries.
pub fn render_page(page: &[CustomMetadata], base_index: usize) -> (text: String)
    ensures
        text@ == page_text(page@, base_index as nat),
{
    let mut text = String::new();
    let mut i: usize = 0;
    while i < page.len()
        invariant
            i <= page@.len(),
            text@ == page_text(page@.take(i as int), base_index as nat),
        decreases page@.len() - i,
    {
        push_entry_line(&mut text, base_index as u128 + i as u128 + 1, &page[i]);
        proof {
            let shown = page@.take(i + 1);
            assert(shown.drop_last() =~= page@.take(i as int));
            assert(shown.last() == page@[i as int]);
        }
        i = i + 1;
    }
    assert(page@.take(i as int) =~= page@);
    text
}

/// The accent of a rich message: green while the track plays, red otherwise.
pub open spec fn state_colour(playing: PlayMode) -> Colour {
    match playing {
        PlayMode::Play => Colour::DarkGreen,
        _ => Colour::DarkRed,
    }
}

/// The heading of a rich message, by what the track does.
pub open spec fn state_title(playing: PlayMode) -> Seq<char> {
    match playing {
        PlayMode::Play => "Now playing"@,
        PlayMode::Pause => "Paused"@,
        _ => "Not playing anything now"@,
    }
}

/// The footer of a rich message: the channel the track came from.
pub open spec fn footer_text(channel: Option<Seq<char>>) -> Seq<char> {
    "From: "@ + match channel {
        Some(name) => name,
        None => "Unknown"@,
    }
}

/// The block that describes the playing track: its link, who asked for it,
/// and its playback line.
pub open spec fn now_playing_text(track: MetadataView, info: TrackState) -> Seq<char> {
    track_title_text(track.source_url, track.title) + "\nRequested by: "@ + track.requested_by
        + "\n\n"@ + track_duration_text(track.duration, info.playing, info.loops, info.position@)
        + "\n\n"@
}

/// The rich message for the track that is playing.
pub open spec fn current_embed(track: MetadataView, info: TrackState) -> EmbedView {
    EmbedView {
        colour: state_colour(info.playing),
        title: state_title(info.playing),
        description: now_playing_text(track, info),
        fields: Seq::empty(),
        footer: footer_text(track.channel),
    }
}

/// The reply to a request for the playing track.
pub open spec fn current_reply(playing: Option<(&CustomMetadata, TrackState)>) -> ReplyView {
    match playing {
        Some((track, info)) => ReplyView::Embed(current_embed(track@, info)),
        None => ReplyView::Text("Nothing is queued right now!"@),
    }
}

/// The page a caller asks for: the first if none is named, and no page
/// before the first.
pub open spec fn requested_page(page: Option<usize>) -> nat {
    match page {
        Some(number) => if number < 1 {
            1
        } else {
            number as nat
        },
        None => 1,
    }
}

/// The words for where a page stands among all pages.
pub open spec fn page_indicator(page: nat, pages: nat) -> Seq<char> {
    decimal(page) + " out of "@ + decimal(pages)
}

/// The rich message for page `page`, counted from 1, of the queue `tracks`,
/// whose first track is in the state `info`.
pub open spec fn queue_embed(tracks: Seq<CustomMetadata>, info: TrackState, page: nat) -> EmbedView {
    let range = page_ranges(tracks.len(), PAGE_SIZE as nat)[page - 1];
    EmbedView {
        colour: state_colour(info.playing),
        title: state_title(info.playing),
        description: now_playing_text(tracks[0]@, info) + "**Up next:**\n"@ + page_text(
            tracks.subrange(range.start as int, range.end as int),
            range.start,
        ),
        fields: seq![
            FieldView { name: "In queue"@, value: queue_size_text(tracks.len()), inline: true },
            FieldView {
                name: "Page"@,
                value: page_indicator(page, page_count(tracks.len(), PAGE_SIZE as nat)),
                inline: true,
            },
        ],
        footer: footer_text(tracks[0]@.channel),
    }
}

/// The reply to a request for a page of the queue: a line of text for an
/// empty queue, for a page the queue does not have, and for a queue whose
/// first track gave no state; otherwise the rich message.
pub open spec fn queue_reply(
    tracks: Seq<CustomMetadata>,
    info: Option<TrackState>,
    page: Option<usize>,
) -> ReplyView {
    if tracks.len() == 0 {
        ReplyView::Text("There's nothing queued!"@)
    } else if requested_page(page) > page_count(tracks.len(), PAGE_SIZE as nat) {
        ReplyView::Text("The queue has no such page!"@)
    } else {
        match info {
            Some(info) => ReplyView::Embed(queue_embed(tracks, info, requested_page(page))),
            None => ReplyView::Text("I can't get the current track for some reason"@),
        }
    }
}

/// The heading of a rich message for a play mode.
fn heading(playing: PlayMode) -> (title: String)
    ensures
        title@ == state_title(playing),
{
    match playing {
        PlayMode::Play => String::from_str("Now playing"),
        PlayMode::Pause => String::from_str("Paused"),
        _ => String::from_str("Not playing anything now"),
    }
}

/// The accent of a rich message for a play mode.
fn accent(playing: PlayMode) -> (colour: Colour)
    ensures
        colour == state_colour(playing),
{
    match playing {
        PlayMode::Play => Colour::DarkGreen,
        _ => Colour::DarkRed,
    }
}

/// The footer that names the channel a track came from.
fn footer(channel: &Option<String>) -> (text: String)
    ensures
        text@ == footer_text(text_of(*channel)),
{
    let mut text = String::from_str("From: ");
    match channel {
        Some(name) => text.append(name.as_str()),
        None => text.append("Unknown"),
    }
    text
}

/// The block that describes the playing track.
fn now_playing(track: &CustomMetadata, info: TrackState) -> (text: String)
    ensures
        text@ == now_playing_text(track@, info),
{
    let mut text = track_title(clone_text(&track.source_url), clone_text(&track.title));
    text.append("\nRequested by: ");
    text.append(track.requested_by.as_str());
    text.append("\n\n");
    text.append(track_duration(track.duration, info).as_str());
    text.append("\n\n");
    text
}

/// Shows the queue: the track that is playing, with its state `info`, and
/// page `page` of what comes after it.
///
/// `tracks` is the queue in order, the playing track first; `info` is the
/// state of that track, `None` if it has none to give; `page` counts from 1
/// and defaults to 1.
pub fn queue(tracks: &Vec<CustomMetadata>, info: Option<TrackState>, page: Option<usize>) -> (reply:
    Reply)
    ensures
        reply@ == queue_reply(tracks@, info, page),
{
    if tracks.len() == 0 {
        return Reply::Text(String::from_str("There's nothing queued!"));
    }
    let page: usize = match page {
        Some(number) => if number < 1 {
            1
        } else {
            number
        },
        None => 1,
    };
    let pages = paginate(tracks.as_slice(), PAGE_SIZE);
    assert(pages@.len() == page_count(tracks@.len(), PAGE_SIZE as nat)) by {
        assert(ranges_of(pages@).len() == pages@.len());
    }
    if page > pages.len() {
        return Reply::Text(String::from_str("The queue has no such page!"));
    }
    let info = match info {
        Some(info) => info,
        None => {
            return Reply::Text(String::from_str("I can't get the current track for some reason"));
        },
    };
    let shown = pages[page - 1];
    let ghost range = page_ranges(tracks@.len(), PAGE_SIZE as nat)[page - 1];
    proof {
        assert(ranges_of(pages@)[page - 1] == shown@);
        assert(shown@ == range);
        lemma_page_within_queue(tracks@.len(), PAGE_SIZE as nat, (page - 1) as nat);
    }
    let listing = render_page(slice_subrange(tracks.as_slice(), shown.start, shown.end), shown.start);
    let mut description = now_playing(&tracks[0], info);
    description.append("**Up next:**\n");
    description.append(listing.as_str());
    let mut indicator = String::new();
    push_decimal(&mut indicator, page as u128);
    indicator.append(" out of ");
    push_decimal(&mut indicator, pages.len() as u128);
    let mut fields: Vec<EmbedField> = Vec::new();
    fields.push(
        EmbedField {
            name: String::from_str("In queue"),
            value: queue_size_fmt(tracks.len()),
            inline: true,
        },
    );
    fields.push(EmbedField { name: String::from_str("Page"), value: indicator, inline: true });
    let embed = Embed {
        colour: accent(info.playing),
        title: heading(info.playing),
        description,
        fields,
        footer: footer(&tracks[0].channel),
    };
    proof {
        let expected = queue_embed(tracks@, info, page as nat);
        assert(embed@.fields =~= expected.fields);
        assert(embed@.description =~= expected.description);
    }
    Reply::Embed(embed)
}

/// A page of the queue lies within it, start before end.
pub proof fn lemma_page_within_queue(len: nat, page_size: nat, k: nat)
    requires
        page_size > 0,
        k < page_count(len, page_size),
    ensures
        page_start(k, page_size) <= page_end(k, len, page_size) <= len,
        page_start(k, page_size) >= 1,
{
    lemma_page_count_bounds(len, page_size);
    lemma_cuts_ordered(k as int + 1, page_count(len, page_size) as int, page_size as int);
    lemma_next_cut(k as int, page_size as int);
    if k > 0 {
        lemma_cuts_ordered(1, k as int, page_size as int);
    }
}

/// Shows the track that is playing, given its metadata and state; says so
/// where nothing plays.
pub fn current(playing: Option<(&CustomMetadata, TrackState)>) -> (reply: Reply)
    ensures
        reply@ == current_reply(playing),
{
    let (track, info) = match playing {
        Some(pair) => pair,
        None => {
            return Reply::Text(String::from_str("Nothing is queued right now!"));
        },
    };
    let embed = Embed {
        colour: accent(info.playing),
        title: heading(info.playing),
        description: now_playing(track, info),
        fields: Vec::new(),
        footer: footer(&track.channel),
    };
    assert(embed@.fields =~= Seq::<FieldView>::empty());
    Reply::Embed(embed)
}

} // verus!
