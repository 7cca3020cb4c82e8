//! Incremental parsing of the VRChat output log: world joins and leaves.
//!
//! The log file only grows while VRChat runs.  The parser remembers how many
//! bytes of the current log file it has already handled and, on each poll,
//! examines only the lines that follow.

use vstd::prelude::*;
use vstd::string::StringSliceAdditionalSpecFns;
use vstd::utf8::{decode_utf8, encode_utf8, is_char_boundary, valid_utf8};
use crate::text::{bytes_match_at, str_eq};

verus! {

/// Pattern of the log line written when the player enters an instance:
/// the world id and the instance number are its two capture groups.
pub const WORLD_JOIN_PATTERN: &'static str = "Joining (wrld_[a-zA-Z0-9\\-]+):(\\d+)";

/// Pattern of the log line written when the player leaves a world.
pub const WORLD_LEAVE_PATTERN: &'static str = "Leaving wrld_";

// ------------------------------------------------------------------
// Outside calls: regular expressions and lossy UTF-8 decoding
// ------------------------------------------------------------------

/// The two first capture groups of the leftmost match of `pattern` in `haystack`
/// (`regex::bytes::Regex`), or `None` when nothing matches, the pattern does not
/// compile, or one of the two groups took no part in the match.
pub uninterp spec fn regex_two_groups_of(pattern: Seq<char>, haystack: Seq<u8>) -> Option<
    (Seq<u8>, Seq<u8>),
>;

/// Whether `pattern` matches somewhere in `haystack` (`regex::bytes::Regex::is_match`);
/// false when the pattern does not compile.
pub uninterp spec fn regex_is_match_of(pattern: Seq<char>, haystack: Seq<u8>) -> bool;

/// What `String::from_utf8_lossy` makes of a byte sequence.
pub uninterp spec fn utf8_lossy_of(bytes: Seq<u8>) -> Seq<char>;

/// Compiles `pattern` once with `regex::bytes::Regex::new` and, for each haystack,
/// returns capture groups 1 and 2 of `Regex::captures`.  Claimed: one entry per
/// haystack, each equal to `regex_two_groups_of(pattern, haystack)`; that is, the
/// result depends on the pattern and that haystack alone.
#[verifier::external_body]
fn regex_two_groups_each(pattern: &str, haystacks: &Vec<Vec<u8>>) -> (r: Vec<
    Option<(Vec<u8>, Vec<u8>)>,
>)
    ensures
        r@.len() == haystacks@.len(),
        forall|i: int|
            0 <= i < r@.len() ==> match #[trigger] r@[i] {
                Some(p) => regex_two_groups_of(pattern@, haystacks@[i]@) == Some((p.0@, p.1@)),
                None => regex_two_groups_of(pattern@, haystacks@[i]@) is None,
            },
{
    let re = regex::bytes::Regex::new(pattern).ok();
    haystacks.iter().map(|h| {
        let caps = re.as_ref()?.captures(h)?;
        Some((caps.get(1)?.as_bytes().to_vec(), caps.get(2)?.as_bytes().to_vec()))
    }).collect()
}

/// Compiles `pattern` once with `regex::bytes::Regex::new` and reports
/// `Regex::is_match` for each haystack.  Claimed: one entry per haystack, each
/// equal to `regex_is_match_of(pattern, haystack)`.
#[verifier::external_body]
fn regex_is_match_each(pattern: &str, haystacks: &Vec<Vec<u8>>) -> (r: Vec<bool>)
    ensures
        r@.len() == haystacks@.len(),
        forall|i: int|
            0 <= i < r@.len() ==> #[trigger] r@[i] == regex_is_match_of(pattern@, haystacks@[i]@),
{
    let re = regex::bytes::Regex::new(pattern).ok();
    haystacks.iter().map(|h| re.as_ref().map_or(false, |re| re.is_match(h))).collect()
}

/// `String::from_utf8_lossy(bytes).into_owned()`.  Claimed: the result is
/// `utf8_lossy_of(bytes)`, and for valid UTF-8 it is exactly the decoded text
/// (the std documentation: valid input is returned unchanged).
#[verifier::external_body]
fn utf8_lossy(bytes: &[u8]) -> (s: String)
    ensures
        s@ == utf8_lossy_of(bytes@),
        valid_utf8(bytes@) ==> s@ == decode_utf8(bytes@),
{
    String::from_utf8_lossy(bytes).into_owned()
}

// ------------------------------------------------------------------
// Lines
// ------------------------------------------------------------------

/// Index of the first `\n` at or after `i`, or the length when there is none.
pub open spec fn newline_at_or_after(s: Seq<u8>, i: int) -> int
    decreases s.len() - i,
{
    if i < 0 || i >= s.len() {
        s.len() as int
    } else if s[i] == 10 {
        i
    } else {
        newline_at_or_after(s, i + 1)
    }
}

pub proof fn lemma_newline_bounds(s: Seq<u8>, i: int)
    requires
        0 <= i <= s.len(),
    ensures
        i <= newline_at_or_after(s, i) <= s.len(),
        newline_at_or_after(s, i) < s.len() ==> s[newline_at_or_after(s, i)] == 10,
        forall|k: int| i <= k < newline_at_or_after(s, i) ==> s[k] != 10,
    decreases s.len() - i,
{
    if i < s.len() && s[i] != 10 {
        lemma_newline_bounds(s, i + 1);
    }
}

/// A line ended by `\n` loses a `\r` just before it.
pub open spec fn strip_cr(line: Seq<u8>) -> Seq<u8> {
    if line.len() > 0 && line.last() == 13 {
        line.drop_last()
    } else {
        line
    }
}

/// The lines of `s` from byte `start` on, as `str::lines` splits them: at each
/// `\n` (dropping a `\r` right before it); a final line needs no terminator and
/// an empty remainder yields no line.
pub open spec fn lines_from(s: Seq<u8>, start: int) -> Seq<Seq<u8>>
    decreases s.len() - start,
{
    if start < 0 || start >= s.len() {
        seq![]
    } else {
        let e = newline_at_or_after(s, start);
        proof {
            lemma_newline_bounds(s, start);
        }
        if e >= s.len() {
            seq![s.subrange(start, s.len() as int)]
        } else {
            seq![strip_cr(s.subrange(start, e))] + lines_from(s, e + 1)
        }
    }
}

fn copy_range(bytes: &[u8], from: usize, to: usize) -> (v: Vec<u8>)
    requires
        from <= to <= bytes@.len(),
    ensures
        v@ == bytes@.subrange(from as int, to as int),
{
    let mut v: Vec<u8> = Vec::new();
    let mut k = from;
    while k < to
        invariant
            from <= k <= to <= bytes@.len(),
            v@ == bytes@.subrange(from as int, k as int),
        decreases to - k,
    {
        v.push(bytes[k]);
        k = k + 1;
        assert(v@ =~= bytes@.subrange(from as int, k as int));
    }
    v
}

/// Splits `bytes[start..]` into lines.
fn split_lines(bytes: &[u8], start: usize) -> (lines: Vec<Vec<u8>>)
    requires
        start <= bytes@.len(),
    ensures
        lines.deep_view() == lines_from(bytes@, start as int),
{
    let len = bytes.len();
    let mut lines: Vec<Vec<u8>> = Vec::new();
    let mut cur = start;
    while cur < len
        invariant
            start <= cur <= len,
            len == bytes@.len(),
            lines.deep_view() + lines_from(bytes@, cur as int) == lines_from(bytes@, start as int),
        decreases len - cur,
    {
        let mut e = cur;
        while e < len && bytes[e] != 10
            invariant
                cur <= e <= len,
                len == bytes@.len(),
                newline_at_or_after(bytes@, cur as int) == newline_at_or_after(bytes@, e as int),
            decreases len - e,
        {
            e = e + 1;
        }
        let ghost before = lines.deep_view();
        if e >= len {
            let line = copy_range(bytes, cur, len);
            assert(line.deep_view() =~= line@);
            lines.push(line);
            assert(lines.deep_view() =~= before.push(bytes@.subrange(cur as int, len as int)));
            assert(lines.deep_view() + lines_from(bytes@, len as int) =~= before + lines_from(
                bytes@,
                cur as int,
            ));
            cur = len;
        } else {
            let mut end = e;
            if end > cur && bytes[end - 1] == 13 {
                end = end - 1;
            }
            let line = copy_range(bytes, cur, end);
            assert(line@ =~= strip_cr(bytes@.subrange(cur as int, e as int)));
            assert(line.deep_view() =~= line@);
            lines.push(line);
            assert(lines.deep_view() =~= before.push(strip_cr(bytes@.subrange(cur as int, e as int))));
            assert(lines.deep_view() + lines_from(bytes@, e + 1) =~= before + lines_from(
                bytes@,
                cur as int,
            ));
            cur = e + 1;
        }
    }
    assert(lines.deep_view() =~= lines.deep_view() + lines_from(bytes@, cur as int));
    lines
}

// ------------------------------------------------------------------
// Events
// ------------------------------------------------------------------

/// A world event found in the log.
#[derive(Debug, Clone)]
pub enum LogEvent {
    WorldJoined { world_id: String, instance_id: String },
    WorldLeft { world_id: String, instance_id: String },
}

/// The mathematical content of a `LogEvent`.
pub enum LogEventView {
    Joined { world_id: Seq<char>, instance_id: Seq<char> },
    Left { world_id: Seq<char>, instance_id: Seq<char> },
}

impl View for LogEvent {
    type V = LogEventView;

    open spec fn view(&self) -> LogEventView {
        match self {
            LogEvent::WorldJoined { world_id, instance_id } => LogEventView::Joined {
                world_id: world_id@,
                instance_id: instance_id@,
            },
            LogEvent::WorldLeft { world_id, instance_id } => LogEventView::Left {
                world_id: world_id@,
                instance_id: instance_id@,
            },
        }
    }
}

/// The world the player is in, as (world id, instance id).
pub open spec fn world_view(w: Option<(String, String)>) -> Option<(Seq<char>, Seq<char>)> {
    match w {
        Some(p) => Some((p.0@, p.1@)),
        None => None,
    }
}

pub open spec fn events_view(events: Seq<LogEvent>) -> Seq<LogEventView> {
    events.map_values(|e: LogEvent| e@)
}

/// The world joined on a line: the two groups of the join pattern, as text.
pub open spec fn join_on_line(line: Seq<u8>) -> Option<(Seq<char>, Seq<char>)> {
    match regex_two_groups_of(WORLD_JOIN_PATTERN@, line) {
        Some(groups) => Some((utf8_lossy_of(groups.0), utf8_lossy_of(groups.1))),
        None => None,
    }
}

/// One line, given what the patterns found on it: the world it joins (as
/// text), if any, and whether it matches the leave pattern.  A join sets the
/// current world and is reported; otherwise a leave clears the current world
/// and reports the world left, if any.
pub open spec fn line_step(
    world: Option<(Seq<char>, Seq<char>)>,
    joined: Option<(Seq<char>, Seq<char>)>,
    leaves: bool,
) -> (Option<(Seq<char>, Seq<char>)>, Option<LogEventView>) {
    match joined {
        Some(j) => (Some(j), Some(LogEventView::Joined { world_id: j.0, instance_id: j.1 })),
        None => if leaves {
            match world {
                Some(left) => (
                    None,
                    Some(LogEventView::Left { world_id: left.0, instance_id: left.1 }),
                ),
                None => (None, None),
            }
        } else {
            (world, None)
        },
    }
}

/// The current world and the events after lines on which the patterns found
/// `found` (per line: the world joined, whether it leaves), in order.
pub open spec fn line_steps_run(
    world: Option<(Seq<char>, Seq<char>)>,
    found: Seq<(Option<(Seq<char>, Seq<char>)>, bool)>,
) -> (Option<(Seq<char>, Seq<char>)>, Seq<LogEventView>)
    decreases found.len(),
{
    if found.len() == 0 {
        (world, seq![])
    } else {
        let before = line_steps_run(world, found.drop_last());
        let step = line_step(before.0, found.last().0, found.last().1);
        (
            step.0,
            match step.1 {
                Some(e) => before.1.push(e),
                None => before.1,
            },
        )
    }
}

/// What the two patterns find on a line.
pub open spec fn found_on_line(line: Seq<u8>) -> (Option<(Seq<char>, Seq<char>)>, bool) {
    (join_on_line(line), regex_is_match_of(WORLD_LEAVE_PATTERN@, line))
}

/// One line of the log.
pub open spec fn log_line_step(world: Option<(Seq<char>, Seq<char>)>, line: Seq<u8>) -> (
    Option<(Seq<char>, Seq<char>)>,
    Option<LogEventView>,
) {
    line_step(world, found_on_line(line).0, found_on_line(line).1)
}

/// The current world and the events after handling `lines` in order.
pub open spec fn log_lines_run(world: Option<(Seq<char>, Seq<char>)>, lines: Seq<Seq<u8>>) -> (
    Option<(Seq<char>, Seq<char>)>,
    Seq<LogEventView>,
)
    decreases lines.len(),
{
    if lines.len() == 0 {
        (world, seq![])
    } else {
        let before = log_lines_run(world, lines.drop_last());
        let step = log_line_step(before.0, lines.last());
        (
            step.0,
            match step.1 {
                Some(e) => before.1.push(e),
                None => before.1,
            },
        )
    }
}

/// Running over lines is running over what the patterns find on them.
proof fn lemma_run_is_found_run(world: Option<(Seq<char>, Seq<char>)>, lines: Seq<Seq<u8>>)
    ensures
        log_lines_run(world, lines) == line_steps_run(
            world,
            lines.map_values(|l: Seq<u8>| found_on_line(l)),
        ),
    decreases lines.len(),
{
    if lines.len() > 0 {
        lemma_run_is_found_run(world, lines.drop_last());
        assert(lines.map_values(|l: Seq<u8>| found_on_line(l)).drop_last() =~= lines.drop_last().map_values(
            |l: Seq<u8>| found_on_line(l),
        ));
    }
}

proof fn lemma_newline_in_prefix(s: Seq<u8>, t: Seq<u8>, i: int)
    requires
        0 <= i < s.len(),
        s.last() == 10,
    ensures
        newline_at_or_after(s + t, i) == newline_at_or_after(s, i),
        newline_at_or_after(s, i) < s.len(),
    decreases s.len() - i,
{
    if s[i] != 10 {
        assert((s + t)[i] == s[i]);
        lemma_newline_in_prefix(s, t, i + 1);
    } else {
        assert((s + t)[i] == s[i]);
    }
}

proof fn lemma_lines_split(s: Seq<u8>, t: Seq<u8>, start: int)
    requires
        0 <= start <= s.len(),
        start == s.len() || s.last() == 10,
    ensures
        lines_from(s + t, start) == lines_from(s, start) + lines_from(s + t, s.len() as int),
    decreases s.len() - start,
{
    if start == s.len() {
        assert(lines_from(s, start) =~= seq![]);
        assert(lines_from(s + t, start) =~= lines_from(s, start) + lines_from(
            s + t,
            s.len() as int,
        ));
    } else {
        lemma_newline_in_prefix(s, t, start);
        lemma_newline_bounds(s, start);
        let e = newline_at_or_after(s, start);
        lemma_lines_split(s, t, e + 1);
        assert((s + t).subrange(start, e) =~= s.subrange(start, e));
        assert(lines_from(s + t, start) =~= lines_from(s, start) + lines_from(
            s + t,
            s.len() as int,
        ));
    }
}

proof fn lemma_run_concat(
    world: Option<(Seq<char>, Seq<char>)>,
    a: Seq<Seq<u8>>,
    b: Seq<Seq<u8>>,
)
    ensures
        log_lines_run(world, a + b) == (
            log_lines_run(log_lines_run(world, a).0, b).0,
            log_lines_run(world, a).1 + log_lines_run(log_lines_run(world, a).0, b).1,
        ),
    decreases b.len(),
{
    let first = log_lines_run(world, a);
    if b.len() == 0 {
        assert(a + b =~= a);
        assert(first.1 + seq![] =~= first.1);
    } else {
        lemma_run_concat(world, a, b.drop_last());
        assert((a + b).drop_last() =~= a + b.drop_last());
        assert((a + b).last() == b.last());
        let mid = log_lines_run(first.0, b.drop_last());
        let step = log_line_step(mid.0, b.last());
        match step.1 {
            Some(e) => {
                assert((first.1 + mid.1).push(e) =~= first.1 + mid.1.push(e));
            },
            None => {},
        }
    }
}

/// Polling a growing log gives what one read of the whole log gives: when the
/// first poll saw the file up to the end of a line, the events of the first
/// poll followed by those of the second (which starts where the first stopped)
/// are the events of reading everything at once, and the world ends the same.
pub proof fn lemma_incremental_reading(
    world: Option<(Seq<char>, Seq<char>)>,
    first_part: Seq<u8>,
    rest: Seq<u8>,
)
    requires
        first_part.len() == 0 || first_part.last() == 10,
    ensures
        ({
            let whole = log_lines_run(world, lines_from(first_part + rest, 0));
            let first = log_lines_run(world, lines_from(first_part, 0));
            let second = log_lines_run(
                first.0,
                lines_from(first_part + rest, first_part.len() as int),
            );
            whole == (second.0, first.1 + second.1)
        }),
{
    lemma_lines_split(first_part, rest, 0);
    lemma_run_concat(
        world,
        lines_from(first_part, 0),
        lines_from(first_part + rest, first_part.len() as int),
    );
}

/// Leaving a world reports the world that was current, and only if there was one;
/// afterwards no world is current.  Joining makes the joined world current.
pub proof fn lemma_step_tracks_world(world: Option<(Seq<char>, Seq<char>)>, line: Seq<u8>)
    ensures
        log_line_step(world, line).1 matches Some(LogEventView::Left { world_id, instance_id })
            ==> world == Some((world_id, instance_id)) && log_line_step(world, line).0 is None,
        log_line_step(world, line).1 matches Some(LogEventView::Joined { world_id, instance_id })
            ==> log_line_step(world, line).0 == Some((world_id, instance_id)),
        log_line_step(world, line).1 is None ==> log_line_step(world, line).0 == world
            || log_line_step(world, line).0 is None,
{
}

/// The joins among `events`, in order, as (world, instance).
pub open spec fn joins_reported(events: Seq<LogEventView>) -> Seq<(Seq<char>, Seq<char>)>
    decreases events.len(),
{
    if events.len() == 0 {
        seq![]
    } else {
        let before = joins_reported(events.drop_last());
        match events.last() {
            LogEventView::Joined { world_id, instance_id } => before.push((world_id, instance_id)),
            LogEventView::Left { .. } => before,
        }
    }
}

/// The joins the join pattern found, line by line, in order.
pub open spec fn joins_found(found: Seq<(Option<(Seq<char>, Seq<char>)>, bool)>) -> Seq<
    (Seq<char>, Seq<char>),
>
    decreases found.len(),
{
    if found.len() == 0 {
        seq![]
    } else {
        let before = joins_found(found.drop_last());
        match found.last().0 {
            Some(j) => before.push(j),
            None => before,
        }
    }
}

/// A line on which the join pattern finds a world and instance makes that pair
/// the current world and reports exactly that join, whatever world was current
/// before (the same world in another instance too), and whether or not the
/// leave pattern also matches.
pub proof fn lemma_join_line_reported(
    world: Option<(Seq<char>, Seq<char>)>,
    joined: (Seq<char>, Seq<char>),
    leaves: bool,
)
    ensures
        line_step(world, Some(joined), leaves) == (
            Some(joined),
            Some(LogEventView::Joined { world_id: joined.0, instance_id: joined.1 }),
        ),
{
}

/// Every join found is reported once, in order: the joins among the events of
/// a run are exactly the joins the pattern found on its lines; and after a line
/// with a join, the joined world and instance are current.
pub proof fn lemma_every_join_reported(
    world: Option<(Seq<char>, Seq<char>)>,
    found: Seq<(Option<(Seq<char>, Seq<char>)>, bool)>,
)
    ensures
        joins_reported(line_steps_run(world, found).1) == joins_found(found),
        found.len() > 0 && found.last().0 is Some ==> line_steps_run(world, found).0
            == found.last().0,
    decreases found.len(),
{
    if found.len() > 0 {
        lemma_every_join_reported(world, found.drop_last());
        let before = line_steps_run(world, found.drop_last());
        let step = line_step(before.0, found.last().0, found.last().1);
        match step.1 {
            Some(e) => {
                assert(before.1.push(e).drop_last() =~= before.1);
            },
            None => {},
        }
    }
}

/// The same for the lines of a log: the joins reported are exactly the joins
/// the pattern finds on the lines, in order, one for each.
pub proof fn lemma_every_logged_join_reported(
    world: Option<(Seq<char>, Seq<char>)>,
    lines: Seq<Seq<u8>>,
)
    ensures
        joins_reported(log_lines_run(world, lines).1) == joins_found(
            lines.map_values(|l: Seq<u8>| found_on_line(l)),
        ),
{
    lemma_run_is_found_run(world, lines);
    lemma_every_join_reported(world, lines.map_values(|l: Seq<u8>| found_on_line(l)));
}

/// Nothing written is left out: after text that ends with a newline (or from
/// where reading starts, with nothing before), a last piece without a newline
/// is one more line, exactly as written (as `str::lines` gives a final line
/// with no terminator).
pub proof fn lemma_unterminated_last_line(done: Seq<u8>, tail: Seq<u8>, start: int)
    requires
        0 <= start <= done.len(),
        start == done.len() || done.last() == 10,
        tail.len() > 0,
        forall|k: int| 0 <= k < tail.len() ==> tail[k] != 10,
    ensures
        lines_from(done + tail, start) == lines_from(done, start).push(tail),
{
    let s = done + tail;
    lemma_lines_split(done, tail, start);
    lemma_newline_bounds(s, done.len() as int);
    let e = newline_at_or_after(s, done.len() as int);
    if e < s.len() {
        assert(s[e] == tail[e - done.len()]);
    }
    assert(s.subrange(done.len() as int, s.len() as int) =~= tail);
    assert(lines_from(s, done.len() as int) == seq![tail]);
    assert(lines_from(done, start) + seq![tail] =~= lines_from(done, start).push(tail));
}

// ------------------------------------------------------------------
// Choosing the log file
// ------------------------------------------------------------------

/// A file of the log directory: its name and its modification time
/// (nanoseconds from the Unix epoch, negative before it).
pub struct LogFileEntry {
    pub name: String,
    pub modified: i128,
}

/// VRChat names its logs `output_log_*.txt`.
pub open spec fn is_log_file_name_spec(name: Seq<u8>) -> bool {
    let prefix = "output_log_".spec_bytes();
    let suffix = ".txt".spec_bytes();
    &&& prefix.len() <= name.len()
    &&& name.subrange(0, prefix.len() as int) == prefix
    &&& suffix.len() <= name.len()
    &&& name.subrange(name.len() - suffix.len(), name.len() as int) == suffix
}

/// Whether a file name is that of a VRChat log (`output_log_*.txt`).
pub fn is_log_file_name(name: &str) -> (r: bool)
    ensures
        r == is_log_file_name_spec(name.spec_bytes()),
{
    let n = name.as_bytes();
    let prefix = "output_log_".as_bytes();
    let suffix = ".txt".as_bytes();
    if prefix.len() > n.len() || suffix.len() > n.len() {
        return false;
    }
    bytes_match_at(n, 0, prefix) && bytes_match_at(n, n.len() - suffix.len(), suffix)
}

/// The entry the log would be read from: among the log files, the one modified
/// last; of several with that time, the one listed last.
pub open spec fn is_latest_log(entries: Seq<LogFileEntry>, i: int) -> bool {
    &&& 0 <= i < entries.len()
    &&& is_log_file_name_spec(encode_utf8(entries[i].name@))
    &&& forall|j: int|
        0 <= j < entries.len() && is_log_file_name_spec(encode_utf8(entries[j].name@))
            ==> entries[j].modified <= entries[i].modified
    &&& forall|j: int|
        i < j < entries.len() && is_log_file_name_spec(encode_utf8(entries[j].name@))
            ==> entries[j].modified < entries[i].modified
}

/// Picks the newest log file among the entries of the log directory
/// (the entries sorted stably by modification time, then the last log file).
pub fn select_latest_log(entries: &Vec<LogFileEntry>) -> (r: Option<usize>)
    ensures
        match r {
            Some(i) => is_latest_log(entries@, i as int),
            None => forall|j: int|
                0 <= j < entries@.len() ==> !is_log_file_name_spec(
                    encode_utf8((#[trigger] entries@[j]).name@),
                ),
        },
{
    let mut best: Option<usize> = None;
    let mut j: usize = 0;
    while j < entries.len()
        invariant
            j <= entries@.len(),
            match best {
                Some(b) => b < j && is_log_file_name_spec(encode_utf8(entries@[b as int].name@))
                    && (forall|k: int|
                    0 <= k < j && is_log_file_name_spec(encode_utf8(entries@[k].name@))
                        ==> entries@[k].modified <= entries@[b as int].modified) && (forall|k: int|
                    b < k < j && is_log_file_name_spec(encode_utf8(entries@[k].name@))
                        ==> entries@[k].modified < entries@[b as int].modified),
                None => forall|k: int|
                    0 <= k < j ==> !is_log_file_name_spec(
                        encode_utf8((#[trigger] entries@[k]).name@),
                    ),
            },
        decreases entries@.len() - j,
    {
        let e = &entries[j];
        if is_log_file_name(e.name.as_str()) {
            match best {
                Some(b) => {
                    if e.modified >= entries[b].modified {
                        best = Some(j);
                    }
                },
                None => {
                    best = Some(j);
                },
            }
        }
        j = j + 1;
    }
    best
}

// ------------------------------------------------------------------
// The parser
// ------------------------------------------------------------------

/// State of the log reader: which file it follows, how far it has read it and
/// which world the player is in.
pub struct VRChatLogParser {
    /// Directory holding VRChat's logs.
    pub log_dir: String,
    /// The world the player is in, as (world id, instance id).
    pub current_world: Option<(String, String)>,
    /// Bytes of the current log file already handled.
    pub last_position: u64,
    /// The log file being followed.
    pub current_log_file: Option<String>,
}

impl VRChatLogParser {
    /// A parser for the logs in `log_dir`, following no file yet.
    pub fn new(log_dir: String) -> (p: Self)
        ensures
            p.log_dir@ == log_dir@,
            p.current_world is None,
            p.last_position == 0,
            p.current_log_file is None,
    {
        VRChatLogParser { log_dir, current_world: None, last_position: 0, current_log_file: None }
    }

    /// Follows `log_file` from now on; a file other than the current one is read
    /// from its start.
    pub fn switch_log_file(&mut self, log_file: String)
        ensures
            final(self).log_dir == old(self).log_dir,
            final(self).current_world == old(self).current_world,
            match old(self).current_log_file {
                Some(f) if f@ == log_file@ => final(self).current_log_file == old(
                    self,
                ).current_log_file && final(self).last_position == old(self).last_position,
                _ => final(self).current_log_file matches Some(f) && f@ == log_file@
                    && final(self).last_position == 0,
            },
    {
        let same = match &self.current_log_file {
            Some(f) => str_eq(f.as_str(), log_file.as_str()),
            None => false,
        };
        if !same {
            self.current_log_file = Some(log_file);
            self.last_position = 0;
        }
    }

    /// Handles the lines of the current log file that follow the part already
    /// read (`content` is the whole file) and returns their world events.
    /// Nothing happens when there is nothing new.
    pub fn parse_content(&mut self, content: &str) -> (events: Vec<LogEvent>)
        requires
            old(self).last_position >= content.spec_bytes().len() || is_char_boundary(
                content.spec_bytes(),
                old(self).last_position as int,
            ),
        ensures
            final(self).log_dir == old(self).log_dir,
            final(self).current_log_file == old(self).current_log_file,
            old(self).last_position >= content.spec_bytes().len() ==> {
                &&& final(self).current_world == old(self).current_world
                &&& final(self).last_position == old(self).last_position
                &&& events@.len() == 0
            },
            old(self).last_position < content.spec_bytes().len() ==> {
                let run = log_lines_run(
                    world_view(old(self).current_world),
                    lines_from(content.spec_bytes(), old(self).last_position as int),
                );
                &&& final(self).last_position == content.spec_bytes().len()
                &&& world_view(final(self).current_world) == run.0
                &&& events_view(events@) == run.1
            },
    {
        let bytes = content.as_bytes();
        let len = bytes.len();
        if self.last_position >= len as u64 {
            return Vec::new();
        }
        let start = self.last_position as usize;
        self.last_position = len as u64;
        let lines = split_lines(bytes, start);
        let groups = regex_two_groups_each(WORLD_JOIN_PATTERN, &lines);
        let leaves = regex_is_match_each(WORLD_LEAVE_PATTERN, &lines);
        let mut joins: Vec<Option<(String, String)>> = Vec::new();
        let mut i: usize = 0;
        while i < groups.len()
            invariant
                i <= groups@.len(),
                joins@.len() == i,
                groups@.len() == lines@.len(),
                forall|k: int|
                    0 <= k < groups@.len() ==> match #[trigger] groups@[k] {
                        Some(p) => regex_two_groups_of(WORLD_JOIN_PATTERN@, lines@[k]@) == Some(
                            (p.0@, p.1@),
                        ),
                        None => regex_two_groups_of(WORLD_JOIN_PATTERN@, lines@[k]@) is None,
                    },
                forall|k: int|
                    0 <= k < i ==> #[trigger] world_view(joins@[k]) == join_on_line(lines@[k]@),
            decreases groups@.len() - i,
        {
            match &groups[i] {
                Some(g) => {
                    joins.push(Some((utf8_lossy(g.0.as_slice()), utf8_lossy(g.1.as_slice()))));
                },
                None => {
                    joins.push(None);
                },
            }
            i = i + 1;
        }
        let ghost found = lines.deep_view().map_values(|l: Seq<u8>| found_on_line(l));
        let ghost given = Seq::new(
            joins@.len(),
            |k: int| (world_view(joins@[k]), leaves@[k]),
        );
        assert forall|k: int| 0 <= k < given.len() implies given[k] == found[k] by {
            assert(lines.deep_view()[k] == lines@[k]@);
            assert(leaves@[k] == regex_is_match_of(WORLD_LEAVE_PATTERN@, lines@[k]@));
            assert(world_view(joins@[k]) == join_on_line(lines@[k]@));
        }
        assert(given =~= found);
        proof {
            lemma_run_is_found_run(world_view(self.current_world), lines.deep_view());
        }
        self.handle_line_matches(&joins, &leaves)
    }

    /// Handles lines on which the patterns found `joins` (the world joined, as
    /// text, or none) and `leaves` (the leave pattern matched), line by line,
    /// and returns their world events.
    pub fn handle_line_matches(
        &mut self,
        joins: &Vec<Option<(String, String)>>,
        leaves: &Vec<bool>,
    ) -> (events: Vec<LogEvent>)
        requires
            joins@.len() == leaves@.len(),
        ensures
            final(self).log_dir == old(self).log_dir,
            final(self).current_log_file == old(self).current_log_file,
            final(self).last_position == old(self).last_position,
            ({
                let run = line_steps_run(
                    world_view(old(self).current_world),
                    Seq::new(joins@.len(), |k: int| (world_view(joins@[k]), leaves@[k])),
                );
                &&& world_view(final(self).current_world) == run.0
                &&& events_view(events@) == run.1
            }),
    {
        let ghost all = Seq::new(joins@.len(), |k: int| (world_view(joins@[k]), leaves@[k]));
        let ghost world0 = world_view(self.current_world);
        let mut events: Vec<LogEvent> = Vec::new();
        let mut i: usize = 0;
        while i < joins.len()
            invariant
                i <= joins@.len(),
                joins@.len() == leaves@.len(),
                all == Seq::new(joins@.len(), |k: int| (world_view(joins@[k]), leaves@[k])),
                line_steps_run(world0, all.take(i as int)) == (
                    world_view(self.current_world),
                    events_view(events@),
                ),
                self.log_dir == old(self).log_dir,
                self.current_log_file == old(self).current_log_file,
                self.last_position == old(self).last_position,
            decreases joins@.len() - i,
        {
            let ghost prev_events = events@;
            let ghost prev_world = world_view(self.current_world);
            assert(all.take(i + 1).drop_last() =~= all.take(i as int));
            assert(all.take(i + 1).last() == all[i as int]);
            match &joins[i] {
                Some(j) => {
                    self.current_world = Some((j.0.clone(), j.1.clone()));
                    events.push(LogEvent::WorldJoined { world_id: j.0.clone(), instance_id: j.1.clone() });
                },
                None => {
                    if leaves[i] {
                        let previous = self.current_world.take();
                        match previous {
                            Some(w) => {
                                events.push(
                                    LogEvent::WorldLeft { world_id: w.0, instance_id: w.1 },
                                );
                            },
                            None => {},
                        }
                    }
                },
            }
            assert(events_view(events@) =~= match line_step(prev_world, all[i as int].0, all[i as int].1).1 {
                Some(e) => events_view(prev_events).push(e),
                None => events_view(prev_events),
            });
            i = i + 1;
        }
        assert(all.take(joins@.len() as int) =~= all);
        events
    }
}

} // verus!
