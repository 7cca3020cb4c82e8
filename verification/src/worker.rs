//! Decisions of the background worker and of screenshot handling.

use vstd::prelude::*;
use vstd::string::{StrSliceExecFns, StringSliceAdditionalSpecFns};
use crate::text::bytes_match_at;

verus! {

// ------------------------------------------------------------------
// Periodic server check
// ------------------------------------------------------------------

/// The worker runs once a second; the server is checked every 600 runs.
pub const HEALTH_INTERVAL: u64 = 600;

/// Counts the worker's runs between two server checks.
pub struct HealthTimer {
    pub counter: u64,
}

impl HealthTimer {
    pub fn new() -> (t: Self)
        ensures
            t.counter == 0,
    {
        HealthTimer { counter: 0 }
    }

    /// Counts one run; true when the server is due for a check (the count then
    /// starts over).
    pub fn tick(&mut self) -> (due: bool)
        requires
            old(self).counter < 600,
        ensures
            due == (old(self).counter + 1 >= 600),
            final(self).counter == (if due {
                0
            } else {
                old(self).counter + 1
            }),
            final(self).counter < 600,
    {
        self.counter = self.counter + 1;
        if self.counter >= HEALTH_INTERVAL {
            self.counter = 0;
            true
        } else {
            false
        }
    }
}

/// The timer's count after `n` runs from a fresh timer.
pub open spec fn health_counter_after(n: nat) -> nat
    decreases n,
{
    if n == 0 {
        0
    } else {
        let c = health_counter_after((n - 1) as nat);
        if c + 1 >= 600 {
            0
        } else {
            (c + 1) as nat
        }
    }
}

/// From a fresh timer, run `n` finds the server due exactly when `n` is a
/// multiple of 600: the check happens every ten minutes.
pub proof fn lemma_health_period(n: nat)
    requires
        n > 0,
    ensures
        health_counter_after(n) == n % 600,
        (health_counter_after((n - 1) as nat) + 1 >= 600) <==> n % 600 == 0,
    decreases n,
{
    if n == 1 {
        assert(health_counter_after(0) == 0);
        assert(health_counter_after(1) == 1);
    } else {
        lemma_health_period((n - 1) as nat);
        let m = (n - 1) as nat;
        assert(health_counter_after(m) == m % 600);
        assert(m % 600 == 599 ==> n % 600 == 0) by (nonlinear_arith)
            requires
                n == m + 1,
        ;
        assert(m % 600 < 599 ==> n % 600 == m % 600 + 1) by (nonlinear_arith)
            requires
                n == m + 1,
        ;
    }
}

// ------------------------------------------------------------------
// Screenshots
// ------------------------------------------------------------------

/// What happens to a new screenshot.
#[derive(Debug, Clone, Copy, PartialEq, Eq)]
pub enum ScreenshotAction {
    /// No user is logged in: only a status message.
    NotLoggedIn,
    /// Automatic upload is off: nothing.
    Ignore,
    /// Convert and upload (or queue).
    Upload,
}

/// Decides what to do with a new screenshot.
pub fn screenshot_action(logged_in: bool, auto_upload: bool) -> (r: ScreenshotAction)
    ensures
        !logged_in ==> r == ScreenshotAction::NotLoggedIn,
        logged_in && !auto_upload ==> r == ScreenshotAction::Ignore,
        logged_in && auto_upload ==> r == ScreenshotAction::Upload,
{
    if !logged_in {
        ScreenshotAction::NotLoggedIn
    } else if !auto_upload {
        ScreenshotAction::Ignore
    } else {
        ScreenshotAction::Upload
    }
}

/// Whether `needle` occurs in `hay` starting at byte `i`.
pub open spec fn occurs_at(hay: Seq<u8>, needle: Seq<u8>, i: int) -> bool {
    0 <= i && i + needle.len() <= hay.len() && hay.subrange(i, i + needle.len()) == needle
}

/// A new file is taken as a screenshot when its name ends with `.png` and does
/// not contain `_debug_`.
pub open spec fn is_screenshot_name_spec(name: Seq<u8>) -> bool {
    &&& occurs_at(name, ".png".spec_bytes(), name.len() - ".png".spec_bytes().len())
    &&& !exists|i: int| occurs_at(name, "_debug_".spec_bytes(), i)
}

/// Whether a new file is a screenshot to upload (VRChat's debug images are not).
pub fn is_screenshot_name(name: &str) -> (r: bool)
    ensures
        r == is_screenshot_name_spec(name.spec_bytes()),
{
    let n = name.as_bytes();
    let png = ".png".as_bytes();
    let debug = "_debug_".as_bytes();
    if png.len() > n.len() || !bytes_match_at(n, n.len() - png.len(), png) {
        return false;
    }
    if debug.len() > n.len() {
        assert(!exists|i: int| occurs_at(n@, debug@, i));
        return true;
    }
    proof {
        reveal_strlit("_debug_");
        assert(vstd::string::is_ascii("_debug_"));
        vstd::string::is_ascii_spec_bytes("_debug_");
    }
    let last = n.len() - debug.len();
    let mut i: usize = 0;
    while i <= last
        invariant
            last == n@.len() - debug@.len(),
            debug@.len() <= n@.len(),
            n@.len() == n.len(),
            i <= last + 1,
            debug@.len() == 7,
            n@ == name.spec_bytes(),
            debug@ == "_debug_".spec_bytes(),
            forall|j: int| 0 <= j < i ==> !occurs_at(n@, debug@, j),
        decreases last + 1 - i,
    {
        if bytes_match_at(n, i, debug) {
            assert(occurs_at(name.spec_bytes(), "_debug_".spec_bytes(), i as int));
            return false;
        }
        i = i + 1;
    }
    assert forall|j: int| !occurs_at(n@, debug@, j) by {
        if 0 <= j && j + debug@.len() <= n@.len() {
            assert(j <= last);
        }
    }
    true
}

/// How a request to resend the queue begins.
#[derive(Debug, Clone, Copy, PartialEq, Eq)]
pub enum ResendStart {
    /// No user is logged in: report it and stop (unsuccessfully).
    NotLoggedIn,
    /// The queue is empty: report it and stop (successfully).
    NothingQueued,
    /// Check the server, then send.
    CheckServer,
}

/// Decides how a resend request begins.
pub fn resend_start(logged_in: bool, counts: &crate::offline_queue::QueueCounts) -> (r: ResendStart)
    ensures
        !logged_in ==> r == ResendStart::NotLoggedIn,
        logged_in && counts.photos == 0 && counts.worlds == 0 ==> r == ResendStart::NothingQueued,
        logged_in && (counts.photos > 0 || counts.worlds > 0) ==> r == ResendStart::CheckServer,
{
    if !logged_in {
        ResendStart::NotLoggedIn
    } else if counts.photos == 0 && counts.worlds == 0 {
        ResendStart::NothingQueued
    } else {
        ResendStart::CheckServer
    }
}

/// `s` with every `from` replaced by `to`, scanning from the left without
/// overlaps (as `str::replace` does).
pub open spec fn replace_all(s: Seq<char>, from: Seq<char>, to: Seq<char>) -> Seq<char>
    decreases s.len(),
{
    if s.len() == 0 {
        seq![]
    } else if from.len() > 0 && from.len() <= s.len() && s.take(from.len() as int) == from {
        to + replace_all(s.skip(from.len() as int), from, to)
    } else {
        seq![s[0]] + replace_all(s.skip(1), from, to)
    }
}

/// The name under which a screenshot is uploaded: `.png` becomes `.jpg`.
pub fn jpg_filename(name: &str) -> (r: String)
    ensures
        r@ == replace_all(name@, ".png"@, ".jpg"@),
{
    proof {
        reveal_strlit(".png");
    }
    let n = name.unicode_len();
    let mut out = String::new();
    let mut i: usize = 0;
    assert(name@.skip(0) =~= name@);
    while i < n
        invariant
            i <= n,
            n == name@.len(),
            ".png"@ == seq!['.', 'p', 'n', 'g'],
            out@ + replace_all(name@.skip(i as int), ".png"@, ".jpg"@) == replace_all(
                name@,
                ".png"@,
                ".jpg"@,
            ),
        decreases n - i,
    {
        let ghost rest = name@.skip(i as int);
        if n - i >= 4 && name.get_char(i) == '.' && name.get_char(i + 1) == 'p' && name.get_char(
            i + 2,
        ) == 'n' && name.get_char(i + 3) == 'g' {
            assert(rest.take(4) =~= ".png"@);
            assert(rest.skip(4) =~= name@.skip(i + 4));
            let ghost before = out@;
            out.append(".jpg");
            assert(out@ + replace_all(name@.skip(i + 4), ".png"@, ".jpg"@) =~= before + (".jpg"@
                + replace_all(rest.skip(4), ".png"@, ".jpg"@)));
            i = i + 4;
        } else {
            assert(!(4 <= rest.len() && rest.take(4) == ".png"@)) by {
                if 4 <= rest.len() && rest.take(4) == ".png"@ {
                    assert(rest.take(4)[0] == '.');
                    assert(rest.take(4)[1] == 'p');
                    assert(rest.take(4)[2] == 'n');
                    assert(rest.take(4)[3] == 'g');
                }
            }
            assert(rest.skip(1) =~= name@.skip(i + 1));
            let piece = name.substring_char(i, i + 1);
            assert(piece@ =~= seq![rest[0]]);
            let ghost before = out@;
            out.append(piece);
            assert(out@ + replace_all(name@.skip(i + 1), ".png"@, ".jpg"@) =~= before + (seq![
                rest[0],
            ] + replace_all(rest.skip(1), ".png"@, ".jpg"@)));
            i = i + 1;
        }
    }
    assert(out@ + replace_all(name@.skip(n as int), ".png"@, ".jpg"@) =~= out@);
    out
}

} // verus!
