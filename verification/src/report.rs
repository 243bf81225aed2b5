//! What a run says of itself, and how long it waits: the status line, the
//! report of each second, the closing summary, and the pause that keeps the
//! average throughput under its limit.
//!
//! Time is handed in as nanoseconds; the engine reads no clock.

use crate::bitmap::{drawn_bits, grid, shown_bits};
use crate::config::{RandomDd, StatusLevel};
use crate::engine::{Engine, EngineState};
use crate::format::{size_text, speed_text, throughput_of};
use crate::text::{decimal_digits, push_decimal};
use vstd::prelude::*;
use vstd::string::*;

verus! {

/// The nanoseconds in a second.
pub const NANOS_PER_SEC: u128 = 1_000_000_000;

/// The time between two status lines, in nanoseconds: a tenth of a second.
pub const STATUS_INTERVAL_NANOS: u128 = 100_000_000;

/// A time to wait: whole seconds and the nanoseconds beyond them.
#[derive(Debug, Clone, Copy, PartialEq, Eq, Structural)]
pub struct Pause {
    pub secs: u64,
    pub nanos: u32,
}

impl Pause {
    /// The pause in nanoseconds.
    pub open spec fn total_nanos(self) -> nat {
        (self.secs * 1_000_000_000 + self.nanos) as nat
    }
}

/// The longest pause there is, in nanoseconds.
pub open spec fn longest_pause() -> nat {
    (u64::MAX * 1_000_000_000 + 999_999_999) as nat
}

impl EngineState {
    /// The nanoseconds to wait after a block of `chunk` bytes, when
    /// `elapsed_nanos` have passed since the run began.
    ///
    /// With a throughput limit, as many blocks of `chunk` bytes as were
    /// written should have taken their bytes divided by the limit. The
    /// pause is what is missing to that, in whole nanoseconds and up to the
    /// longest pause; a limit of zero makes it the longest. Without a limit,
    /// or with nothing written, there is none.
    pub open spec fn pause_nanos(self, chunk: u64, elapsed_nanos: u128) -> nat {
        let bytes = self.blocks_processed * chunk;
        match self.speed_limit {
            None => 0,
            Some(limit) => if bytes == 0 {
                0
            } else if limit == 0 {
                longest_pause()
            } else {
                let due = bytes * 1_000_000_000 / (limit as int);
                if due <= elapsed_nanos {
                    0
                } else if due - elapsed_nanos > longest_pause() {
                    longest_pause()
                } else {
                    (due - elapsed_nanos) as nat
                }
            },
        }
    }

    /// The average throughput so far, in bytes per second.
    pub open spec fn average_speed(self, elapsed_nanos: u128) -> u64 {
        throughput_of(self.bytes_copied, elapsed_nanos)
    }

    /// The total and the average throughput, with `, ` between them.
    pub open spec fn totals(self, elapsed_nanos: u128) -> Seq<char> {
        size_text(self.bytes_copied) + ", "@ + speed_text(self.average_speed(elapsed_nanos))
    }

    /// The coverage bitmap as it is drawn: its first 512 bits at most.
    pub open spec fn drawing(self) -> Seq<char> {
        grid(self.bitarray, drawn_bits(self.bitarray, shown_bits(self.bitarray_size)))
    }

    /// The status line that is due after a block, if one is: the running
    /// total, at the `Noxfer` level and no sooner than a tenth of a second
    /// after the last one.
    pub open spec fn status_line(self, since_last_nanos: u128) -> Option<Seq<char>> {
        if self.status_level == StatusLevel::Noxfer && since_last_nanos >= STATUS_INTERVAL_NANOS {
            Some("\r"@ + size_text(self.bytes_copied))
        } else {
            None
        }
    }

    /// Whether the run reports once a second while it copies.
    pub open spec fn reports_progress(self) -> bool {
        self.status_level == StatusLevel::Progress || self.status_level == StatusLevel::BitArray
    }

    /// The report of one second, if the run makes one: the bitmap with the
    /// totals below it where a bitmap is kept, else a line of totals that
    /// overwrites the last one.
    pub open spec fn progress_report(self, elapsed_nanos: u128) -> Option<Seq<char>> {
        if !self.reports_progress() {
            None
        } else if self.bitarray.len() > 0 {
            Some("\r"@ + self.drawing() + "\n"@ + self.totals(elapsed_nanos) + "\n"@)
        } else {
            Some("\r"@ + self.totals(elapsed_nanos) + "\x1b[0K"@)
        }
    }

    /// The announcement of the bitmap at the start of a run that keeps one.
    pub open spec fn bitmap_banner(self) -> Option<Seq<char>> {
        if self.status_level == StatusLevel::BitArray {
            Some(
                "Bitarray size: "@ + decimal_digits(self.bitarray_size as nat) + " bits ("@
                    + decimal_digits(self.bitarray.len()) + " bytes)\n"@,
            )
        } else {
            None
        }
    }

    /// What stands before the totals in the closing summary: at the
    /// `Noxfer` level a line break that ends the status line, and where a
    /// bitmap is kept, its last state.
    pub open spec fn summary_head(self) -> Seq<char> {
        if self.status_level == StatusLevel::Noxfer {
            "\n"@
        } else if self.status_level == StatusLevel::BitArray {
            "\nFinal bitarray state:\n"@ + self.drawing() + "\n\n"@
        } else {
            Seq::empty()
        }
    }

    /// The closing summary, if the run makes one: its head, then the bytes
    /// copied, the average throughput and the number of blocks.
    pub open spec fn summary(self, elapsed_nanos: u128) -> Option<Seq<char>> {
        if self.status_level == StatusLevel::Quiet {
            None
        } else {
            Some(
                self.summary_head() + size_text(self.bytes_copied) + " copied, "@ + speed_text(
                    self.average_speed(elapsed_nanos),
                ) + ", "@ + decimal_digits(self.blocks_processed as nat) + " blocks\n"@,
            )
        }
    }
}

fn longest() -> (pause: Pause)
    ensures
        pause.total_nanos() == longest_pause(),
        pause.nanos < 1_000_000_000,
{
    Pause { secs: u64::MAX, nanos: 999_999_999 }
}

/// The time that `bytes` bytes take at `limit` bytes per second, in whole
/// seconds and the whole nanoseconds beyond them.
fn due_time(bytes: u128, limit: u64) -> (due: (u128, u128))
    requires
        limit > 0,
    ensures
        due.0 * 1_000_000_000 + due.1 == bytes * 1_000_000_000 / (limit as int),
        due.1 < 1_000_000_000,
{
    let secs = bytes / (limit as u128);
    let rest = bytes % (limit as u128);
    assert(rest * 1_000_000_000 <= u64::MAX * 1_000_000_000) by (nonlinear_arith)
        requires
            rest <= u64::MAX,
    ;
    let nanos = rest * 1_000_000_000 / (limit as u128);
    proof {
        let l = limit as int;
        assert(bytes == secs * l + rest) by {
            vstd::arithmetic::div_mod::lemma_fundamental_div_mod(bytes as int, l);
            assert(l * secs == secs * l) by (nonlinear_arith);
        }
        assert(bytes * 1_000_000_000 == rest * 1_000_000_000 + (secs * 1_000_000_000) * l)
            by (nonlinear_arith)
            requires
                bytes == secs * l + rest,
        ;
        vstd::arithmetic::div_mod::lemma_hoist_over_denominator(
            rest * 1_000_000_000,
            secs * 1_000_000_000,
            l as nat,
        );
        assert(nanos < 1_000_000_000) by (nonlinear_arith)
            requires
                nanos == rest * 1_000_000_000 / l,
                0 <= rest < l,
        ;
    }
    (secs, nanos)
}

impl Engine {
    /// How long to wait after a block of `chunk` bytes so that the average
    /// throughput stays under the limit, when `elapsed_nanos` nanoseconds
    /// have passed since the run began.
    pub fn throttle_pause(&self, chunk: u64, elapsed_nanos: u128) -> (pause: Pause)
        ensures
            pause.total_nanos() == self@.pause_nanos(chunk, elapsed_nanos),
            pause.nanos < 1_000_000_000,
    {
        let none = Pause { secs: 0, nanos: 0 };
        let limit = match self.speed_limit() {
            None => {
                return none;
            },
            Some(limit) => limit,
        };
        let blocks = self.blocks_processed();
        assert(blocks * chunk <= u64::MAX * u64::MAX) by (nonlinear_arith)
            requires
                0 <= blocks <= u64::MAX,
                0 <= chunk <= u64::MAX,
        ;
        let bytes: u128 = (blocks as u128) * (chunk as u128);
        if bytes == 0 {
            return none;
        }
        if limit == 0 {
            return longest();
        }
        let (due_secs, due_nanos) = due_time(bytes, limit);
        let past_secs = elapsed_nanos / NANOS_PER_SEC;
        let past_nanos = elapsed_nanos % NANOS_PER_SEC;
        if due_secs < past_secs || (due_secs == past_secs && due_nanos <= past_nanos) {
            return none;
        }
        let (secs, nanos) = if due_nanos >= past_nanos {
            (due_secs - past_secs, due_nanos - past_nanos)
        } else {
            (due_secs - past_secs - 1, due_nanos + NANOS_PER_SEC - past_nanos)
        };
        if secs > u64::MAX as u128 {
            longest()
        } else {
            Pause { secs: secs as u64, nanos: nanos as u32 }
        }
    }

    /// The average throughput so far, in bytes per second, when
    /// `elapsed_nanos` nanoseconds have passed since the run began.
    pub fn average_speed(&self, elapsed_nanos: u128) -> (bytes_per_sec: u64)
        ensures
            bytes_per_sec == self@.average_speed(elapsed_nanos),
    {
        RandomDd::throughput(self.bytes_copied(), elapsed_nanos)
    }

    fn push_totals(&self, text: &mut String, elapsed_nanos: u128)
        ensures
            final(text)@ == old(text)@ + self@.totals(elapsed_nanos),
    {
        let size = RandomDd::format_size(self.bytes_copied());
        let speed = RandomDd::format_speed(self.average_speed(elapsed_nanos));
        text.append(size.as_str());
        text.append(", ");
        text.append(speed.as_str());
        assert(text@ =~= old(text)@ + self@.totals(elapsed_nanos));
    }

    /// Draws the coverage bitmap, its first 512 bits at most.
    pub fn drawing(&self) -> (text: String)
        ensures
            text@ == self@.drawing(),
    {
        let width = RandomDd::display_width(self.bitarray_size());
        RandomDd::visualize_bitarray(self.bitarray(), width)
    }

    /// The status line that is due after a block, if one is;
    /// `since_last_nanos` is the time since the last one.
    pub fn status_line(&self, since_last_nanos: u128) -> (line: Option<String>)
        ensures
            match line {
                Some(text) => self@.status_line(since_last_nanos) == Some(text@),
                None => self@.status_line(since_last_nanos) is None,
            },
    {
        if self.status_level() == StatusLevel::Noxfer && since_last_nanos
            >= STATUS_INTERVAL_NANOS {
            let mut text = String::from_str("\r");
            text.append(RandomDd::format_size(self.bytes_copied()).as_str());
            Some(text)
        } else {
            None
        }
    }

    /// Whether the run reports once a second while it copies.
    pub fn reports_progress(&self) -> (reports: bool)
        ensures
            reports == self@.reports_progress(),
    {
        self.status_level() == StatusLevel::Progress || self.status_level()
            == StatusLevel::BitArray
    }

    /// The report of one second, if the run makes one; `elapsed_nanos` is
    /// the time since the run began.
    pub fn progress_report(&self, elapsed_nanos: u128) -> (report: Option<String>)
        ensures
            match report {
                Some(text) => self@.progress_report(elapsed_nanos) == Some(text@),
                None => self@.progress_report(elapsed_nanos) is None,
            },
    {
        if !self.reports_progress() {
            return None;
        }
        let mut text = String::from_str("\r");
        if self.bitarray().len() > 0 {
            text.append(self.drawing().as_str());
            text.append("\n");
            self.push_totals(&mut text, elapsed_nanos);
            text.append("\n");
            assert(text@ =~= "\r"@ + self@.drawing() + "\n"@ + self@.totals(elapsed_nanos) + "\n"@);
        } else {
            self.push_totals(&mut text, elapsed_nanos);
            text.append("\x1b[0K");
            assert(text@ =~= "\r"@ + self@.totals(elapsed_nanos) + "\x1b[0K"@);
        }
        Some(text)
    }

    /// The announcement of the bitmap at the start of a run that keeps one.
    pub fn bitmap_banner(&self) -> (banner: Option<String>)
        ensures
            match banner {
                Some(text) => self@.bitmap_banner() == Some(text@),
                None => self@.bitmap_banner() is None,
            },
    {
        if self.status_level() != StatusLevel::BitArray {
            return None;
        }
        let mut text = String::from_str("Bitarray size: ");
        push_decimal(&mut text, self.bitarray_size());
        text.append(" bits (");
        push_decimal(&mut text, self.bitarray().len() as u64);
        text.append(" bytes)\n");
        Some(text)
    }

    /// The closing summary, if the run makes one; `elapsed_nanos` is the
    /// time since the run began.
    pub fn summary(&self, elapsed_nanos: u128) -> (summary: Option<String>)
        ensures
            match summary {
                Some(text) => self@.summary(elapsed_nanos) == Some(text@),
                None => self@.summary(elapsed_nanos) is None,
            },
    {
        let level = self.status_level();
        if level == StatusLevel::Quiet {
            return None;
        }
        let mut text = String::new();
        if level == StatusLevel::Noxfer {
            text.append("\n");
        } else if level == StatusLevel::BitArray {
            text.append("\nFinal bitarray state:\n");
            text.append(self.drawing().as_str());
            text.append("\n\n");
        }
        assert(text@ =~= self@.summary_head());
        text.append(RandomDd::format_size(self.bytes_copied()).as_str());
        text.append(" copied, ");
        text.append(RandomDd::format_speed(self.average_speed(elapsed_nanos)).as_str());
        text.append(", ");
        push_decimal(&mut text, self.blocks_processed());
        text.append(" blocks\n");
        Some(text)
    }
}

} // verus!
