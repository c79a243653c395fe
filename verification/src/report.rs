//! The decisions of the report: what to show first, and what each file, read
//! or not, does to the output and to the running totals.

use crate::config::Config;
use crate::render::{directory_text, directory_warning, header, header_text, row, row_text, total_label, usage, usage_text};
use crate::text::{byte_count, char_count, count_bytes, count_chars, count_lines, count_words, line_count, word_count};
use vstd::prelude::*;

verus! {

/// The counts of one file, or their sums over the files reported so far.
#[derive(Debug, Clone, Copy, PartialEq, Eq, Structural)]
pub struct Counts {
    /// Lines.
    pub lines: usize,
    /// Words.
    pub words: usize,
    /// Bytes or characters, whichever the run reports.
    pub bc: usize,
}

/// Why a file could not be read.
#[derive(Debug, Clone, Copy, PartialEq, Eq, Structural)]
pub enum ReadFailure {
    /// The path names a directory.
    IsDirectory,
    /// Nothing is at the path.
    NotFound,
    /// The file may not be read.
    PermissionDenied,
    /// Anything else.
    Other,
}

/// What a run shows before it looks at any file.
#[derive(Debug, Clone, Copy, PartialEq, Eq)]
pub enum Opening {
    /// The usage block; the run ends with it and touches no file.
    Usage(&'static str),
    /// The header; the files follow.
    Header(&'static str),
}

/// What one file adds to the report.
#[derive(Debug, PartialEq, Eq)]
pub enum Step {
    /// A row for the standard output; the file is in the totals.
    Row(String),
    /// A warning for the standard error; the file is passed over.
    Skipped(String),
    /// The run ends here with the failure of the read.
    Fatal,
}

impl ReadFailure {
    /// Whether the run goes on after this failure: only a directory is
    /// passed over.
    pub open spec fn is_skippable(self) -> bool {
        self == ReadFailure::IsDirectory
    }

    /// Whether the run goes on after this failure.
    pub fn skippable(&self) -> (r: bool)
        ensures
            r == self.is_skippable(),
    {
        match self {
            ReadFailure::IsDirectory => true,
            _ => false,
        }
    }
}

impl Counts {
    /// The fourth count of a text: its characters or its bytes.
    pub open spec fn metric_of(s: Seq<char>, chars: bool) -> nat {
        if chars {
            char_count(s)
        } else {
            byte_count(s)
        }
    }

    /// Whether these are the counts of the text `s`.
    pub open spec fn counts(self, s: Seq<char>, chars: bool) -> bool {
        &&& self.lines == line_count(s)
        &&& self.words == word_count(s)
        &&& self.bc == Self::metric_of(s, chars)
    }

    /// Whether `other` can be added without leaving the range of the counters.
    pub open spec fn has_room_for(self, other: Counts) -> bool {
        &&& self.lines + other.lines <= usize::MAX
        &&& self.words + other.words <= usize::MAX
        &&& self.bc + other.bc <= usize::MAX
    }

    /// The sums, field by field.
    pub open spec fn plus(self, other: Counts) -> Counts
        recommends
            self.has_room_for(other),
    {
        Counts {
            lines: (self.lines + other.lines) as usize,
            words: (self.words + other.words) as usize,
            bc: (self.bc + other.bc) as usize,
        }
    }

    /// The row that shows these counts beside `label`.
    pub open spec fn row_text(self, label: Seq<char>) -> Seq<char> {
        row_text(self.lines as nat, self.words as nat, self.bc as nat, label)
    }

    /// The totals before any file.
    pub open spec fn zero_counts() -> Counts {
        Counts { lines: 0, words: 0, bc: 0 }
    }

    /// The totals before any file.
    pub fn zero() -> (c: Counts)
        ensures
            c == Self::zero_counts(),
    {
        Counts { lines: 0, words: 0, bc: 0 }
    }

    /// The counts of one text.
    pub fn of(contents: &str, chars: bool) -> (c: Counts)
        ensures
            c.counts(contents@, chars),
    {
        Counts {
            lines: count_lines(contents),
            words: count_words(contents),
            bc: if chars {
                count_chars(contents)
            } else {
                count_bytes(contents)
            },
        }
    }

    /// Whether `other` can be added without leaving the range of the counters.
    pub fn room_for(&self, other: &Counts) -> (r: bool)
        ensures
            r == self.has_room_for(*other),
    {
        other.lines <= usize::MAX - self.lines && other.words <= usize::MAX - self.words
            && other.bc <= usize::MAX - self.bc
    }

    /// Adds `other` to these totals.
    pub fn add(&mut self, other: &Counts)
        requires
            old(self).has_room_for(*other),
        ensures
            *final(self) == old(self).plus(*other),
    {
        self.lines = self.lines + other.lines;
        self.words = self.words + other.words;
        self.bc = self.bc + other.bc;
    }

    /// The row that shows these counts beside `label`.
    pub fn row(&self, label: &str) -> (r: String)
        ensures
            r@ == self.row_text(label@),
    {
        row(self.lines, self.words, self.bc, label)
    }

    /// The last row of the report, for the totals.
    pub fn total_row(&self) -> (r: String)
        ensures
            r@ == self.row_text(total_label()),
    {
        self.row("total")
    }
}

/// The totals after one file: a file that was read is added, any other
/// leaves them alone.
pub open spec fn totals_after(totals: Counts, read: Result<Counts, ReadFailure>) -> Counts {
    match read {
        Ok(c) => totals.plus(c),
        Err(_) => totals,
    }
}

/// Whether `s` is what the file at `path` adds to the report, given how its
/// read ended: a row for a file that was read, a warning for a directory, the
/// end of the run for any other failure.
pub open spec fn answers(s: Step, path: Seq<char>, read: Result<Counts, ReadFailure>) -> bool {
    match s {
        Step::Row(line) => read matches Ok(c) && line@ == c.row_text(path),
        Step::Skipped(line) => read matches Err(e) && e.is_skippable() && line@ == directory_text(
            path,
        ),
        Step::Fatal => read matches Err(e) && !e.is_skippable(),
    }
}

/// What a run shows first: the usage block where help was asked for, else the
/// header for the metric chosen.
pub fn opening(config: &Config) -> (o: Opening)
    ensures
        match o {
            Opening::Usage(t) => config.help && t@ == usage_text(),
            Opening::Header(t) => !config.help && t@ == header_text(config.chars),
        },
{
    if config.help {
        Opening::Usage(usage())
    } else {
        Opening::Header(header(config.chars))
    }
}

/// Takes the outcome of reading the file at `path`: its counts, or why it
/// could not be read. A file that was read gives a row and enters the totals.
/// A directory gives a warning and leaves the totals alone. Any other failure
/// ends the run.
pub fn step(totals: &mut Counts, path: &str, read: Result<Counts, ReadFailure>) -> (s: Step)
    requires
        read matches Ok(c) ==> old(totals).has_room_for(c),
    ensures
        *final(totals) == totals_after(*old(totals), read),
        answers(s, path@, read),
{
    match read {
        Ok(c) => {
            totals.add(&c);
            Step::Row(c.row(path))
        },
        Err(e) => {
            if e.skippable() {
                Step::Skipped(directory_warning(path))
            } else {
                Step::Fatal
            }
        },
    }
}

/// A report under way. It is driven from outside: whoever holds it shows the
/// opening, then reads the file that the report waits for and hands in the
/// outcome, until the report waits for none, and then shows the closing row.
#[derive(Debug)]
pub struct Report {
    /// What was asked for.
    pub config: Config,
    /// How many of the paths are dealt with.
    pub next: usize,
    /// The sums over the files that were read.
    pub totals: Counts,
    /// Whether a read failed for good.
    pub failed: bool,
}

impl Report {
    /// No more paths are dealt with than there are.
    pub open spec fn wf(&self) -> bool {
        self.next <= self.config.file_paths.len()
    }

    /// The path of the file that the report waits for, if it waits for one:
    /// none where help was asked for, none after a read failed for good, none
    /// when every path is dealt with.
    pub open spec fn awaits(&self) -> Option<Seq<char>> {
        if !self.config.help && !self.failed && self.next < self.config.file_paths.len() {
            Some(self.config.file_paths[self.next as int]@)
        } else {
            None
        }
    }

    /// Whether the report has come to its last row: every path is dealt with
    /// and no read failed for good.
    pub open spec fn is_complete(&self) -> bool {
        !self.config.help && !self.failed && self.next == self.config.file_paths.len()
    }

    /// A report on `config` of which nothing is shown yet.
    pub fn new(config: Config) -> (r: Report)
        ensures
            r.config == config,
            r.next == 0,
            r.totals == Counts::zero_counts(),
            !r.failed,
            r.wf(),
    {
        Report { config, next: 0, totals: Counts::zero(), failed: false }
    }

    /// What the report shows first.
    pub fn opening(&self) -> (o: Opening)
        ensures
            match o {
                Opening::Usage(t) => self.config.help && t@ == usage_text(),
                Opening::Header(t) => !self.config.help && t@ == header_text(self.config.chars),
            },
    {
        opening(&self.config)
    }

    /// The path of the file to read next, if the report waits for one.
    pub fn awaited(&self) -> (p: Option<&str>)
        requires
            self.wf(),
        ensures
            match p {
                Some(path) => self.awaits() == Some(path@),
                None => self.awaits() is None,
            },
    {
        if !self.config.help && !self.failed && self.next < self.config.file_paths.len() {
            Some(self.config.file_paths[self.next].as_str())
        } else {
            None
        }
    }

    /// Takes the outcome of reading the file that the report waits for, and
    /// moves on to the next path. After a failure that is no directory the
    /// report waits for nothing more and has no closing row.
    pub fn take(&mut self, read: Result<Counts, ReadFailure>) -> (s: Step)
        requires
            old(self).wf(),
            old(self).awaits() is Some,
            read matches Ok(c) ==> old(self).totals.has_room_for(c),
        ensures
            final(self).wf(),
            final(self).config == old(self).config,
            final(self).next == old(self).next + 1,
            final(self).totals == totals_after(old(self).totals, read),
            final(self).failed == (s is Fatal),
            answers(s, old(self).awaits()->Some_0, read),
    {
        let s = step(&mut self.totals, self.config.file_paths[self.next].as_str(), read);
        self.failed = match s {
            Step::Fatal => true,
            _ => false,
        };
        self.next = self.next + 1;
        s
    }

    /// The last row, with the totals, once the report is complete.
    pub fn closing(&self) -> (row: Option<String>)
        requires
            self.wf(),
        ensures
            match row {
                Some(line) => self.is_complete() && line@ == self.totals.row_text(total_label()),
                None => !self.is_complete(),
            },
    {
        if !self.config.help && !self.failed && self.next == self.config.file_paths.len() {
            Some(self.totals.total_row())
        } else {
            None
        }
    }
}

} // verus!
