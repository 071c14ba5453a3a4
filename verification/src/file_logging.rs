//! What the daemon logs, at which level and into which file.
//!
//! Opening, compressing and syncing the log file is done outside this
//! module; what is decided here is the level a name stands for, the name of
//! the log file, when a write is to be synced, and what a writer does once
//! it has been finalized.

use vstd::prelude::*;
use vstd::string::*;

verus! {

/// A threshold below which log records are dropped.
#[derive(Clone, Copy, Debug, PartialEq, Eq, Structural)]
pub enum LevelFilter {
    Trace,
    Debug,
    Info,
    Warn,
    Error,
}

/// The lower-case form of a text.
pub uninterp spec fn lowercase_of(text: Seq<char>) -> Seq<char>;

/// Turns a text into lower case with `str::to_lowercase`. The result
/// depends on the text alone.
#[verifier::external_body]
pub(crate) fn to_lowercase(text: &str) -> (lower: String)
    ensures
        lower@ == lowercase_of(text@),
{
    text.to_lowercase()
}

/// The level that a lower-case name stands for, if it names one.
pub open spec fn spec_level_named(name: Seq<char>) -> Option<LevelFilter> {
    if name == "trace"@ {
        Some(LevelFilter::Trace)
    } else if name == "debug"@ {
        Some(LevelFilter::Debug)
    } else if name == "info"@ {
        Some(LevelFilter::Info)
    } else if name == "warn"@ {
        Some(LevelFilter::Warn)
    } else if name == "error"@ {
        Some(LevelFilter::Error)
    } else {
        None
    }
}

fn same_text(a: &str, b: &str) -> (r: bool)
    ensures
        r == (a@ == b@),
{
    let x = String::from_str(a);
    let y = String::from_str(b);
    x == y
}

/// The level that a lower-case name stands for, if it names one.
pub fn level_named(name: &str) -> (level: Option<LevelFilter>)
    ensures
        level == spec_level_named(name@),
{
    if same_text(name, "trace") {
        Some(LevelFilter::Trace)
    } else if same_text(name, "debug") {
        Some(LevelFilter::Debug)
    } else if same_text(name, "info") {
        Some(LevelFilter::Info)
    } else if same_text(name, "warn") {
        Some(LevelFilter::Warn)
    } else if same_text(name, "error") {
        Some(LevelFilter::Error)
    } else {
        None
    }
}

/// The level to log at for a level given on the command line, in any mix
/// of cases, and whether the name was understood. A name that is not
/// understood stands for `Info`.
pub fn parse_log_level(log_level: &str) -> (r: (LevelFilter, bool))
    ensures
        r.1 == (spec_level_named(lowercase_of(log_level@)) is Some),
        r.0 == match spec_level_named(lowercase_of(log_level@)) {
            Some(level) => level,
            None => LevelFilter::Info,
        },
{
    let lower = to_lowercase(log_level);
    match level_named(lower.as_str()) {
        Some(level) => (level, true),
        None => (LevelFilter::Info, false),
    }
}

/// The name of the log file for a run started at `timestamp`.
pub open spec fn spec_log_file_name(timestamp: Seq<char>) -> Seq<char> {
    "kos-daemon_"@ + timestamp + ".log.gz"@
}

/// The name of the log file for a run started at `timestamp`.
pub fn log_file_name(timestamp: &str) -> (name: String)
    ensures
        name@ == spec_log_file_name(timestamp@),
{
    let mut name = String::from_str("kos-daemon_");
    name.append(timestamp);
    name.append(".log.gz");
    name
}

/// The filter directives of the console log: the daemon's own records at
/// the chosen level, the chattier dependencies at errors only.
pub open spec fn spec_directives(log_level: Seq<char>) -> Seq<Seq<char>> {
    seq![
        "kos="@ + log_level,
        "h2=error"@,
        "grpc=error"@,
        "rumqttc=error"@,
        "kos_core::telemetry=error"@,
        "polling=error"@,
        "async_io=error"@,
        "krec=error"@,
    ]
}

/// The filter directives of the console log.
pub fn directives(log_level: &str) -> (d: Vec<String>)
    ensures
        d@.map_values(|s: String| s@) == spec_directives(log_level@),
{
    let mut own = String::from_str("kos=");
    own.append(log_level);
    let mut d: Vec<String> = Vec::new();
    d.push(own);
    d.push(String::from_str("h2=error"));
    d.push(String::from_str("grpc=error"));
    d.push(String::from_str("rumqttc=error"));
    d.push(String::from_str("kos_core::telemetry=error"));
    d.push(String::from_str("polling=error"));
    d.push(String::from_str("async_io=error"));
    d.push(String::from_str("krec=error"));
    assert(d@.map_values(|s: String| s@) =~= spec_directives(log_level@));
    d
}

/// Level of compression of the log file.
pub const COMPRESSION_LEVEL: u32 = 6;

/// Milliseconds granted to the log worker to drain after the last record.
pub const DRAIN_MILLIS: u64 = 100;

/// Whether a run of bytes holds a line feed.
pub open spec fn holds_line_feed(buf: Seq<u8>) -> bool {
    exists|i: int| 0 <= i < buf.len() && #[trigger] buf[i] == 10u8
}

/// What a writer does with a write.
#[derive(Clone, Copy, Debug, PartialEq, Eq, Structural)]
pub enum WriteStep {
    /// The writer was finalized: the write is refused.
    Refuse,
    /// The bytes go to the encoder.
    Encode,
}

/// The state of the writer of a compressed log file.
pub struct CompressedWriter {
    open: bool,
    path: String,
}

impl CompressedWriter {
    /// A writer for the file at `path`, open for writes.
    pub fn new(path: &str) -> (w: CompressedWriter)
        ensures
            w.is_open(),
            w.path_view() == path@,
    {
        CompressedWriter { open: true, path: String::from_str(path) }
    }

    /// Whether the writer still takes writes.
    pub closed spec fn is_open(&self) -> bool {
        self.open
    }

    /// The path of the log file.
    pub closed spec fn path_view(&self) -> Seq<char> {
        self.path@
    }

    /// The path of the log file.
    pub fn path(&self) -> (p: &str)
        ensures
            p@ == self.path_view(),
    {
        self.path.as_str()
    }

    /// What the writer does with a write.
    pub fn write(&self) -> (step: WriteStep)
        ensures
            step == if self.is_open() {
                WriteStep::Encode
            } else {
                WriteStep::Refuse
            },
    {
        if self.open {
            WriteStep::Encode
        } else {
            WriteStep::Refuse
        }
    }

    /// Whether the file is to be synced after `written` bytes of `buf` went
    /// to the encoder: after every write that took something of a buffer
    /// holding a line feed, so that whole lines reach the disk.
    pub fn sync(written: usize, buf: &Vec<u8>) -> (r: bool)
        ensures
            r == (written > 0 && holds_line_feed(buf@)),
    {
        if written == 0 {
            return false;
        }
        let mut i: usize = 0;
        while i < buf.len()
            invariant
                written > 0,
                i <= buf@.len(),
                forall|k: int| 0 <= k < i ==> buf@[k] != 10u8,
            decreases buf@.len() - i,
        {
            if buf[i] == 10 {
                assert(buf@[i as int] == 10u8);
                return true;
            }
            i = i + 1;
        }
        false
    }

    /// Finalizes the writer and tells whether there is an encoder to
    /// finish: only the first call finds one.
    pub fn finalize(&mut self) -> (finish: bool)
        ensures
            finish == old(self).is_open(),
            !final(self).is_open(),
            final(self).path_view() == old(self).path_view(),
    {
        let finish = self.open;
        self.open = false;
        finish
    }
}

} // verus!
