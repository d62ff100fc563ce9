//! The logging backend: severity filtering, line rendering, and the
//! append-only transcript that models the destination file.

use vstd::prelude::*;
use vstd::string::StringExecFns;

use crate::level::Level;

verus! {

/// One candidate log record: a severity level and an already-formatted
/// message. Ephemeral — it exists only for the duration of one emit call.
pub struct Record {
    pub level: Level,
    pub message: String,
}

impl Record {
    /// Build a record from a severity and a message.
    pub fn new(level: Level, message: String) -> (r: Record)
        ensures
            r.level == level,
            r.message@ == message@,
    {
        Record { level, message }
    }
}

/// The on-disk shape of one accepted record: `[<timestamp>] <message>`.
pub open spec fn line_of(timestamp: Seq<char>, message: Seq<char>) -> Seq<char> {
    "["@ + timestamp + "] "@ + message
}

/// An append-only transcript of emitted lines, in emission order. It models
/// the destination log file: every line corresponds to exactly one accepted
/// record, no line is ever rewritten or deleted, and it doubles as a capture
/// sink for exercising the backend without touching a filesystem.
pub struct Transcript {
    lines: Vec<String>,
}

impl View for Transcript {
    type V = Seq<Seq<char>>;

    closed spec fn view(&self) -> Seq<Seq<char>> {
        self.lines@.map_values(|s: String| s@)
    }
}

impl Transcript {
    /// An empty transcript.
    pub fn new() -> (r: Transcript)
        ensures
            r@ == Seq::<Seq<char>>::empty(),
    {
        let r = Transcript { lines: Vec::new() };
        proof {
            assert(r@ =~= Seq::<Seq<char>>::empty());
        }
        r
    }

    /// Append one line at the end; everything already present is preserved.
    pub fn append(&mut self, line: String)
        ensures
            final(self)@ == old(self)@.push(line@),
    {
        self.lines.push(line);
        proof {
            assert(final(self)@ =~= old(self)@.push(line@));
        }
    }

    /// How many lines have been emitted.
    pub fn len(&self) -> (r: usize)
        ensures
            r == self@.len(),
    {
        self.lines.len()
    }

    /// Read back the line at position `i`.
    pub fn line(&self, i: usize) -> (r: &String)
        requires
            i < self@.len(),
        ensures
            r@ == self@[i as int],
    {
        &self.lines[i]
    }
}

/// A file-backed logging backend: a destination path and a configured
/// minimum severity threshold. Immutable once constructed; it does not own
/// an open file handle between calls.
pub struct FileLogger {
    log_file: String,
    level: Level,
}

impl FileLogger {
    /// The destination path.
    pub closed spec fn spec_log_file(&self) -> Seq<char> {
        self.log_file@
    }

    /// The configured minimum severity threshold.
    pub closed spec fn spec_level(&self) -> Level {
        self.level
    }

    /// A record at `level` passes the filter iff `level` is at least as
    /// severe as the configured threshold.
    pub open spec fn spec_enabled(&self, level: Level) -> bool {
        level.at_least_as_severe_as(self.spec_level())
    }

    /// Construct a backend for the given destination and threshold. Pure:
    /// the path is not validated and the file is not touched.
    pub fn new(log_file: String, level: Level) -> (r: FileLogger)
        ensures
            r.spec_log_file() == log_file@,
            r.spec_level() == level,
    {
        FileLogger { log_file, level }
    }

    /// The destination path this backend writes to.
    pub fn log_file(&self) -> (r: &String)
        ensures
            r@ == self.spec_log_file(),
    {
        &self.log_file
    }

    /// The configured minimum severity threshold.
    pub fn level(&self) -> (r: Level)
        ensures
            r == self.spec_level(),
    {
        self.level
    }

    /// Whether a record at `level` would be emitted.
    pub fn enabled(&self, level: Level) -> (r: bool)
        ensures
            r == self.spec_enabled(level),
    {
        level.is_at_least_as_severe_as(self.level)
    }

    /// Render a record to its log line, stamped with the current UTC time:
    /// `Some` exactly when the record passes the filter, and then the line
    /// is `[<timestamp>] <message>` for some non-empty timestamp.
    pub fn render(&self, record: &Record) -> (r: Option<String>)
        ensures
            r is Some <==> self.spec_enabled(record.level),
            r matches Some(line) ==> exists|ts: Seq<char>|
                ts.len() > 0 && line@ == line_of(ts, record.message@),
    {
        if self.enabled(record.level) {
            let timestamp = current_timestamp();
            let line = render_line(&timestamp, &record.message);
            proof {
                assert(timestamp@.len() > 0 && line@ == line_of(timestamp@, record.message@));
            }
            Some(line)
        } else {
            None
        }
    }

    /// Emit a record into `sink`: a no-op when the record is below the
    /// threshold, and otherwise exactly one line `[<timestamp>] <message>`
    /// appended at the end, with everything already in `sink` preserved.
    pub fn log(&self, sink: &mut Transcript, record: &Record)
        ensures
            !self.spec_enabled(record.level) ==> final(sink)@ == old(sink)@,
            self.spec_enabled(record.level) ==> exists|ts: Seq<char>|
                ts.len() > 0 && final(sink)@ == old(sink)@.push(line_of(ts, record.message@)),
            exists|ts: Seq<char>|
                final(sink)@ == emit_model(
                    self.spec_level(),
                    old(sink)@,
                    record.level,
                    ts,
                    record.message@,
                ),
    {
        match self.render(record) {
            Some(line) => {
                proof {
                    let ts = choose|ts: Seq<char>|
                        ts.len() > 0 && line@ == line_of(ts, record.message@);
                    assert(old(sink)@.push(line@) == emit_model(
                        self.spec_level(),
                        old(sink)@,
                        record.level,
                        ts,
                        record.message@,
                    ));
                }
                sink.append(line);
            },
            None => {
                proof {
                    assert(emit_model(
                        self.spec_level(),
                        old(sink)@,
                        record.level,
                        Seq::<char>::empty(),
                        record.message@,
                    ) == old(sink)@);
                }
            },
        }
    }

    /// Finish writing. A no-op: every emit opens, writes and closes the
    /// destination synchronously, so there is never buffered state to flush.
    pub fn flush(&self) {
    }
}

/// Render one line `[<timestamp>] <message>`.
pub fn render_line(timestamp: &String, message: &String) -> (r: String)
    ensures
        r@ == line_of(timestamp@, message@),
{
    let mut line = String::from_str("[");
    line.append(timestamp.as_str());
    line.append("] ");
    line.append(message.as_str());
    proof {
        assert(line@ =~= line_of(timestamp@, message@));
    }
    line
}

/// The effect of one emit on a transcript, given the configured threshold:
/// a record at an accepted severity appends its rendered line, and any
/// other record leaves the transcript untouched. This is exactly what
/// `FileLogger::log` ensures of its sink, with the record's timestamp,
/// level and message made explicit.
pub open spec fn emit_model(
    threshold: Level,
    lines: Seq<Seq<char>>,
    level: Level,
    timestamp: Seq<char>,
    message: Seq<char>,
) -> Seq<Seq<char>> {
    if level.at_least_as_severe_as(threshold) {
        lines.push(line_of(timestamp, message))
    } else {
        lines
    }
}

/// The transcript left after emitting each record of `records` in call
/// order, starting from `lines`. A record is a triple of its severity, its
/// timestamp and its message.
pub open spec fn emit_all(
    threshold: Level,
    lines: Seq<Seq<char>>,
    records: Seq<(Level, Seq<char>, Seq<char>)>,
) -> Seq<Seq<char>>
    decreases records.len(),
{
    if records.len() == 0 {
        lines
    } else {
        emit_all(
            threshold,
            emit_model(threshold, lines, records[0].0, records[0].1, records[0].2),
            records.skip(1),
        )
    }
}

/// Append-only growth: emitting N records whose severities all pass the
/// threshold grows the transcript by exactly N lines, every line already
/// present is preserved unchanged at its position, and the new lines are
/// the records' rendered `[<timestamp>] <message>` lines, in call order.
pub proof fn lemma_append_only_growth(
    threshold: Level,
    lines: Seq<Seq<char>>,
    records: Seq<(Level, Seq<char>, Seq<char>)>,
)
    requires
        forall|i: int|
            0 <= i < records.len() ==> (#[trigger] records[i]).0.at_least_as_severe_as(threshold),
    ensures
        emit_all(threshold, lines, records).len() == lines.len() + records.len(),
        forall|i: int|
            0 <= i < lines.len() ==> #[trigger] emit_all(threshold, lines, records)[i] == lines[i],
        forall|i: int|
            0 <= i < records.len() ==> emit_all(threshold, lines, records)[lines.len() + i]
                == line_of((#[trigger] records[i]).1, records[i].2),
    decreases records.len(),
{
    if records.len() == 0 {
    } else {
        let stepped = lines.push(line_of(records[0].1, records[0].2));
        lemma_append_only_growth(threshold, stepped, records.skip(1));
        assert forall|i: int| 0 <= i < records.len() implies emit_all(
            threshold,
            lines,
            records,
        )[lines.len() + i] == line_of((#[trigger] records[i]).1, records[i].2) by {
            if i == 0 {
                assert(emit_all(threshold, lines, records)[lines.len() as int] == stepped[lines.len() as int]);
            } else {
                assert(records.skip(1)[i - 1] == records[i]);
                assert(emit_all(threshold, stepped, records.skip(1))[stepped.len() + (i - 1)]
                    == line_of(records.skip(1)[i - 1].1, records.skip(1)[i - 1].2));
            }
        }
    }
}

/// Relies on chrono's `Utc::now` and the `Display` of `DateTime<Utc>`: the
/// current UTC wall-clock time, rendered as date and time with fractional
/// seconds and a `UTC` suffix, never empty. The result depends on the
/// clock, so nothing more is assumed of it. Fails only if the system clock
/// reads before the Unix epoch.
#[verifier::external_body]
fn current_timestamp() -> (r: String)
    ensures
        r@.len() > 0,
{
    chrono::Utc::now().to_string()
}

} // verus!
