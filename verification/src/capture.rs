//! Output capture: how the bytes of one console stream become lines, and
//! how each line is rendered for the log sink and for the log file.
//!
//! Reading the stream and writing the file are the caller's part. Each
//! stream is captured on its own; nothing here is shared between the two.

use vstd::prelude::*;
use vstd::slice::slice_subrange;
use vstd::string::StringExecFns;
use crate::outcome::{OutcomeView, ReadinessOutcome};

verus! {

/// The two console streams of the supervised process.
#[derive(Clone, Copy, Debug, PartialEq, Eq, Structural)]
pub enum StreamSource {
    Stdout,
    Stderr,
}

/// The severity under which a line reaches the log sink.
#[derive(Clone, Copy, Debug, PartialEq, Eq, Structural)]
pub enum Severity {
    Info,
    Error,
}

impl StreamSource {
    pub open spec fn spec_label(self) -> Seq<char> {
        match self {
            StreamSource::Stdout => "stdout"@,
            StreamSource::Stderr => "stderr"@,
        }
    }

    /// The label that marks the lines of this stream.
    pub fn label(self) -> (label: &'static str)
        ensures
            label@ == self.spec_label(),
    {
        match self {
            StreamSource::Stdout => "stdout",
            StreamSource::Stderr => "stderr",
        }
    }

    pub open spec fn spec_severity(self) -> Severity {
        match self {
            StreamSource::Stdout => Severity::Info,
            StreamSource::Stderr => Severity::Error,
        }
    }

    /// Standard output is information, standard error is an error.
    pub fn severity(self) -> (severity: Severity)
        ensures
            severity == self.spec_severity(),
    {
        match self {
            StreamSource::Stdout => Severity::Info,
            StreamSource::Stderr => Severity::Error,
        }
    }
}

/// Whether the log file of a stream could be opened.
#[derive(Clone, Copy, Debug, PartialEq, Eq, Structural)]
pub enum CaptureMode {
    /// Lines go to the log sink and to the file.
    SinkAndFile,
    /// The file could not be opened: lines go to the log sink alone.
    SinkOnly,
}

impl CaptureMode {
    /// The mode a stream is captured in, from whether its log file opened.
    /// A file that does not open costs the file copy, never the capture.
    pub fn from_open(opened: bool) -> (mode: CaptureMode)
        ensures
            mode == if opened {
                CaptureMode::SinkAndFile
            } else {
                CaptureMode::SinkOnly
            },
    {
        if opened {
            CaptureMode::SinkAndFile
        } else {
            CaptureMode::SinkOnly
        }
    }
}

/// One line of output: where it came from and what it says, without its
/// line ending.
#[derive(Clone, Debug, PartialEq, Eq)]
pub struct LogLine {
    pub source: StreamSource,
    pub text: String,
}

/// A line as it is handed on: its severity, its message for the log sink
/// and, unless the stream is captured to the sink alone, its entry for
/// the log file.
#[derive(Clone, Debug, PartialEq, Eq)]
pub struct LogRecord {
    pub severity: Severity,
    pub sink_message: String,
    pub file_entry: Option<String>,
}

/// A record with its texts as sequences of characters.
pub struct LogRecordView {
    pub severity: Severity,
    pub sink_message: Seq<char>,
    pub file_entry: Option<Seq<char>>,
}

impl View for LogRecord {
    type V = LogRecordView;

    open spec fn view(&self) -> LogRecordView {
        LogRecordView {
            severity: self.severity,
            sink_message: self.sink_message@,
            file_entry: match self.file_entry {
                Some(entry) => Some(entry@),
                None => None,
            },
        }
    }
}

/// The entry of a line in the log file: the label in square brackets, a
/// space, the text and a line feed.
pub open spec fn spec_file_entry(source: StreamSource, text: Seq<char>) -> Seq<char> {
    "["@ + source.spec_label() + "] "@ + text + "\n"@
}

/// The message of a line for the log sink: the label, marked as the
/// backend's, in square brackets, a space and the text.
pub open spec fn spec_sink_message(source: StreamSource, text: Seq<char>) -> Seq<char> {
    "[backend "@ + source.spec_label() + "] "@ + text
}

pub open spec fn spec_record(source: StreamSource, text: Seq<char>, mode: CaptureMode)
    -> LogRecordView {
    LogRecordView {
        severity: source.spec_severity(),
        sink_message: spec_sink_message(source, text),
        file_entry: if mode == CaptureMode::SinkAndFile {
            Some(spec_file_entry(source, text))
        } else {
            None
        },
    }
}

impl LogLine {
    pub fn file_entry(&self) -> (entry: String)
        ensures
            entry@ == spec_file_entry(self.source, self.text@),
    {
        let mut entry = String::from_str("[");
        entry.append(self.source.label());
        entry.append("] ");
        entry.append(self.text.as_str());
        entry.append("\n");
        entry
    }

    pub fn sink_message(&self) -> (message: String)
        ensures
            message@ == spec_sink_message(self.source, self.text@),
    {
        let mut message = String::from_str("[backend ");
        message.append(self.source.label());
        message.append("] ");
        message.append(self.text.as_str());
        message
    }

    /// Renders the line for both destinations of the given mode.
    pub fn record(&self, mode: CaptureMode) -> (record: LogRecord)
        ensures
            record@ == spec_record(self.source, self.text@, mode),
    {
        let file_entry = match mode {
            CaptureMode::SinkAndFile => Some(self.file_entry()),
            CaptureMode::SinkOnly => None,
        };
        LogRecord {
            severity: self.source.severity(),
            sink_message: self.sink_message(),
            file_entry,
        }
    }
}

/// The line feed.
pub open spec fn lf() -> u8 {
    10
}

/// The carriage return.
pub open spec fn cr() -> u8 {
    13
}

/// A raw line without its ending: a final line feed goes, and with it a
/// carriage return in front of it. Without a line feed nothing goes.
pub open spec fn spec_strip_line_ending(raw: Seq<u8>) -> Seq<u8> {
    if raw.len() > 0 && raw.last() == lf() {
        let body = raw.drop_last();
        if body.len() > 0 && body.last() == cr() {
            body.drop_last()
        } else {
            body
        }
    } else {
        raw
    }
}

pub fn strip_line_ending(raw: &[u8]) -> (line: &[u8])
    ensures
        line@ == spec_strip_line_ending(raw@),
{
    let len = raw.len();
    if len > 0 && raw[len - 1] == 10 {
        if len > 1 && raw[len - 2] == 13 {
            let line = slice_subrange(raw, 0, len - 2);
            assert(line@ =~= spec_strip_line_ending(raw@));
            line
        } else {
            let line = slice_subrange(raw, 0, len - 1);
            assert(line@ =~= spec_strip_line_ending(raw@));
            line
        }
    } else {
        raw
    }
}

/// The text that `String::from_utf8_lossy` makes of a sequence of bytes.
pub uninterp spec fn lossy_text(bytes: Seq<u8>) -> Seq<char>;

/// That `text` is what lossy decoding makes of `bytes`. Where the bytes
/// are valid UTF-8 this is the text that they encode.
pub open spec fn decodes_to(bytes: Seq<u8>, text: Seq<char>) -> bool {
    &&& text == lossy_text(bytes)
    &&& vstd::utf8::valid_utf8(bytes) ==> text == vstd::utf8::decode_utf8(bytes)
}

/// `String::from_utf8_lossy`, with the result taken as an owned string.
/// It never fails: bytes that are valid UTF-8 give the text they encode,
/// and every invalid sequence among them is replaced by U+FFFD.
#[verifier::external_body]
fn decode_lossy(bytes: &[u8]) -> (text: String)
    ensures
        text@ == lossy_text(bytes@),
        vstd::utf8::valid_utf8(bytes@) ==> text@ == vstd::utf8::decode_utf8(bytes@),
{
    String::from_utf8_lossy(bytes).into_owned()
}

/// The line that a raw line of a stream stands for: its ending stripped,
/// its bytes decoded without ever failing.
pub fn capture_line(source: StreamSource, raw: &[u8]) -> (line: LogLine)
    ensures
        line.source == source,
        decodes_to(spec_strip_line_ending(raw@), line.text@),
{
    LogLine { source, text: decode_lossy(strip_line_ending(raw)) }
}

/// Where the first raw line of `bytes` ends when the search starts at
/// `from`: just behind the first line feed at or after `from`, or at the
/// end of the bytes when there is none.
pub open spec fn first_line_end(bytes: Seq<u8>, from: int) -> int
    decreases bytes.len() - from,
{
    if from >= bytes.len() {
        bytes.len() as int
    } else if bytes[from] == lf() {
        from + 1
    } else {
        first_line_end(bytes, from + 1)
    }
}

/// The lines of a stream from the byte at `from` on, as reading it line
/// by line gives them. Every line feed ends a line; what follows the last
/// one is a line of its own unless it is empty. The lines come without
/// their endings.
pub open spec fn lines_from(bytes: Seq<u8>, from: int) -> Seq<Seq<u8>>
    decreases bytes.len() - from,
{
    if 0 <= from < first_line_end(bytes, from) <= bytes.len() {
        seq![spec_strip_line_ending(bytes.subrange(from, first_line_end(bytes, from)))]
            + lines_from(bytes, first_line_end(bytes, from))
    } else {
        Seq::empty()
    }
}

/// The lines of a whole stream. An empty stream has none.
pub open spec fn spec_split_lines(bytes: Seq<u8>) -> Seq<Seq<u8>> {
    lines_from(bytes, 0)
}

/// The first raw line ends behind its start and within the bytes, no
/// byte of it but the last is a line feed, and it ends in a line feed
/// unless it runs to the end of the bytes.
pub proof fn lemma_first_line_end(bytes: Seq<u8>, from: int)
    requires
        0 <= from,
    ensures
        from < bytes.len() ==> from < first_line_end(bytes, from) <= bytes.len(),
        from >= bytes.len() ==> first_line_end(bytes, from) == bytes.len(),
        forall|k: int| from <= k < first_line_end(bytes, from) - 1 ==> bytes[k] != lf(),
        from < bytes.len() && bytes[first_line_end(bytes, from) - 1] != lf() ==> first_line_end(
            bytes,
            from,
        ) == bytes.len(),
    decreases bytes.len() - from,
{
    if from < bytes.len() && bytes[from] != lf() {
        lemma_first_line_end(bytes, from + 1);
    }
}

/// The byte sequences that a vector of lines holds.
pub open spec fn line_views(lines: Seq<Vec<u8>>) -> Seq<Seq<u8>> {
    lines.map_values(|line: Vec<u8>| line@)
}

/// Splits the bytes of a stream into its lines.
pub fn split_lines(bytes: &[u8]) -> (lines: Vec<Vec<u8>>)
    ensures
        line_views(lines@) == spec_split_lines(bytes@),
{
    let mut lines: Vec<Vec<u8>> = Vec::new();
    let len = bytes.len();
    let mut start: usize = 0;
    assert(line_views(lines@) =~= Seq::<Seq<u8>>::empty());
    while start < len
        invariant
            len == bytes.len(),
            start <= len,
            line_views(lines@) + lines_from(bytes@, start as int) == lines_from(bytes@, 0),
        decreases len - start,
    {
        let mut end: usize = start;
        while end < len && bytes[end] != 10
            invariant
                len == bytes.len(),
                start <= end <= len,
                first_line_end(bytes@, start as int) == first_line_end(bytes@, end as int),
            decreases len - end,
        {
            end = end + 1;
        }
        if end < len {
            end = end + 1;
        }
        let raw = slice_subrange(bytes, start, end);
        let line = vstd::slice::slice_to_vec(strip_line_ending(raw));
        proof {
            lemma_first_line_end(bytes@, start as int);
            assert(end == first_line_end(bytes@, start as int));
            assert(lines_from(bytes@, start as int) == seq![
                spec_strip_line_ending(bytes@.subrange(start as int, end as int)),
            ] + lines_from(bytes@, end as int));
        }
        let ghost before = line_views(lines@);
        lines.push(line);
        proof {
            assert(line_views(lines@) =~= before.push(line@));
            assert(line_views(lines@) + lines_from(bytes@, end as int) =~= before + lines_from(
                bytes@,
                start as int,
            ));
        }
        start = end;
    }
    assert(lines_from(bytes@, start as int) =~= Seq::<Seq<u8>>::empty());
    assert(line_views(lines@) =~= line_views(lines@) + Seq::<Seq<u8>>::empty());
    lines
}

/// Captures a whole stream: one record for each of its lines, in the
/// order of the lines.
pub fn capture_stream(source: StreamSource, bytes: &[u8], mode: CaptureMode) -> (records: Vec<
    LogRecord,
>)
    ensures
        records@.len() == spec_split_lines(bytes@).len(),
        forall|i: int|
            0 <= i < records@.len() ==> (#[trigger] records@[i])@ == spec_record(
                source,
                lossy_text(spec_split_lines(bytes@)[i]),
                mode,
            ) && decodes_to(spec_split_lines(bytes@)[i], lossy_text(spec_split_lines(bytes@)[i])),
{
    let lines = split_lines(bytes);
    let mut records: Vec<LogRecord> = Vec::new();
    let mut next: usize = 0;
    while next < lines.len()
        invariant
            next <= lines.len(),
            line_views(lines@) == spec_split_lines(bytes@),
            records@.len() == next,
            forall|i: int|
                0 <= i < next ==> (#[trigger] records@[i])@ == spec_record(
                    source,
                    lossy_text(spec_split_lines(bytes@)[i]),
                    mode,
                ) && decodes_to(
                    spec_split_lines(bytes@)[i],
                    lossy_text(spec_split_lines(bytes@)[i]),
                ),
        decreases lines.len() - next,
    {
        assert(line_views(lines@)[next as int] == lines@[next as int]@);
        let line = LogLine { source, text: decode_lossy(lines[next].as_slice()) };
        records.push(line.record(mode));
        next = next + 1;
    }
    assert(line_views(lines@).len() == lines@.len());
    records
}

/// What a stream of the supervised process reports, one event at a time.
#[derive(Clone, Debug, PartialEq, Eq)]
pub enum StreamEvent {
    /// One raw line of output, with or without its line ending.
    Line { source: StreamSource, raw: Vec<u8> },
    /// The process has ended; its exit code and signal as far as known.
    Closed { code: Option<i32>, signal: Option<i32> },
}

/// What is to be done about a stream event.
#[derive(Clone, Debug, PartialEq, Eq)]
pub enum CaptureStep {
    /// Log this record.
    Log(LogRecord),
    /// Emit this outcome.
    Emit(ReadinessOutcome),
}

/// Decides on one stream event: a line is logged, and the end of the
/// process becomes a Terminated outcome that carries its code and signal.
pub fn on_stream_event(event: &StreamEvent, mode: CaptureMode) -> (step: CaptureStep)
    ensures
        match *event {
            StreamEvent::Line { source, raw } => step matches CaptureStep::Log(record)
                && record@ == spec_record(
                source,
                lossy_text(spec_strip_line_ending(raw@)),
                mode,
            ) && decodes_to(
                spec_strip_line_ending(raw@),
                lossy_text(spec_strip_line_ending(raw@)),
            ),
            StreamEvent::Closed { code, signal } => step matches CaptureStep::Emit(outcome)
                && outcome@ == (OutcomeView::Terminated { code, signal }),
        },
{
    match event {
        StreamEvent::Line { source, raw } => {
            let line = capture_line(*source, raw.as_slice());
            CaptureStep::Log(line.record(mode))
        },
        StreamEvent::Closed { code, signal } => CaptureStep::Emit(
            ReadinessOutcome::Terminated { code: *code, signal: *signal },
        ),
    }
}

/// The stream that a process makes of its lines: each line followed by a
/// line feed.
pub open spec fn join_lines(lines: Seq<Seq<u8>>) -> Seq<u8>
    decreases lines.len(),
{
    if lines.len() == 0 {
        Seq::empty()
    } else {
        lines[0] + seq![lf()] + join_lines(lines.drop_first())
    }
}

/// A line that can be told apart from its ending: it holds no line feed
/// and does not end in a carriage return.
pub open spec fn plain_line(line: Seq<u8>) -> bool {
    &&& forall|k: int| 0 <= k < line.len() ==> line[k] != lf()
    &&& line.len() > 0 ==> line.last() != cr()
}

proof fn lemma_line_end_at(bytes: Seq<u8>, from: int, at: int)
    requires
        0 <= from <= at < bytes.len(),
        forall|k: int| from <= k < at ==> bytes[k] != lf(),
        bytes[at] == lf(),
    ensures
        first_line_end(bytes, from) == at + 1,
    decreases at - from,
{
    if from < at {
        lemma_line_end_at(bytes, from + 1, at);
    }
}

proof fn lemma_line_end_shift(prefix: Seq<u8>, rest: Seq<u8>, from: int)
    requires
        0 <= from,
    ensures
        first_line_end(prefix + rest, prefix.len() + from) == prefix.len() + first_line_end(
            rest,
            from,
        ),
    decreases rest.len() - from,
{
    let whole = prefix + rest;
    if from < rest.len() {
        assert(whole[prefix.len() + from] == rest[from]);
        if rest[from] != lf() {
            lemma_line_end_shift(prefix, rest, from + 1);
        }
    }
}

proof fn lemma_lines_shift(prefix: Seq<u8>, rest: Seq<u8>, from: int)
    requires
        0 <= from,
    ensures
        lines_from(prefix + rest, prefix.len() + from) == lines_from(rest, from),
    decreases rest.len() - from,
{
    let whole = prefix + rest;
    let end = first_line_end(rest, from);
    lemma_line_end_shift(prefix, rest, from);
    lemma_first_line_end(rest, from);
    if from < rest.len() {
        assert(whole.subrange(prefix.len() + from, prefix.len() + end) =~= rest.subrange(
            from,
            end,
        ));
        lemma_lines_shift(prefix, rest, end);
    }
}

/// Nothing is lost and nothing changes place: the stream made of any
/// number of plain lines splits into exactly those lines, in their order.
pub proof fn lemma_split_undoes_join(lines: Seq<Seq<u8>>)
    requires
        forall|i: int| 0 <= i < lines.len() ==> plain_line(#[trigger] lines[i]),
    ensures
        spec_split_lines(join_lines(lines)) == lines,
    decreases lines.len(),
{
    if lines.len() == 0 {
        assert(lines_from(join_lines(lines), 0) =~= lines);
    } else {
        let first = lines[0];
        let rest = lines.drop_first();
        let head = first + seq![lf()];
        let tail = join_lines(rest);
        let whole = join_lines(lines);
        assert(plain_line(first));
        assert(whole =~= head + tail);
        assert forall|i: int| 0 <= i < rest.len() implies plain_line(#[trigger] rest[i]) by {
            assert(rest[i] == lines[i + 1]);
        }
        lemma_split_undoes_join(rest);
        lemma_line_end_at(whole, 0, first.len() as int);
        assert(whole.subrange(0, first.len() as int + 1) =~= head);
        assert(spec_strip_line_ending(head) =~= first) by {
            assert(head.drop_last() =~= first);
        }
        lemma_lines_shift(head, tail, 0);
        assert(lines_from(whole, 0) =~= seq![first] + lines_from(tail, 0));
        assert(seq![first] + rest =~= lines);
    }
}

/// What is left of a stream from `from` on has at most as many lines as
/// bytes, and at least one line unless it is empty.
pub proof fn lemma_line_count(bytes: Seq<u8>, from: int)
    requires
        0 <= from <= bytes.len(),
    ensures
        lines_from(bytes, from).len() <= bytes.len() - from,
        from < bytes.len() ==> lines_from(bytes, from).len() >= 1,
    decreases bytes.len() - from,
{
    lemma_first_line_end(bytes, from);
    if from < bytes.len() {
        lemma_line_count(bytes, first_line_end(bytes, from));
    }
}

} // verus!
