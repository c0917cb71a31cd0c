//! The lines that tell the user what the server answered.
//!
//! A line is a run of spans, each a text with a tint. Whoever prints a line
//! colours each span by its tint and writes them one after the other.

use indicatif::HumanBytes;
use vstd::prelude::*;
use crate::decimal::{decimal_text, format_decimal};

verus! {

/// The colour of a span.
#[derive(Clone, Copy, Debug, PartialEq, Eq, Structural)]
pub enum Tint {
    Plain,
    Green,
    Red,
}

/// A piece of a line, in one colour.
#[derive(Debug, PartialEq, Eq)]
pub struct Span {
    pub text: String,
    pub tint: Tint,
}

/// The mathematical value of a `Span`.
pub struct SpanView {
    pub text: Seq<char>,
    pub tint: Tint,
}

impl View for Span {
    type V = SpanView;

    open spec fn view(&self) -> SpanView {
        SpanView { text: self.text@, tint: self.tint }
    }
}

/// One line of the report.
#[derive(Debug, PartialEq, Eq)]
pub struct Line {
    pub spans: Vec<Span>,
}

impl View for Line {
    type V = Seq<SpanView>;

    open spec fn view(&self) -> Seq<SpanView> {
        self.spans@.map_values(|s: Span| s@)
    }
}

/// The values of the lines of a report.
pub open spec fn lines_view(lines: Seq<Line>) -> Seq<Seq<SpanView>> {
    lines.map_values(|l: Line| l@)
}

/// A span without colour.
pub open spec fn plain(text: Seq<char>) -> SpanView {
    SpanView { text, tint: Tint::Plain }
}

/// A green span.
pub open spec fn green(text: Seq<char>) -> SpanView {
    SpanView { text, tint: Tint::Green }
}

/// A red span.
pub open spec fn red(text: Seq<char>) -> SpanView {
    SpanView { text, tint: Tint::Red }
}

/// How the quiet flag is written at the end of every line.
pub open spec fn flag_text(quiet: bool) -> Seq<char> {
    if quiet {
        "true"@
    } else {
        "false"@
    }
}

/// The text of a line without its colours.
pub open spec fn plain_text_of(line: Seq<SpanView>) -> Seq<char>
    decreases line.len(),
{
    if line.len() == 0 {
        Seq::empty()
    } else {
        plain_text_of(line.drop_last()) + line.last().text
    }
}

/// A line of three parts: what it is about, the value in colour, and the
/// quiet flag.
pub open spec fn labelled_line(
    heading: Seq<char>,
    value: SpanView,
    quiet: bool,
) -> Seq<SpanView> {
    seq![plain(heading), value, plain(" "@), plain(flag_text(quiet))]
}

/// The line that reports the status of the response.
pub open spec fn status_line_of(status: Seq<char>, quiet: bool) -> Seq<SpanView> {
    labelled_line("HTTP request sent... "@, green(status), quiet)
}

/// The line that reports a known length, in bytes and in a readable unit.
pub open spec fn length_line_of(bytes: u64, readable: Seq<char>, quiet: bool) -> Seq<SpanView> {
    seq![
        plain("Length: "@),
        green(decimal_text(bytes as nat)),
        plain(" ("@),
        red(readable),
        plain(") "@),
        plain(flag_text(quiet)),
    ]
}

/// The line that stands for a length that the server did not give.
pub open spec fn unknown_length_line_of(quiet: bool) -> Seq<SpanView> {
    labelled_line("Length: "@, red("unknown"@), quiet)
}

/// The line that reports the media type, or that none was given.
pub open spec fn type_line_of(media_type: Option<Seq<char>>, quiet: bool) -> Seq<SpanView> {
    match media_type {
        Some(t) => labelled_line("Type: "@, green(t), quiet),
        None => labelled_line("Type: "@, red("unknown"@), quiet),
    }
}

/// The line that names the file to be written.
pub open spec fn saving_line_of(name: Seq<char>, quiet: bool) -> Seq<SpanView> {
    labelled_line("Saving to: "@, green(name), quiet)
}

/// A size in bytes in the largest binary unit that leaves it at least one,
/// as `indicatif` writes it.
pub uninterp spec fn human_bytes_text(bytes: u64) -> Seq<char>;

/// Formats with the `Display` of `HumanBytes` of the `indicatif` crate. The
/// claim is that the text, named `human_bytes_text`, depends on the number
/// alone.
#[verifier::external_body]
pub(crate) fn human_bytes(bytes: u64) -> (text: String)
    ensures
        text@ == human_bytes_text(bytes),
{
    format!("{}", HumanBytes(bytes))
}

fn span(text: &str, tint: Tint) -> (s: Span)
    ensures
        s@ == (SpanView { text: text@, tint }),
{
    Span { text: text.to_owned(), tint }
}

fn flag(quiet: bool) -> (s: Span)
    ensures
        s@ == plain(flag_text(quiet)),
{
    if quiet {
        span("true", Tint::Plain)
    } else {
        span("false", Tint::Plain)
    }
}

fn labelled(heading: &str, value: Span, quiet: bool) -> (line: Line)
    ensures
        line@ == labelled_line(heading@, value@, quiet),
{
    let mut spans: Vec<Span> = Vec::new();
    spans.push(span(heading, Tint::Plain));
    spans.push(value);
    spans.push(span(" ", Tint::Plain));
    spans.push(flag(quiet));
    let line = Line { spans };
    assert(line@ =~= labelled_line(heading@, value@, quiet));
    line
}

/// Words the status line from the text of the status.
pub fn status_line(status: &str, quiet: bool) -> (line: Line)
    ensures
        line@ == status_line_of(status@, quiet),
{
    labelled("HTTP request sent... ", span(status, Tint::Green), quiet)
}

/// Words the length line for a body of `bytes` bytes, which read as
/// `readable` in a larger unit.
pub fn length_line(bytes: u64, readable: &str, quiet: bool) -> (line: Line)
    ensures
        line@ == length_line_of(bytes, readable@, quiet),
{
    let mut spans: Vec<Span> = Vec::new();
    spans.push(span("Length: ", Tint::Plain));
    spans.push(Span { text: format_decimal(bytes), tint: Tint::Green });
    spans.push(span(" (", Tint::Plain));
    spans.push(span(readable, Tint::Red));
    spans.push(span(") ", Tint::Plain));
    spans.push(flag(quiet));
    let line = Line { spans };
    assert(line@ =~= length_line_of(bytes, readable@, quiet));
    line
}

/// Words the length line for a body of unknown length.
pub fn unknown_length_line(quiet: bool) -> (line: Line)
    ensures
        line@ == unknown_length_line_of(quiet),
{
    labelled("Length: ", span("unknown", Tint::Red), quiet)
}

/// Words the line for the media type of the body.
pub fn type_line(media_type: Option<&str>, quiet: bool) -> (line: Line)
    ensures
        line@ == type_line_of(
            match media_type {
                Some(t) => Some(t@),
                None => None,
            },
            quiet,
        ),
{
    match media_type {
        Some(t) => labelled("Type: ", span(t, Tint::Green), quiet),
        None => labelled("Type: ", span("unknown", Tint::Red), quiet),
    }
}

/// Words the line that names the output file.
pub fn saving_line(name: &str, quiet: bool) -> (line: Line)
    ensures
        line@ == saving_line_of(name@, quiet),
{
    labelled("Saving to: ", span(name, Tint::Green), quiet)
}

impl Line {
    /// The whole line as one text, colours left out.
    pub fn plain_text(&self) -> (text: String)
        ensures
            text@ == plain_text_of(self@),
    {
        let mut out = String::new();
        let mut i: usize = 0;
        while i < self.spans.len()
            invariant
                i <= self.spans.len(),
                out@ == plain_text_of(self@.take(i as int)),
            decreases self.spans.len() - i,
        {
            proof {
                let before = self@.take(i as int);
                let after = self@.take(i + 1);
                assert(after.drop_last() =~= before);
                assert(after.last() == self.spans@[i as int]@);
            }
            out.append(self.spans[i].text.as_str());
            i = i + 1;
        }
        assert(self@.take(i as int) =~= self@);
        out
    }
}

} // verus!
