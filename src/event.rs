//! One line of Cargo's JSON message stream, classified.

use cargo_metadata::Message;
use vstd::prelude::*;
use vstd::utf8::encode_utf8;

verus! {

/// What one line of Cargo's message stream holds, as the scanner sees it.
#[derive(Debug)]
pub enum BuildEvent {
    /// An artifact of one target was produced.
    ArtifactProduced { target_name: String, target_kind: Vec<String>, executable: Option<String> },
    /// A compiler diagnostic, as rendered for humans.
    DiagnosticMessage { rendered: String },
    /// A line that is not a Cargo message at all.
    FreeText { text: String },
    /// The last message of a build.
    BuildFinished { success: bool },
    /// Any other Cargo message.
    Other,
}

/// The mathematical form of a [`BuildEvent`].
pub enum EventView {
    ArtifactProduced { target_name: Seq<char>, target_kind: Seq<Seq<char>>, executable: Option<Seq<char>> },
    DiagnosticMessage { rendered: Seq<char> },
    FreeText { text: Seq<char> },
    BuildFinished { success: bool },
    Other,
}

/// The text of each string of `v`.
pub open spec fn strings_view(v: Seq<String>) -> Seq<Seq<char>> {
    v.map_values(|s: String| s@)
}

/// The text of the string in `o`, if there is one.
pub open spec fn option_string_view(o: Option<String>) -> Option<Seq<char>> {
    match o {
        Some(s) => Some(s@),
        None => None,
    }
}

impl View for BuildEvent {
    type V = EventView;

    open spec fn view(&self) -> EventView {
        match self {
            BuildEvent::ArtifactProduced { target_name, target_kind, executable } => {
                EventView::ArtifactProduced {
                    target_name: target_name@,
                    target_kind: strings_view(target_kind@),
                    executable: option_string_view(*executable),
                }
            },
            BuildEvent::DiagnosticMessage { rendered } => EventView::DiagnosticMessage {
                rendered: rendered@,
            },
            BuildEvent::FreeText { text } => EventView::FreeText { text: text@ },
            BuildEvent::BuildFinished { success } => EventView::BuildFinished { success: *success },
            BuildEvent::Other => EventView::Other,
        }
    }
}

/// The event that cargo_metadata reads from one line of the stream.
pub uninterp spec fn event_of(line: Seq<char>) -> EventView;

/// The deepest nesting of JSON arrays and objects that a line may hold to be
/// read as a Cargo message. The reader of Cargo's messages has no limit of its
/// own and recurses once per level, so a deeper line could exhaust the stack.
pub const MAX_JSON_DEPTH: usize = 128;

/// The ASCII bytes that line breaks, JSON strings and JSON nesting turn on.
pub const NEWLINE: u8 = 10;
pub const QUOTE: u8 = 34;
pub const BACKSLASH: u8 = 92;
pub const OPEN_BRACKET: u8 = 91;
pub const CLOSE_BRACKET: u8 = 93;
pub const OPEN_BRACE: u8 = 123;
pub const CLOSE_BRACE: u8 = 125;

/// Whether the bytes `b`, read from a point where `depth` arrays and objects
/// are open (inside a string where `in_string`, right after a backslash there
/// where `escaped`), never hold more than `limit` of them open at once.
/// Brackets and braces inside strings do not count. These bytes are ASCII,
/// and in UTF-8 an ASCII byte stands only for its own character.
pub open spec fn nesting_within(b: Seq<u8>, limit: nat, depth: nat, in_string: bool, escaped: bool) -> bool
    decreases b.len(),
{
    if b.len() == 0 {
        true
    } else {
        let c = b[0];
        let rest = b.drop_first();
        if in_string {
            nesting_within(rest, limit, depth, escaped || c != QUOTE, !escaped && c == BACKSLASH)
        } else if c == QUOTE {
            nesting_within(rest, limit, depth, true, false)
        } else if c == OPEN_BRACKET || c == OPEN_BRACE {
            depth < limit && nesting_within(rest, limit, depth + 1, false, false)
        } else if c == CLOSE_BRACKET || c == CLOSE_BRACE {
            nesting_within(rest, limit, if depth > 0 { (depth - 1) as nat } else { 0 }, false, false)
        } else {
            nesting_within(rest, limit, depth, false, false)
        }
    }
}

/// Whether the line `line` nests JSON arrays and objects no deeper than
/// [`MAX_JSON_DEPTH`].
pub open spec fn shallow_json(line: Seq<char>) -> bool {
    nesting_within(encode_utf8(line), MAX_JSON_DEPTH as nat, 0, false, false)
}

/// Whether the line `line` holds no line break but, perhaps, a last one. The
/// line break is ASCII, and in UTF-8 an ASCII byte stands only for itself.
pub open spec fn single_line(line: Seq<char>) -> bool {
    forall|k: int| 0 <= k < encode_utf8(line).len() - 1 ==> encode_utf8(line)[k] != NEWLINE
}

/// The line `line` without its last line break, if it ends in one.
pub open spec fn without_line_break(line: Seq<char>) -> Seq<char> {
    if line.len() > 0 && line.last() == '\n' {
        line.drop_last()
    } else {
        line
    }
}

/// The event that one element of Cargo's stream stands for. A single line,
/// shallow enough to be read, is read as a Cargo message; anything else is
/// kept whole as free text, as a line that is no message would be.
pub open spec fn line_event(line: Seq<char>) -> EventView {
    if single_line(line) && shallow_json(line) {
        event_of(line)
    } else {
        EventView::FreeText { text: without_line_break(line) }
    }
}

/// Relies on `cargo_metadata::Message::parse_stream` to read the first line of
/// `line`: a JSON Cargo message, or else the text of the line itself. That
/// reader turns off serde_json's recursion limit, hence the bound on nesting.
#[verifier::external_body]
fn parse_line(line: &str) -> (r: BuildEvent)
    requires
        shallow_json(line@),
    ensures
        r@ == event_of(line@),
{
    match Message::parse_stream(line.as_bytes()).next() {
        Some(Ok(Message::CompilerArtifact(a))) => BuildEvent::ArtifactProduced {
            target_name: a.target.name,
            target_kind: a.target.kind,
            executable: a.executable.map(String::from),
        },
        Some(Ok(Message::CompilerMessage(m))) => BuildEvent::DiagnosticMessage { rendered: m.to_string() },
        Some(Ok(Message::TextLine(t))) => BuildEvent::FreeText { text: t },
        Some(Ok(Message::BuildFinished(b))) => BuildEvent::BuildFinished { success: b.success },
        _ => BuildEvent::Other,
    }
}

/// Whether `line` nests JSON arrays and objects no deeper than
/// [`MAX_JSON_DEPTH`].
pub fn is_shallow_json(line: &str) -> (r: bool)
    ensures
        r == shallow_json(line@),
{
    let bytes = line.as_bytes();
    let ghost all = bytes@;
    let limit = MAX_JSON_DEPTH;
    let mut i: usize = 0;
    let mut depth: usize = 0;
    let mut in_string = false;
    let mut escaped = false;
    assert(all.skip(0) =~= all);
    while i < bytes.len()
        invariant
            all == bytes@,
            all == encode_utf8(line@),
            i <= all.len(),
            depth <= limit,
            limit == MAX_JSON_DEPTH,
            nesting_within(all, limit as nat, 0, false, false) == nesting_within(
                all.skip(i as int),
                limit as nat,
                depth as nat,
                in_string,
                escaped,
            ),
        decreases all.len() - i,
    {
        let c = bytes[i];
        proof {
            assert(all.skip(i as int).drop_first() =~= all.skip(i + 1));
            assert(all.skip(i as int)[0] == c);
        }
        if in_string {
            let was_escaped = escaped;
            in_string = was_escaped || c != QUOTE;
            escaped = !was_escaped && c == BACKSLASH;
        } else if c == QUOTE {
            in_string = true;
            escaped = false;
        } else if c == OPEN_BRACKET || c == OPEN_BRACE {
            if depth >= limit {
                return false;
            }
            depth = depth + 1;
            escaped = false;
        } else if c == CLOSE_BRACKET || c == CLOSE_BRACE {
            if depth > 0 {
                depth = depth - 1;
            }
            escaped = false;
        } else {
            escaped = false;
        }
        i += 1;
    }
    proof {
        assert(all.skip(i as int).len() == 0);
    }
    true
}

/// Whether `line` holds no line break but, perhaps, a last one.
fn is_single_line(line: &str) -> (r: bool)
    ensures
        r == single_line(line@),
{
    let bytes = line.as_bytes();
    let n = bytes.len();
    let mut i: usize = 0;
    while n > 0 && i < n - 1
        invariant
            bytes@ == encode_utf8(line@),
            n == bytes@.len(),
            i <= n,
            forall|k: int| 0 <= k < i ==> bytes@[k] != NEWLINE,
        decreases n - i,
    {
        if bytes[i] == NEWLINE {
            return false;
        }
        i += 1;
    }
    true
}

/// `line` without its last line break, if it ends in one.
fn strip_line_break(line: &str) -> (r: String)
    ensures
        r@ == without_line_break(line@),
{
    let n = line.unicode_len();
    if n > 0 && line.get_char(n - 1) == '\n' {
        let head = line.substring_char(0, n - 1);
        proof {
            assert(head@ =~= line@.drop_last());
        }
        String::from_str(head)
    } else {
        String::from_str(line)
    }
}

/// Classifies one line of Cargo's stream: a single line, shallow enough to be
/// read, is read as a Cargo message; anything else is kept as free text.
pub fn classify_line(line: &str) -> (r: BuildEvent)
    ensures
        r@ == line_event(line@),
{
    if is_single_line(line) && is_shallow_json(line) {
        parse_line(line)
    } else {
        BuildEvent::FreeText { text: strip_line_break(line) }
    }
}

} // verus!
