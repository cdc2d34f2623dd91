//! Rendering of a record into a colorized console line, or into the
//! message that is handed to a structured backend.

use super::severity::Severity;
use vstd::prelude::*;
use vstd::string::StringExecFns;

verus! {

/// The place in the source from which a leveled call was made.
#[derive(Clone, Copy, Debug)]
pub struct Location<'a> {
    pub file: &'a str,
    pub line: u32,
}

impl<'a> Location<'a> {
    /// The file name as text and the line as a number.
    pub open spec fn view(&self) -> (Seq<char>, nat) {
        (self.file@, self.line as nat)
    }
}

/// The view of an optional location.
pub open spec fn location_view(location: Option<Location<'_>>) -> Option<(Seq<char>, nat)> {
    match location {
        Some(l) => Some(l@),
        None => None,
    }
}

/// The ANSI escape sequence that switches to the color of `level`.
pub open spec fn color_spec(level: Severity) -> Seq<char> {
    match level {
        Severity::Trace => "\x1b[95m"@,
        Severity::Debug => "\x1b[96m"@,
        Severity::Info => "\x1b[32m"@,
        Severity::Warn => "\x1b[33m"@,
        Severity::Error => "\x1b[31m"@,
    }
}

/// The bracketed label of `level`, padded to a fixed width.
pub open spec fn label_spec(level: Severity) -> Seq<char> {
    match level {
        Severity::Trace => "[ TRACE]"@,
        Severity::Debug => "[ DEBUG]"@,
        Severity::Info => "[  INFO]"@,
        Severity::Warn => "[  WARN]"@,
        Severity::Error => "[ ERROR]"@,
    }
}

/// The ANSI escape sequence that ends a colored span.
pub open spec fn reset_spec() -> Seq<char> {
    "\x1b[0m"@
}

/// The character of a decimal digit; anything above 8 reads as `'9'`.
pub open spec fn digit_char(d: nat) -> char {
    if d == 0 {
        '0'
    } else if d == 1 {
        '1'
    } else if d == 2 {
        '2'
    } else if d == 3 {
        '3'
    } else if d == 4 {
        '4'
    } else if d == 5 {
        '5'
    } else if d == 6 {
        '6'
    } else if d == 7 {
        '7'
    } else if d == 8 {
        '8'
    } else {
        '9'
    }
}

/// The decimal numeral of `n`, without sign or leading zeros.
pub open spec fn decimal_spec(n: nat) -> Seq<char>
    decreases n,
{
    if n < 10 {
        seq![digit_char(n)]
    } else {
        decimal_spec(n / 10).push(digit_char(n % 10))
    }
}

/// The text ` (file:line)` for a captured location, nothing without one.
pub open spec fn suffix_spec(location: Option<(Seq<char>, nat)>) -> Seq<char> {
    match location {
        Some((file, line)) => " ("@ + file + ":"@ + decimal_spec(line) + ")"@,
        None => Seq::empty(),
    }
}

/// The colorized line of a tagged record: color, label, tag, message, the
/// optional location, and the reset code.
pub open spec fn line_spec(
    level: Severity,
    tag: Seq<char>,
    message: Seq<char>,
    location: Option<(Seq<char>, nat)>,
) -> Seq<char> {
    color_spec(level) + label_spec(level) + " - "@ + tag + " - "@ + message + suffix_spec(location)
        + reset_spec()
}

/// The colorized line of an untagged record. A record without any message
/// is an empty line, with neither color nor label.
pub open spec fn plain_spec(level: Severity, message: Option<Seq<char>>) -> Seq<char> {
    match message {
        Some(m) => color_spec(level) + label_spec(level) + " - "@ + m + reset_spec(),
        None => Seq::empty(),
    }
}

/// The message that a structured backend receives for a tagged record.
pub open spec fn backend_spec(tag: Seq<char>, message: Seq<char>) -> Seq<char> {
    tag + " - "@ + message
}

/// The ANSI escape sequence that switches to the color of `level`.
pub fn color_code(level: Severity) -> (r: &'static str)
    ensures
        r@ == color_spec(level),
{
    match level {
        Severity::Trace => "\x1b[95m",
        Severity::Debug => "\x1b[96m",
        Severity::Info => "\x1b[32m",
        Severity::Warn => "\x1b[33m",
        Severity::Error => "\x1b[31m",
    }
}

/// The bracketed, fixed-width label of `level`.
pub fn label(level: Severity) -> (r: &'static str)
    ensures
        r@ == label_spec(level),
        r@.len() == 8,
{
    proof {
        reveal_strlit("[ TRACE]");
        reveal_strlit("[ DEBUG]");
        reveal_strlit("[  INFO]");
        reveal_strlit("[  WARN]");
        reveal_strlit("[ ERROR]");
    }
    match level {
        Severity::Trace => "[ TRACE]",
        Severity::Debug => "[ DEBUG]",
        Severity::Info => "[  INFO]",
        Severity::Warn => "[  WARN]",
        Severity::Error => "[ ERROR]",
    }
}

/// The ANSI escape sequence that ends a colored span.
pub fn reset_code() -> (r: &'static str)
    ensures
        r@ == reset_spec(),
{
    "\x1b[0m"
}

fn digit_str(d: u32) -> (r: &'static str)
    requires
        d < 10,
    ensures
        r@ == seq![digit_char(d as nat)],
{
    proof {
        reveal_strlit("0");
        reveal_strlit("1");
        reveal_strlit("2");
        reveal_strlit("3");
        reveal_strlit("4");
        reveal_strlit("5");
        reveal_strlit("6");
        reveal_strlit("7");
        reveal_strlit("8");
        reveal_strlit("9");
    }
    let r = if d == 0 {
        "0"
    } else if d == 1 {
        "1"
    } else if d == 2 {
        "2"
    } else if d == 3 {
        "3"
    } else if d == 4 {
        "4"
    } else if d == 5 {
        "5"
    } else if d == 6 {
        "6"
    } else if d == 7 {
        "7"
    } else if d == 8 {
        "8"
    } else {
        "9"
    };
    assert(r@ =~= seq![digit_char(d as nat)]);
    r
}

/// The decimal numeral of `n`.
pub fn decimal(n: u32) -> (r: String)
    ensures
        r@ == decimal_spec(n as nat),
    decreases n,
{
    if n < 10 {
        String::from_str(digit_str(n))
    } else {
        let mut s = decimal(n / 10);
        let d = digit_str(n % 10);
        s.append(d);
        assert(s@ =~= decimal_spec((n / 10) as nat).push(digit_char((n % 10) as nat)));
        s
    }
}

/// The text ` (file:line)` for a captured location, nothing without one.
pub fn location_suffix(location: Option<Location<'_>>) -> (r: String)
    ensures
        r@ == suffix_spec(location_view(location)),
{
    match location {
        Some(l) => {
            let mut s = String::from_str(" (");
            s.append(l.file);
            s.append(":");
            let line = decimal(l.line);
            s.append(line.as_str());
            s.append(")");
            s
        },
        None => {
            let s = String::new();
            assert(s@ =~= Seq::<char>::empty());
            s
        },
    }
}

/// Renders a tagged record as a colorized console line:
/// `color [label] - tag - message`, then ` (file:line)` where a location
/// is given, then the reset code.
pub fn format_line(level: Severity, tag: &str, message: &str, location: Option<Location<'_>>) -> (r:
    String)
    ensures
        r@ == line_spec(level, tag@, message@, location_view(location)),
{
    let mut s = String::from_str(color_code(level));
    s.append(label(level));
    s.append(" - ");
    s.append(tag);
    s.append(" - ");
    s.append(message);
    let suffix = location_suffix(location);
    s.append(suffix.as_str());
    s.append(reset_code());
    s
}

/// Renders an untagged record as a colorized console line. Without a
/// message the line is empty: a blank line is written, nothing else.
pub fn format_plain(level: Severity, message: Option<&str>) -> (r: String)
    ensures
        r@ == plain_spec(
            level,
            match message {
                Some(m) => Some(m@),
                None => None,
            },
        ),
        message is None ==> r@.len() == 0,
{
    match message {
        Some(m) => {
            let mut s = String::from_str(color_code(level));
            s.append(label(level));
            s.append(" - ");
            s.append(m);
            s.append(reset_code());
            s
        },
        None => {
            let s = String::new();
            assert(s@ =~= Seq::<char>::empty());
            s
        },
    }
}

/// The message handed to a structured backend: `tag - message`, without
/// any color code.
pub fn backend_message(tag: &str, message: &str) -> (r: String)
    ensures
        r@ == backend_spec(tag@, message@),
{
    let mut s = String::from_str(tag);
    s.append(" - ");
    s.append(message);
    s
}

/// A rendered line holds its parts in order: it starts with the color code
/// and the label, ends with the reset code, and the tag comes before the
/// message.
pub proof fn lemma_line_parts_in_order(
    level: Severity,
    tag: Seq<char>,
    message: Seq<char>,
    location: Option<(Seq<char>, nat)>,
)
    ensures
        ({
            let line = line_spec(level, tag, message, location);
            let c = color_spec(level).len() as int;
            let t = c + label_spec(level).len() + 3;
            let m = t + tag.len() + 3;
            let e = m + message.len() + suffix_spec(location).len();
            &&& line.len() == e + reset_spec().len()
            &&& line.subrange(0, c) == color_spec(level)
            &&& line.subrange(c, t - 3) == label_spec(level)
            &&& line.subrange(t, t + tag.len()) == tag
            &&& line.subrange(m, m + message.len()) == message
            &&& line.subrange(e, line.len() as int) == reset_spec()
        }),
{
    reveal_strlit(" - ");
    let line = line_spec(level, tag, message, location);
    let c = color_spec(level).len() as int;
    let t = c + label_spec(level).len() + 3;
    let m = t + tag.len() + 3;
    let e = m + message.len() + suffix_spec(location).len();
    assert(line.subrange(0, c) =~= color_spec(level));
    assert(line.subrange(c, t - 3) =~= label_spec(level));
    assert(line.subrange(t, t + tag.len()) =~= tag);
    assert(line.subrange(m, m + message.len()) =~= message);
    assert(line.subrange(e, line.len() as int) =~= reset_spec());
}

} // verus!
