//! The reporter: what is written for a section header, for the captured
//! output of a repository and for the summary of a run.
//!
//! Nothing is written here. Each piece of output is an [`Emission`]: the
//! channel it belongs to, the plain text, and the style in which the text is
//! to be shown. [`Emission::render`] turns one into the characters to write.

use colored::Colorize;
use vstd::prelude::*;
use vstd::string::*;

verus! {

/// The two output channels of a process.
#[derive(Clone, Copy, Debug, PartialEq, Eq, Structural)]
pub enum Channel {
    Stdout,
    Stderr,
}

/// How a text is shown. `Plain` text is relayed verbatim. A `Header` is purple
/// and bold. `Failure` (red, italic) and `Success` (green, italic) mark whole
/// lines: a line break follows the styled text.
#[derive(Clone, Copy, Debug, PartialEq, Eq, Structural)]
pub enum Style {
    Plain,
    Header,
    Failure,
    Success,
}

/// One piece of output.
#[derive(Debug, PartialEq, Eq)]
pub struct Emission {
    pub channel: Channel,
    pub style: Style,
    pub text: String,
}

/// The mathematical content of an [`Emission`].
pub struct EmissionView {
    pub channel: Channel,
    pub style: Style,
    pub text: Seq<char>,
}

impl View for Emission {
    type V = EmissionView;

    open spec fn view(&self) -> EmissionView {
        EmissionView { channel: self.channel, style: self.style, text: self.text@ }
    }
}

impl Clone for Emission {
    fn clone(&self) -> (copy: Self)
        ensures
            copy@ == self@,
    {
        Self { channel: self.channel, style: self.style, text: self.text.clone() }
    }
}

/// The content of each emission of a vector, in order.
pub open spec fn emissions_view(emissions: Seq<Emission>) -> Seq<EmissionView> {
    Seq::new(emissions.len(), |i: int| emissions[i]@)
}

/// The parameters of the escape sequence that switches a style on.
pub open spec fn style_code(style: Style) -> Seq<char> {
    match style {
        Style::Plain => Seq::empty(),
        Style::Header => seq!['1', ';', '3', '5'],
        Style::Failure => seq!['3', ';', '3', '1'],
        Style::Success => seq!['3', ';', '3', '2'],
    }
}

/// The escape sequence that switches every style off.
pub open spec fn reset_sequence() -> Seq<char> {
    seq!['\u{1b}', '[', '0', 'm']
}

/// Whether the reset sequence occurs somewhere in `text`.
pub open spec fn contains_reset(text: Seq<char>) -> bool {
    exists|i: int|
        0 <= i && i + 4 <= text.len() && #[trigger] text.subrange(i, i + 4) == reset_sequence()
}

/// The escape sequence that switches `style` on.
pub open spec fn opening_sequence(style: Style) -> Seq<char> {
    seq!['\u{1b}', '['] + style_code(style) + seq!['m']
}

/// `out` is `text` with `style` switched on before it and every style
/// switched off after it. What stands between the two escape sequences is
/// `text` itself, unless `text` holds a reset sequence: of what stands there
/// then, only the least length is stated.
pub open spec fn wrapped(out: Seq<char>, text: Seq<char>, style: Style) -> bool {
    let opening = opening_sequence(style);
    &&& out.len() >= opening.len() + text.len() + reset_sequence().len()
    &&& out.subrange(0, opening.len() as int) == opening
    &&& out.subrange(out.len() - reset_sequence().len(), out.len() as int) == reset_sequence()
    &&& !contains_reset(text) ==> out == opening + text + reset_sequence()
}

/// `out` is a way to show `text` in `style`. Whether colours are used is
/// decided when the text is formatted, by the terminal and by settings such
/// as `NO_COLOR`, so a styled text has two forms: the text as it is, or the
/// text wrapped in escape sequences. This supposes that the decision is not
/// overridden from another thread while one text is being formatted.
pub open spec fn painted(out: Seq<char>, text: Seq<char>, style: Style) -> bool {
    match style {
        Style::Plain => out == text,
        _ => out == text || wrapped(out, text, style),
    }
}

/// `out` is what is written for `emission`.
pub open spec fn rendered(out: Seq<char>, emission: EmissionView) -> bool {
    match emission.style {
        Style::Plain => out == emission.text,
        Style::Header => painted(out, emission.text, Style::Header),
        _ => out.len() > 0 && out.last() == '\n' && painted(
            out.drop_last(),
            emission.text,
            emission.style,
        ),
    }
}

/// Calls `purple` and `bold` of `colored::Colorize` and formats the result.
/// `colored` writes the text unchanged when colours are switched off, and
/// otherwise puts it between `ESC[1;35m` and `ESC[0m`; only in a text that
/// holds a reset sequence it repeats the first of the two after each of them.
#[verifier::external_body]
fn paint_header(text: &str) -> (out: String)
    ensures
        painted(out@, text@, Style::Header),
{
    format!("{}", text.purple().bold())
}

/// Calls `red` and `italic` of `colored::Colorize` and formats the result.
/// `colored` writes the text unchanged when colours are switched off, and
/// otherwise puts it between `ESC[3;31m` and `ESC[0m`; only in a text that
/// holds a reset sequence it repeats the first of the two after each of them.
#[verifier::external_body]
fn paint_failure(text: &str) -> (out: String)
    ensures
        painted(out@, text@, Style::Failure),
{
    format!("{}", text.red().italic())
}

/// Calls `green` and `italic` of `colored::Colorize` and formats the result.
/// `colored` writes the text unchanged when colours are switched off, and
/// otherwise puts it between `ESC[3;32m` and `ESC[0m`; only in a text that
/// holds a reset sequence it repeats the first of the two after each of them.
#[verifier::external_body]
fn paint_success(text: &str) -> (out: String)
    ensures
        painted(out@, text@, Style::Success),
{
    format!("{}", text.green().italic())
}

impl Emission {
    /// The characters to write for this emission on its channel.
    pub fn render(&self) -> (out: String)
        ensures
            rendered(out@, self@),
    {
        match self.style {
            Style::Plain => self.text.clone(),
            Style::Header => paint_header(self.text.as_str()),
            Style::Failure => {
                let body = paint_failure(self.text.as_str());
                let out = body.concat("\n");
                proof {
                    reveal_strlit("\n");
                    assert(out@.drop_last() =~= body@);
                }
                out
            },
            Style::Success => {
                let body = paint_success(self.text.as_str());
                let out = body.concat("\n");
                proof {
                    reveal_strlit("\n");
                    assert(out@.drop_last() =~= body@);
                }
                out
            },
        }
    }
}

/// The line that introduces the output of `label`.
pub open spec fn header_line(label: Seq<char>) -> Seq<char> {
    ":: "@ + label + "\n"@
}

/// The plain text of the section marker for `label`.
pub fn header_text(label: &str) -> (text: String)
    ensures
        text@ == header_line(label@),
{
    let mut text = String::from_str(":: ");
    text.append(label);
    text.append("\n");
    text
}

/// The section marker that identifies the repository whose output follows,
/// styled as a header.
pub fn get_header(label: &str) -> (header: String)
    ensures
        painted(header@, header_line(label@), Style::Header),
{
    let text = header_text(label);
    paint_header(text.as_str())
}

/// The notice that something could not be written.
pub open spec fn display_failure(reason: Seq<char>) -> EmissionView {
    EmissionView {
        channel: Channel::Stderr,
        style: Style::Failure,
        text: "Display failed: "@ + reason,
    }
}

/// The notice that something could not be written, for the reason given.
pub fn display_failed(reason: &str) -> (notice: Emission)
    ensures
        notice@ == display_failure(reason@),
{
    let mut text = String::from_str("Display failed: ");
    text.append(reason);
    Emission { channel: Channel::Stderr, style: Style::Failure, text }
}

/// How many repositories succeeded and how many failed in one dispatch.
#[derive(Clone, Copy, Debug, PartialEq, Eq, Structural)]
pub struct RunSummary {
    pub succeeded: usize,
    pub failed: usize,
}

/// The character for a digit below ten.
pub open spec fn digit(d: nat) -> char {
    if d == 0 {
        '0'
    } else if d == 1 {
        '1'
    } else if d == 2 {
        '2'
    } else if d == 3 {
        '3'
    } else if d == 4 {
        '4'
    } else if d == 5 {
        '5'
    } else if d == 6 {
        '6'
    } else if d == 7 {
        '7'
    } else if d == 8 {
        '8'
    } else {
        '9'
    }
}

/// The decimal numeral of `n`, without leading zeros.
pub open spec fn decimal(n: nat) -> Seq<char>
    decreases n,
{
    if n < 10 {
        seq![digit(n)]
    } else {
        decimal(n / 10).push(digit(n % 10))
    }
}

/// The number that a decimal digit stands for.
pub open spec fn digit_value(c: char) -> nat {
    if c == '1' {
        1
    } else if c == '2' {
        2
    } else if c == '3' {
        3
    } else if c == '4' {
        4
    } else if c == '5' {
        5
    } else if c == '6' {
        6
    } else if c == '7' {
        7
    } else if c == '8' {
        8
    } else if c == '9' {
        9
    } else {
        0
    }
}

/// The number that a sequence of decimal digits stands for.
pub open spec fn numeral_value(digits: Seq<char>) -> nat
    decreases digits.len(),
{
    if digits.len() == 0 {
        0
    } else {
        numeral_value(digits.drop_last()) * 10 + digit_value(digits.last())
    }
}

/// The decimal numeral of a number is made of digits, stands for that number,
/// and begins with a zero only where it is the numeral of zero.
pub proof fn lemma_decimal_denotes(n: nat)
    ensures
        decimal(n).len() >= 1,
        forall|i: int| 0 <= i < decimal(n).len() ==> '0' <= #[trigger] decimal(n)[i] <= '9',
        numeral_value(decimal(n)) == n,
        decimal(n)[0] == '0' <==> n == 0,
    decreases n,
{
    if n < 10 {
        assert(numeral_value(decimal(n).drop_last()) == 0);
    } else {
        lemma_decimal_denotes(n / 10);
        assert(decimal(n).drop_last() =~= decimal(n / 10));
    }
}

/// The text of the summary line for the given counts.
pub open spec fn summary_line(succeeded: nat, failed: nat) -> Seq<char> {
    "\nDone :: "@ + decimal(succeeded) + " succeeded - "@ + decimal(failed) + " failed\n"@
}

/// The emission that closes a run: the counts of both kinds, on the error
/// channel and styled as a failure as soon as one repository failed, on
/// standard output and styled as a success otherwise.
pub open spec fn summary_emission(succeeded: nat, failed: nat) -> EmissionView {
    EmissionView {
        channel: if failed > 0 {
            Channel::Stderr
        } else {
            Channel::Stdout
        },
        style: if failed > 0 {
            Style::Failure
        } else {
            Style::Success
        },
        text: summary_line(succeeded, failed),
    }
}

fn digit_text(d: usize) -> (text: &'static str)
    requires
        d < 10,
    ensures
        text@ == seq![digit(d as nat)],
{
    proof {
        reveal_strlit("0");
        reveal_strlit("1");
        reveal_strlit("2");
        reveal_strlit("3");
        reveal_strlit("4");
        reveal_strlit("5");
        reveal_strlit("6");
        reveal_strlit("7");
        reveal_strlit("8");
        reveal_strlit("9");
    }
    if d == 0 {
        "0"
    } else if d == 1 {
        "1"
    } else if d == 2 {
        "2"
    } else if d == 3 {
        "3"
    } else if d == 4 {
        "4"
    } else if d == 5 {
        "5"
    } else if d == 6 {
        "6"
    } else if d == 7 {
        "7"
    } else if d == 8 {
        "8"
    } else {
        "9"
    }
}

/// Writes `n` as a decimal numeral.
pub fn decimal_text(n: usize) -> (text: String)
    ensures
        text@ == decimal(n as nat),
    decreases n,
{
    if n < 10 {
        String::from_str(digit_text(n))
    } else {
        let mut text = decimal_text(n / 10);
        text.append(digit_text(n % 10));
        text
    }
}

/// The closing report of a run with the given counts.
pub fn summary(success_count: usize, failure_count: usize) -> (emission: Emission)
    ensures
        emission@ == summary_emission(success_count as nat, failure_count as nat),
{
    let mut text = String::from_str("\nDone :: ");
    text.append(decimal_text(success_count).as_str());
    text.append(" succeeded - ");
    text.append(decimal_text(failure_count).as_str());
    text.append(" failed\n");
    if failure_count > 0 {
        Emission { channel: Channel::Stderr, style: Style::Failure, text }
    } else {
        Emission { channel: Channel::Stdout, style: Style::Success, text }
    }
}

impl RunSummary {
    /// The exit status to leave with: zero only if no repository failed.
    pub fn exit_code(&self) -> (code: i32)
        ensures
            code == if self.failed == 0 {
                0i32
            } else {
                1i32
            },
    {
        if self.failed == 0 {
            0
        } else {
            1
        }
    }

    /// The closing report for these counts.
    pub fn report(&self) -> (emission: Emission)
        ensures
            emission@ == summary_emission(self.succeeded as nat, self.failed as nat),
    {
        summary(self.succeeded, self.failed)
    }
}

} // verus!
