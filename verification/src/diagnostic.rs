//! Errors found in a program, and the text they are shown as.

use vstd::prelude::*;
use vstd::string::*;
use crate::span::Span;
use crate::text::{chars_of, decimal_text, push_decimal, push_wide_decimal};

verus! {

/// The mathematical form of a diagnostic.
pub struct DiagnosticModel {
    pub message: Seq<char>,
    pub span: Span,
    pub hint: Option<(Seq<char>, Span)>,
}

/// An error found in a program, with the place it was found at and, optionally,
/// a hint with a place of its own.
#[derive(Debug, Clone)]
pub struct Diagnostic {
    pub message: String,
    pub span: Span,
    pub hint: Option<(String, Span)>,
}

impl View for Diagnostic {
    type V = DiagnosticModel;

    open spec fn view(&self) -> DiagnosticModel {
        DiagnosticModel {
            message: self.message@,
            span: self.span,
            hint: match self.hint {
                Some((text, span)) => Some((text@, span)),
                None => None,
            },
        }
    }
}

/// The diagnostic that carries `message` for `span`, without a hint.
pub open spec fn error_at(message: Seq<char>, span: Span) -> DiagnosticModel {
    DiagnosticModel { message, span, hint: None }
}

/// The mathematical forms of the diagnostics in `ds`, in order.
pub open spec fn diagnostics_of(ds: Seq<Diagnostic>) -> Seq<DiagnosticModel> {
    Seq::new(ds.len(), |i: int| ds[i]@)
}

impl Diagnostic {
    /// A diagnostic without a hint.
    pub fn report_error(message: String, span: Span) -> (r: Diagnostic)
        ensures
            r@ == error_at(message@, span),
    {
        Diagnostic { message, span, hint: None }
    }

    /// A diagnostic with a hint.
    pub fn report_error_with_hint(message: String, span: Span, hint: (String, Span)) -> (r:
        Diagnostic)
        ensures
            r@ == (DiagnosticModel { message: message@, span, hint: Some((hint.0@, hint.1)) }),
    {
        Diagnostic { message, span, hint: Some(hint) }
    }

    /// A copy of this diagnostic.
    pub fn duplicate(&self) -> (r: Diagnostic)
        ensures
            r@ == self@,
    {
        let hint = match &self.hint {
            Some((text, span)) => Some((text.clone(), *span)),
            None => None,
        };
        Diagnostic { message: self.message.clone(), span: self.span, hint }
    }
}

/// Appends `d` to `ds`.
pub fn push_diagnostic(ds: &mut Vec<Diagnostic>, d: Diagnostic)
    ensures
        diagnostics_of(final(ds)@) == diagnostics_of(old(ds)@).push(d@),
{
    ds.push(d);
    assert(diagnostics_of(ds@) =~= diagnostics_of(old(ds)@).push(d@));
}

/// The position at which the line that holds position `at` starts.
pub open spec fn line_start(source: Seq<char>, at: nat) -> nat
    decreases at,
{
    if at == 0 || at > source.len() {
        0
    } else if source[at - 1] == '\n' {
        at
    } else {
        line_start(source, (at - 1) as nat)
    }
}

/// The position at which the line that holds position `at` ends: that of its line
/// feed, or the end of the source.
pub open spec fn line_end(source: Seq<char>, at: nat) -> nat
    decreases source.len() - at,
{
    if at >= source.len() {
        source.len()
    } else if source[at as int] == '\n' {
        at
    } else {
        line_end(source, at + 1)
    }
}

/// The number of line feeds before position `at`.
pub open spec fn lines_before(source: Seq<char>, at: nat) -> nat
    decreases at,
{
    if at == 0 || at > source.len() {
        0
    } else {
        lines_before(source, (at - 1) as nat) + if source[at - 1] == '\n' {
            1nat
        } else {
            0nat
        }
    }
}

/// `n` times the text `unit`.
pub open spec fn repeated(unit: Seq<char>, n: nat) -> Seq<char>
    decreases n,
{
    if n == 0 {
        Seq::empty()
    } else {
        repeated(unit, (n - 1) as nat) + unit
    }
}

/// The text of the line that holds position `at`, without its line feed and without
/// a carriage return before it.
pub open spec fn line_text(source: Seq<char>, at: nat) -> Seq<char> {
    let start = line_start(source, at);
    let end = line_end(source, at);
    if start < end && source[end - 1] == '\r' {
        source.subrange(start as int, end - 1)
    } else {
        source.subrange(start as int, end as int)
    }
}

/// The number of carets under a span of `length` characters that starts at column
/// `column`, counted from zero, of a line of `width` characters: the length of the
/// span, cut off at the end of the line, and at least one.
pub open spec fn marker_length(column: nat, length: nat, width: nat) -> nat {
    let wanted = if column + length > width {
        if width > column {
            (width - column) as nat
        } else {
            0
        }
    } else {
        length
    };
    if wanted < 1 {
        1
    } else {
        wanted
    }
}

/// The text shown for `message` at `span` of `source`, the text of the file `filename`.
///
/// Where the span starts inside the source, the message is followed by the file name,
/// the line number and the column, both counted from one; then come the line, after
/// its number, and under it the carets that mark the span. Where the span starts
/// behind the end of the source, the message stands alone.
pub open spec fn rendered(filename: Seq<char>, source: Seq<char>, message: Seq<char>, span: Span)
    -> Seq<char> {
    let at = span.offset as nat;
    if at > source.len() {
        message
    } else {
        let column = (at - line_start(source, at)) as nat;
        let number = decimal_text(lines_before(source, at) + 1);
        let line = line_text(source, at);
        message + " \x1b[36m"@ + filename + ":"@ + number + ":"@ + decimal_text(column + 1)
            + "\x1b[0m\n "@ + number + "|\t"@ + line + "\n "@ + repeated(" "@, number.len())
            + "|\t\x1b[91m"@ + repeated(" "@, column) + repeated(
            "^"@,
            marker_length(column, span.length as nat, line.len()),
        ) + "\x1b[0m"@
    }
}

/// The text shown for a diagnostic: the error, and the hint after it on a line of
/// its own where there is one.
pub open spec fn diagnostic_text(d: DiagnosticModel, filename: Seq<char>, source: Seq<char>)
    -> Seq<char> {
    let error = rendered(filename, source, "\x1b[1m\x1b[31merror:\x1b[0m "@ + d.message, d.span);
    match d.hint {
        Some((text, span)) => error + "\n"@ + rendered(
            filename,
            source,
            "\x1b[33mhint:\x1b[0m "@ + text,
            span,
        ),
        None => error,
    }
}

/// Appends `n` times the text `unit` to `out`.
fn push_repeated(out: &mut String, unit: &str, n: usize)
    ensures
        final(out)@ == old(out)@ + repeated(unit@, n as nat),
{
    let mut k: usize = 0;
    assert(out@ =~= old(out)@ + repeated(unit@, 0));
    while k < n
        invariant
            k <= n,
            out@ == old(out)@ + repeated(unit@, k as nat),
        decreases n - k,
    {
        out.append(unit);
        k += 1;
        assert(out@ =~= old(out)@ + repeated(unit@, k as nat));
    }
}

impl Diagnostic {
    /// The text shown for this diagnostic, found in `source`, the text of the file
    /// `filename`.
    pub fn display_diagnostic(&self, filename: &str, source: &str) -> (r: String)
        ensures
            r@ == diagnostic_text(self@, filename@, source@),
    {
        let chars = chars_of(source);
        let mut message = String::from_str("\x1b[1m\x1b[31merror:\x1b[0m ");
        message.append(self.message.as_str());
        let mut out = Self::display_message(filename, source, &chars, message, self.span);
        match &self.hint {
            Some((text, span)) => {
                let mut hint = String::from_str("\x1b[33mhint:\x1b[0m ");
                hint.append(text.as_str());
                let shown = Self::display_message(filename, source, &chars, hint, *span);
                out.append("\n");
                out.append(shown.as_str());
                out
            },
            None => out,
        }
    }

    /// The text shown for `message` at `span` of `source`, whose characters are `chars`.
    fn display_message(
        filename: &str,
        source: &str,
        chars: &Vec<char>,
        message: String,
        span: Span,
    ) -> (r: String)
        requires
            chars@ == source@,
        ensures
            r@ == rendered(filename@, source@, message@, span),
    {
        let at: usize = span.offset;
        if at > chars.len() {
            return message;
        }
        let ghost text = source@;
        let mut start: usize = at;
        while start > 0 && chars[start - 1] != '\n'
            invariant
                start <= at <= chars@.len(),
                text == chars@,
                line_start(text, at as nat) == line_start(text, start as nat),
            decreases start,
        {
            start -= 1;
        }
        let mut end: usize = at;
        while end < chars.len() && chars[end] != '\n'
            invariant
                at <= end <= chars@.len(),
                text == chars@,
                line_end(text, at as nat) == line_end(text, end as nat),
            decreases chars@.len() - end,
        {
            end += 1;
        }
        let mut lines: usize = 0;
        let mut k: usize = 0;
        while k < at
            invariant
                k <= at <= chars@.len(),
                text == chars@,
                lines == lines_before(text, k as nat),
                lines <= k,
            decreases at - k,
        {
            if chars[k] == '\n' {
                lines += 1;
            }
            k += 1;
        }
        let shown_end: usize = if start < end && chars[end - 1] == '\r' {
            end - 1
        } else {
            end
        };
        let line = source.substring_char(start, shown_end);
        let column: usize = at - start;
        let width: usize = shown_end - start;
        let wanted: usize = if span.length > width || column > width - span.length {
            if width > column {
                width - column
            } else {
                0
            }
        } else {
            span.length
        };
        let carets: usize = if wanted < 1 {
            1
        } else {
            wanted
        };
        let number = decimal_string_of(lines, 1);
        let mut out = message;
        out.append(" \x1b[36m");
        out.append(filename);
        out.append(":");
        out.append(number.as_str());
        out.append(":");
        push_decimal_of(&mut out, column, 1);
        out.append("\x1b[0m\n ");
        out.append(number.as_str());
        out.append("|\t");
        out.append(line);
        out.append("\n ");
        push_repeated(&mut out, " ", number.as_str().unicode_len());
        out.append("|\t\x1b[91m");
        push_repeated(&mut out, " ", column);
        push_repeated(&mut out, "^", carets);
        out.append("\x1b[0m");
        assert(out@ =~= rendered(filename@, source@, message@, span));
        out
    }
}

/// Appends the decimal text of `n + more` to `out`.
fn push_decimal_of(out: &mut String, n: usize, more: u8)
    ensures
        final(out)@ == old(out)@ + decimal_text((n + more) as nat),
{
    if n <= usize::MAX - more as usize {
        push_decimal(out, n + more as usize);
    } else {
        push_wide_decimal(out, n as u128 + more as u128);
    }
}

/// The decimal text of `n + more`.
fn decimal_string_of(n: usize, more: u8) -> (r: String)
    ensures
        r@ == decimal_text((n + more) as nat),
{
    let mut out = String::new();
    push_decimal_of(&mut out, n, more);
    assert(out@ =~= decimal_text((n + more) as nat));
    out
}

} // verus!
