//! The record that is emitted when a response arrives with a failure status.

use vstd::prelude::*;
use vstd::string::StringExecFns;

verus! {

/// What is known of a response whose status was outside the success range.
#[derive(Debug, PartialEq, Eq)]
pub struct Diagnostic {
    /// The URL that was asked for.
    pub url: String,
    /// The status of the response.
    pub status: u16,
    /// The body of the response as text, or `None` where it could not be read.
    pub body: Option<String>,
}

/// What a [`Diagnostic`] is, as a mathematical value.
pub struct DiagnosticView {
    pub url: Seq<char>,
    pub status: u16,
    pub body: Option<Seq<char>>,
}

/// The text of an optional string.
pub open spec fn text_view(text: Option<String>) -> Option<Seq<char>> {
    match text {
        Some(t) => Some(t@),
        None => None,
    }
}

impl View for Diagnostic {
    type V = DiagnosticView;

    open spec fn view(&self) -> DiagnosticView {
        DiagnosticView { url: self.url@, status: self.status, body: text_view(self.body) }
    }
}

impl Clone for Diagnostic {
    /// A copy of the record.
    fn clone(&self) -> (copy: Self)
        ensures
            copy@ == self@,
    {
        let body = match &self.body {
            Some(text) => Some(text.clone()),
            None => None,
        };
        Diagnostic { url: self.url.clone(), status: self.status, body }
    }
}

/// The character that stands for the digit `d`, for `d` below ten.
pub open spec fn digit(d: nat) -> char {
    if d == 0 {
        '0'
    } else if d == 1 {
        '1'
    } else if d == 2 {
        '2'
    } else if d == 3 {
        '3'
    } else if d == 4 {
        '4'
    } else if d == 5 {
        '5'
    } else if d == 6 {
        '6'
    } else if d == 7 {
        '7'
    } else if d == 8 {
        '8'
    } else {
        '9'
    }
}

/// `n` written in decimal, without leading zeros.
pub open spec fn decimal(n: nat) -> Seq<char>
    decreases n,
{
    if n < 10 {
        seq![digit(n)]
    } else {
        decimal(n / 10).push(digit(n % 10))
    }
}

impl DiagnosticView {
    /// The line that reports this record: the URL, the status in decimal,
    /// and the body's text or a note that there is none.
    pub open spec fn message(self) -> Seq<char> {
        "Failed to load "@ + self.url + ": "@ + decimal(self.status as nat) + match self.body {
            Some(text) => ", body: "@ + text,
            None => ", body unavailable"@,
        }
    }
}

/// The one-character string for the digit `d`.
fn digit_str(d: u16) -> (s: &'static str)
    requires
        d < 10,
    ensures
        s@ == seq![digit(d as nat)],
{
    proof {
        reveal_strlit("0");
        reveal_strlit("1");
        reveal_strlit("2");
        reveal_strlit("3");
        reveal_strlit("4");
        reveal_strlit("5");
        reveal_strlit("6");
        reveal_strlit("7");
        reveal_strlit("8");
        reveal_strlit("9");
    }
    let s = match d {
        0 => "0",
        1 => "1",
        2 => "2",
        3 => "3",
        4 => "4",
        5 => "5",
        6 => "6",
        7 => "7",
        8 => "8",
        _ => "9",
    };
    assert(s@ =~= seq![digit(d as nat)]);
    s
}

/// Appends `n` in decimal to `out`.
fn push_decimal(out: &mut String, n: u16)
    ensures
        final(out)@ == old(out)@ + decimal(n as nat),
    decreases n,
{
    if n >= 10 {
        push_decimal(out, n / 10);
    }
    out.append(digit_str(n % 10));
    assert(out@ =~= old(out)@ + decimal(n as nat));
}

impl Diagnostic {
    /// The line that reports this record.
    pub fn message(&self) -> (line: String)
        ensures
            line@ == self@.message(),
    {
        let mut line = String::from_str("Failed to load ");
        line.append(self.url.as_str());
        line.append(": ");
        push_decimal(&mut line, self.status);
        match &self.body {
            Some(text) => {
                line.append(", body: ");
                line.append(text.as_str());
            },
            None => {
                line.append(", body unavailable");
            },
        }
        assert(line@ =~= self@.message());
        line
    }
}

} // verus!
