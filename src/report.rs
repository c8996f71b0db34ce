use vstd::prelude::*;
use vstd::string::StringExecFns;

verus! {

/// What the transport answered.
#[derive(Debug, PartialEq, Eq)]
pub enum SendOutcome {
    /// The server accepted the message with this response code.
    Sent(u16),
    /// The transport failed; its description.
    Failed(String),
}

/// The one line the process prints, where it goes, and its exit status.
pub struct Report {
    pub line: String,
    pub to_stdout: bool,
    pub exit_code: i32,
}

/// The decimal digit for `d` (below ten).
pub open spec fn digit_char(d: nat) -> char {
    if d == 0 {
        '0'
    } else if d == 1 {
        '1'
    } else if d == 2 {
        '2'
    } else if d == 3 {
        '3'
    } else if d == 4 {
        '4'
    } else if d == 5 {
        '5'
    } else if d == 6 {
        '6'
    } else if d == 7 {
        '7'
    } else if d == 8 {
        '8'
    } else {
        '9'
    }
}

/// The decimal representation of `n`, without leading zeros.
pub open spec fn decimal(n: nat) -> Seq<char>
    decreases n,
{
    if n < 10 {
        seq![digit_char(n)]
    } else {
        decimal(n / 10) + seq![digit_char(n % 10)]
    }
}

fn digit_text(d: u16) -> (r: &'static str)
    requires
        d < 10,
    ensures
        r@ == seq![digit_char(d as nat)],
{
    proof {
        reveal_strlit("0");
        reveal_strlit("1");
        reveal_strlit("2");
        reveal_strlit("3");
        reveal_strlit("4");
        reveal_strlit("5");
        reveal_strlit("6");
        reveal_strlit("7");
        reveal_strlit("8");
        reveal_strlit("9");
    }
    let r = if d == 0 {
        "0"
    } else if d == 1 {
        "1"
    } else if d == 2 {
        "2"
    } else if d == 3 {
        "3"
    } else if d == 4 {
        "4"
    } else if d == 5 {
        "5"
    } else if d == 6 {
        "6"
    } else if d == 7 {
        "7"
    } else if d == 8 {
        "8"
    } else {
        "9"
    };
    proof {
        assert(r@ =~= seq![digit_char(d as nat)]);
    }
    r
}

/// Appends the decimal representation of `n` to `out`.
pub fn push_decimal(out: &mut String, n: u16)
    ensures
        final(out)@ == old(out)@ + decimal(n as nat),
    decreases n,
{
    if n >= 10 {
        push_decimal(out, n / 10);
    }
    out.append(digit_text(n % 10));
    proof {
        assert(old(out)@ + decimal(n as nat) =~= if n >= 10 {
            old(out)@ + decimal((n / 10) as nat) + seq![digit_char((n % 10) as nat)]
        } else {
            old(out)@ + seq![digit_char((n % 10) as nat)]
        });
    }
}

/// The success line for a response code.
pub open spec fn sent_line(code: u16) -> Seq<char> {
    "Message sent! Server response code "@ + decimal(code as nat)
}

/// The failure line for a transport error.
pub open spec fn failed_line(reason: Seq<char>) -> Seq<char> {
    "Message send failure: "@ + reason
}

/// A success prints the response code on standard output and exits 0; a
/// failure prints the error on the diagnostic stream and exits 1.
pub fn report(outcome: &SendOutcome) -> (r: Report)
    ensures
        outcome matches SendOutcome::Sent(code) ==> r.line@ == sent_line(*code) && r.to_stdout
            && r.exit_code == 0,
        outcome matches SendOutcome::Failed(reason) ==> r.line@ == failed_line(reason@)
            && !r.to_stdout && r.exit_code == 1,
{
    match outcome {
        SendOutcome::Sent(code) => {
            let mut line = "Message sent! Server response code ".to_string();
            push_decimal(&mut line, *code);
            Report { line, to_stdout: true, exit_code: 0 }
        },
        SendOutcome::Failed(reason) => {
            let line = "Message send failure: ".to_string().concat(reason.as_str());
            Report { line, to_stdout: false, exit_code: 1 }
        },
    }
}

} // verus!
