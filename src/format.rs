//! The last stages of the formatting pipeline: the outcome of the external
//! `rustfmt` (run by the caller), and the raw text where a failure of the
//! formatter is tolerated.
use vstd::prelude::*;

verus! {

/// What running `rustfmt` on the text came to.
#[derive(Debug, Clone, PartialEq, Eq)]
pub enum RustfmtOutcome {
    /// It exited successfully with this output.
    Formatted { stdout: Vec<u8> },
    /// It exited unsuccessfully, with this exit code (if any) and error output.
    Failed { code: Option<i32>, stderr: String },
    /// It could not be started.
    Unavailable { reason: String },
}

/// Why formatting failed where failure is not tolerated.
#[derive(Debug, Clone, PartialEq, Eq)]
pub enum FormatError {
    /// `rustfmt` exited unsuccessfully.
    Failed { code: Option<i32>, stderr: String },
    /// `rustfmt` could not be started.
    Unavailable { reason: String },
}

/// The content that a `rustfmt` outcome leaves, or the error it is.
pub open spec fn finish_rustfmt_spec(raw: Seq<u8>, allow_failure: bool, outcome: RustfmtOutcome) -> Result<Seq<u8>, FormatError> {
    match outcome {
        RustfmtOutcome::Formatted { stdout } => Ok(stdout@),
        RustfmtOutcome::Failed { code, stderr } => if allow_failure {
            Ok(raw)
        } else {
            Err(FormatError::Failed { code, stderr })
        },
        RustfmtOutcome::Unavailable { reason } => if allow_failure {
            Ok(raw)
        } else {
            Err(FormatError::Unavailable { reason })
        },
    }
}

/// Decides what a `rustfmt` run on `raw` leaves: its output when it
/// succeeded; otherwise `raw` itself where failure is tolerated, and the
/// error where it is not.
pub fn finish_rustfmt(raw: &[u8], allow_failure: bool, outcome: RustfmtOutcome) -> (r: Result<Vec<u8>, FormatError>)
    ensures
        match (r, finish_rustfmt_spec(raw@, allow_failure, outcome)) {
            (Ok(v), Ok(w)) => v@ == w,
            (Err(e), Err(f)) => e == f,
            _ => false,
        },
{
    match outcome {
        RustfmtOutcome::Formatted { stdout } => Ok(stdout),
        RustfmtOutcome::Failed { code, stderr } => if allow_failure {
            Ok(vstd::slice::slice_to_vec(raw))
        } else {
            Err(FormatError::Failed { code, stderr })
        },
        RustfmtOutcome::Unavailable { reason } => if allow_failure {
            Ok(vstd::slice::slice_to_vec(raw))
        } else {
            Err(FormatError::Unavailable { reason })
        },
    }
}

/// The decimal digits of a natural number.
pub open spec fn decimal(n: nat) -> Seq<char>
    decreases n,
{
    if n < 10 {
        seq![crate::naming::hex_digit(n as u8)]
    } else {
        decimal(n / 10).push(crate::naming::hex_digit((n % 10) as u8))
    }
}

/// An exit code as text; a missing code reads as `-1`.
pub open spec fn exit_code_text(code: Option<i32>) -> Seq<char> {
    let v: int = match code {
        Some(c) => c as int,
        None => -1,
    };
    if v < 0 {
        seq!['-'] + decimal((-v) as nat)
    } else {
        decimal(v as nat)
    }
}

fn push_decimal(s: &mut String, n: u64)
    ensures
        final(s)@ == old(s)@ + decimal(n as nat),
    decreases n,
{
    if n < 10 {
        s.push(crate::naming::hex_char(n as u8));
    } else {
        push_decimal(s, n / 10);
        s.push(crate::naming::hex_char((n % 10) as u8));
    }
}

impl FormatError {
    pub open spec fn message_spec(&self) -> Seq<char> {
        match self {
            FormatError::Failed { code, stderr } => "rustfmt failed with exit code "@ + exit_code_text(*code) + "\nstderr: "@ + stderr@,
            FormatError::Unavailable { reason } => "rustfmt could not be started: "@ + reason@,
        }
    }

    /// A description of the error for people.
    pub fn message(&self) -> (r: String)
        ensures
            r@ == self.message_spec(),
    {
        match self {
            FormatError::Failed { code, stderr } => {
                let mut s = String::from_str("rustfmt failed with exit code ");
                let v: i64 = match code {
                    Some(c) => *c as i64,
                    None => -1,
                };
                if v < 0 {
                    s.push('-');
                    push_decimal(&mut s, (-v) as u64);
                } else {
                    push_decimal(&mut s, v as u64);
                }
                s.append("\nstderr: ");
                s.append(stderr.as_str());
                s
            },
            FormatError::Unavailable { reason } => {
                let mut s = String::from_str("rustfmt could not be started: ");
                s.append(reason.as_str());
                s
            },
        }
    }
}

} // verus!
