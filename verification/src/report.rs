//! The diagnostic report format: one line per checkpoint holding the label
//! padded to a fixed width, the major and minor fault deltas in decimal, and
//! the caller-supplied "allowed" annotations.  The checkpoints themselves and
//! the annotation each one documents are listed here too.

use vstd::prelude::*;

verus! {

/// Width the label column is padded and truncated to.
pub const LABEL_WIDTH: usize = 30;

/// The character for one decimal digit.
pub open spec fn dec_digit(d: nat) -> char {
    if d == 0 {
        '0'
    } else if d == 1 {
        '1'
    } else if d == 2 {
        '2'
    } else if d == 3 {
        '3'
    } else if d == 4 {
        '4'
    } else if d == 5 {
        '5'
    } else if d == 6 {
        '6'
    } else if d == 7 {
        '7'
    } else if d == 8 {
        '8'
    } else {
        '9'
    }
}

/// Decimal representation of `n`, most significant digit first.
pub open spec fn dec_rep(n: nat) -> Seq<char>
    decreases n,
{
    if n < 10 {
        seq![dec_digit(n)]
    } else {
        dec_rep(n / 10).push(dec_digit(n % 10))
    }
}

/// `n` spaces.
pub open spec fn spaces(n: nat) -> Seq<char> {
    Seq::new(n, |i: int| ' ')
}

/// A label padded on the right with spaces to the report width, and truncated
/// at that width.
pub open spec fn padded_label(label: Seq<char>) -> Seq<char> {
    if label.len() >= LABEL_WIDTH {
        label.subrange(0, LABEL_WIDTH as int)
    } else {
        label + spaces((LABEL_WIDTH - label.len()) as nat)
    }
}

/// One line of the page-fault report: the padded label, then both fault
/// deltas, each with its "allowed" annotation.
pub open spec fn report_line(
    label: Seq<char>,
    maj_delta: nat,
    allowed_maj: Seq<char>,
    min_delta: nat,
    allowed_min: Seq<char>,
) -> Seq<char> {
    padded_label(label) + ": Pagefaults, Major:"@ + dec_rep(maj_delta) + " (Allowed "@
        + allowed_maj + "), Minor:"@ + dec_rep(min_delta) + " (Allowed "@ + allowed_min + ")"@
}

/// Relies on String::push: appends the given character to the end of the
/// string.
#[verifier::external_body]
fn string_push(s: &mut String, c: char)
    ensures
        final(s)@ == old(s)@.push(c),
{
    s.push(c);
}

/// Relies on String::push_str: appends the given string slice to the end of
/// the string.
#[verifier::external_body]
fn string_push_str(s: &mut String, t: &str)
    ensures
        final(s)@ == old(s)@ + t@,
{
    s.push_str(t);
}

fn digit_char(d: u64) -> (c: char)
    requires
        d < 10,
    ensures
        c == dec_digit(d as nat),
{
    if d == 0 {
        '0'
    } else if d == 1 {
        '1'
    } else if d == 2 {
        '2'
    } else if d == 3 {
        '3'
    } else if d == 4 {
        '4'
    } else if d == 5 {
        '5'
    } else if d == 6 {
        '6'
    } else if d == 7 {
        '7'
    } else if d == 8 {
        '8'
    } else {
        '9'
    }
}

/// Decimal digits of `n`, most significant first.
pub fn u64_digits(n: u64) -> (digits: Vec<char>)
    ensures
        digits@ == dec_rep(n as nat),
    decreases n,
{
    if n < 10 {
        let mut v: Vec<char> = Vec::new();
        v.push(digit_char(n));
        proof {
            assert(v@ =~= dec_rep(n as nat));
        }
        v
    } else {
        let mut v = u64_digits(n / 10);
        v.push(digit_char(n % 10));
        proof {
            assert(v@ =~= dec_rep(n as nat));
        }
        v
    }
}

fn push_u64(out: &mut String, n: u64)
    ensures
        final(out)@ == old(out)@ + dec_rep(n as nat),
{
    let digits = u64_digits(n);
    let mut j: usize = 0;
    while j < digits.len()
        invariant
            j <= digits@.len(),
            digits@ == dec_rep(n as nat),
            out@ == old(out)@ + digits@.subrange(0, j as int),
        decreases digits@.len() - j,
    {
        let c = digits[j];
        string_push(out, c);
        proof {
            assert(digits@.subrange(0, j as int).push(digits@[j as int]) =~= digits@.subrange(
                0,
                j + 1,
            ));
        }
        j = j + 1;
    }
    proof {
        assert(digits@.subrange(0, digits@.len() as int) =~= digits@);
    }
}

fn push_padded_label(out: &mut String, label: &str)
    ensures
        final(out)@ == old(out)@ + padded_label(label@),
{
    let len = label.unicode_len();
    let end = if len >= LABEL_WIDTH {
        LABEL_WIDTH
    } else {
        len
    };
    let mut k: usize = 0;
    while k < end
        invariant
            k <= end,
            end == if label@.len() >= LABEL_WIDTH {
                LABEL_WIDTH as int
            } else {
                label@.len() as int
            },
            out@ == old(out)@ + label@.subrange(0, k as int),
        decreases end - k,
    {
        let c = label.get_char(k);
        string_push(out, c);
        proof {
            assert(label@.subrange(0, k as int).push(label@[k as int]) =~= label@.subrange(
                0,
                k + 1,
            ));
        }
        k = k + 1;
    }
    while k < LABEL_WIDTH
        invariant
            end <= k <= LABEL_WIDTH,
            end == if label@.len() >= LABEL_WIDTH {
                LABEL_WIDTH as int
            } else {
                label@.len() as int
            },
            out@ == old(out)@ + label@.subrange(0, end as int) + spaces((k - end) as nat),
        decreases LABEL_WIDTH - k,
    {
        string_push(out, ' ');
        proof {
            assert((label@.subrange(0, end as int) + spaces((k - end) as nat)).push(' ') =~= label@
                .subrange(0, end as int) + spaces((k + 1 - end) as nat));
        }
        k = k + 1;
    }
    proof {
        if label@.len() >= LABEL_WIDTH {
            assert(out@ =~= old(out)@ + padded_label(label@));
        } else {
            assert(label@.subrange(0, label@.len() as int) =~= label@);
            assert(out@ =~= old(out)@ + padded_label(label@));
        }
    }
}

/// Format one report line.  The deltas come from the shadow fault counters;
/// the annotations are the checkpoint's documented expectations.
pub fn format_report_line(
    label: &str,
    maj_delta: u64,
    allowed_maj: &str,
    min_delta: u64,
    allowed_min: &str,
) -> (line: String)
    ensures
        line@ == report_line(label@, maj_delta as nat, allowed_maj@, min_delta as nat, allowed_min@),
{
    let mut line = String::new();
    push_padded_label(&mut line, label);
    string_push_str(&mut line, ": Pagefaults, Major:");
    push_u64(&mut line, maj_delta);
    string_push_str(&mut line, " (Allowed ");
    string_push_str(&mut line, allowed_maj);
    string_push_str(&mut line, "), Minor:");
    push_u64(&mut line, min_delta);
    string_push_str(&mut line, " (Allowed ");
    string_push_str(&mut line, allowed_min);
    string_push_str(&mut line, ")");
    proof {
        assert(line@ =~= report_line(
            label@,
            maj_delta as nat,
            allowed_maj@,
            min_delta as nat,
            allowed_min@,
        ));
    }
    line
}

/// The fixed checkpoints at which the demonstration reports page faults, in
/// the order the orchestrator reaches them.
#[derive(Clone, Copy, PartialEq, Eq, Structural, Debug)]
pub enum Checkpoint {
    Initial,
    AfterMemoryLock,
    FirstReservation,
    SecondReservation,
    ThreadCreation,
    ThreadStackUse,
}

/// The label printed for a checkpoint.
pub open spec fn checkpoint_label(c: Checkpoint) -> Seq<char> {
    match c {
        Checkpoint::Initial => "Initial count"@,
        Checkpoint::AfterMemoryLock => "mlockall() generated"@,
        Checkpoint::FirstReservation => "malloc() and touch generated"@,
        Checkpoint::SecondReservation => "2nd malloc() and use generated"@,
        Checkpoint::ThreadCreation => "Caused by creating thread"@,
        Checkpoint::ThreadStackUse => "Caused by using thread stack"@,
    }
}

/// Whether the checkpoint's documented expectation is exactly zero faults.
/// The second reservation and the stack pre-fault are the proof points of the
/// technique; every other checkpoint allows any count.
pub open spec fn expects_zero(c: Checkpoint) -> bool {
    c == Checkpoint::SecondReservation || c == Checkpoint::ThreadStackUse
}

impl Checkpoint {
    /// The label this checkpoint is reported under.
    pub fn label(&self) -> (s: &'static str)
        ensures
            s@ == checkpoint_label(*self),
    {
        match *self {
            Checkpoint::Initial => "Initial count",
            Checkpoint::AfterMemoryLock => "mlockall() generated",
            Checkpoint::FirstReservation => "malloc() and touch generated",
            Checkpoint::SecondReservation => "2nd malloc() and use generated",
            Checkpoint::ThreadCreation => "Caused by creating thread",
            Checkpoint::ThreadStackUse => "Caused by using thread stack",
        }
    }

    /// The "allowed" annotation this checkpoint documents, used for both the
    /// major and the minor count.
    pub fn allowed(&self) -> (s: &'static str)
        ensures
            s@ == if expects_zero(*self) {
                "0"@
            } else {
                ">=0"@
            },
    {
        match *self {
            Checkpoint::SecondReservation => "0",
            Checkpoint::ThreadStackUse => "0",
            _ => ">=0",
        }
    }
}

} // verus!
