//! Supervision of the privileged command: each output line becomes an event
//! to publish, and the way the process ended becomes the operation's result.
use vstd::prelude::*;
use vstd::string::*;

verus! {

/// Event that carries a line of the command's standard output.
pub const LOG_EVENT: &'static str = "mysql-install-log";

/// Event that carries a line of the command's standard error.
pub const ERROR_EVENT: &'static str = "mysql-install-error";

/// Prefix of a relayed standard-output line.
pub const LOG_PREFIX: &'static str = "[MySQL Installation] ";

/// Prefix of a relayed standard-error line.
pub const ERROR_PREFIX: &'static str = "[MySQL Installation Error] ";

/// Start of the message for a non-zero exit code; the code follows it.
pub const EXIT_FAILURE_PREFIX: &'static str = "Command failed with exit code ";

/// End of the message for a non-zero exit code.
pub const EXIT_FAILURE_SUFFIX: &'static str = ": MySQL installation";

/// Message for a command that a signal ended.
pub const SIGNAL_MESSAGE: &'static str = "Command was terminated by a signal during MySQL installation";

/// The decimal digit for `d < 10`.
pub open spec fn digit_char(d: nat) -> char {
    seq!['0', '1', '2', '3', '4', '5', '6', '7', '8', '9'][d as int]
}

/// The decimal digits of `n`, without leading zeros.
pub open spec fn digits_of(n: nat) -> Seq<char>
    decreases n,
{
    if n < 10 {
        seq![digit_char(n)]
    } else {
        digits_of(n / 10) + seq![digit_char(n % 10)]
    }
}

/// The decimal text of `n`, with a minus sign when it is negative.
pub open spec fn decimal_of(n: int) -> Seq<char> {
    if n < 0 {
        seq!['-'] + digits_of((-n) as nat)
    } else {
        digits_of(n as nat)
    }
}

/// The decimal digit `d < 10` as a one-character string.
fn digit_text(d: u64) -> (r: String)
    requires
        d < 10,
    ensures
        r@ == seq![digit_char(d as nat)],
{
    let t = if d == 0 {
        "0"
    } else if d == 1 {
        "1"
    } else if d == 2 {
        "2"
    } else if d == 3 {
        "3"
    } else if d == 4 {
        "4"
    } else if d == 5 {
        "5"
    } else if d == 6 {
        "6"
    } else if d == 7 {
        "7"
    } else if d == 8 {
        "8"
    } else {
        "9"
    };
    proof {
        reveal_strlit("0");
        reveal_strlit("1");
        reveal_strlit("2");
        reveal_strlit("3");
        reveal_strlit("4");
        reveal_strlit("5");
        reveal_strlit("6");
        reveal_strlit("7");
        reveal_strlit("8");
        reveal_strlit("9");
    }
    let r = String::from_str(t);
    assert(r@ =~= seq![digit_char(d as nat)]);
    r
}

/// Writes `n` in decimal, with a leading `-` when negative.
pub fn decimal_text(n: i32) -> (r: String)
    ensures
        r@ == decimal_of(n as int),
{
    let wide: i64 = n as i64;
    let magnitude: u64 = if wide < 0 {
        (0 - wide) as u64
    } else {
        wide as u64
    };
    let ghost total = magnitude as nat;
    let mut m: u64 = magnitude;
    let mut acc = String::new();
    if m == 0 {
        acc = digit_text(0);
        assert(acc@ =~= digits_of(0));
    }
    while m > 0
        invariant
            m == 0 ==> acc@ == digits_of(total),
            m > 0 ==> digits_of(total) == digits_of(m as nat) + acc@,
        decreases m,
    {
        let d = m % 10;
        let rest = m / 10;
        let digit = digit_text(d);
        let next = digit.concat(acc.as_str());
        if rest > 0 {
            assert(digits_of(m as nat) == digits_of(rest as nat) + seq![digit_char(d as nat)]);
            assert(digits_of(total) =~= digits_of(rest as nat) + next@);
        } else {
            assert(next@ =~= digits_of(m as nat) + acc@);
        }
        acc = next;
        m = rest;
    }
    if wide < 0 {
        let signed = String::from_str("-").concat(acc.as_str());
        proof {
            reveal_strlit("-");
        }
        assert(signed@ =~= decimal_of(n as int));
        signed
    } else {
        acc
    }
}

/// What `String::from_utf8_lossy` makes of a line's bytes.
pub uninterp spec fn utf8_lossy(bytes: Seq<u8>) -> Seq<char>;

/// Relies on `String::from_utf8_lossy`: the text depends on the bytes alone.
#[verifier::external_body]
fn lossy_text(bytes: &[u8]) -> (r: String)
    ensures
        r@ == utf8_lossy(bytes@),
{
    String::from_utf8_lossy(bytes).into_owned()
}

/// One observation of the supervised process.
pub enum ProcessEvent {
    /// A line of standard output.
    Stdout(Vec<u8>),
    /// A line of standard error.
    Stderr(Vec<u8>),
    /// The process ended, with its exit code, or none when a signal ended it.
    Terminated(Option<i32>),
    /// Anything else the runner reports; it is ignored.
    Other,
}

/// What the relay does with one event.
pub enum RelayAction {
    /// Publish `payload` on `event`, then go on.
    Publish { event: String, payload: String },
    /// Nothing to publish; go on.
    Continue,
    /// Stop: the operation failed with this message.
    Fail(String),
}

/// Message for a command that exited with `code`.
pub open spec fn exit_failure_text(code: int) -> Seq<char> {
    EXIT_FAILURE_PREFIX@ + decimal_of(code) + EXIT_FAILURE_SUFFIX@
}

/// The verdict on how the process ended: success on exit code 0, otherwise
/// the failure message.
pub open spec fn termination_verdict(code: Option<i32>) -> Result<(), Seq<char>> {
    match code {
        Some(c) => if c == 0 {
            Ok(())
        } else {
            Err(exit_failure_text(c as int))
        },
        None => Err(SIGNAL_MESSAGE@),
    }
}

/// Classifies the end of the process: exit code 0 succeeds, any other code
/// fails with a message naming it, and an end by signal fails with a message
/// of its own.
pub fn classify_termination(code: Option<i32>) -> (r: Result<(), String>)
    ensures
        match termination_verdict(code) {
            Ok(()) => r is Ok,
            Err(m) => r matches Err(s) && s@ == m,
        },
{
    match code {
        Some(c) => {
            if c == 0 {
                Ok(())
            } else {
                let msg = String::from_str(EXIT_FAILURE_PREFIX);
                let digits = decimal_text(c);
                let msg = msg.concat(digits.as_str());
                let msg = msg.concat(EXIT_FAILURE_SUFFIX);
                Err(msg)
            }
        },
        None => Err(String::from_str(SIGNAL_MESSAGE)),
    }
}

/// Publishes one decoded output line: a standard-error line goes on the
/// error event with the error prefix, a standard-output line on the log
/// event with the log prefix.
pub fn publish_line(from_stderr: bool, text: &str) -> (r: RelayAction)
    ensures
        from_stderr ==> (r matches RelayAction::Publish { event: e, payload: p } && e@ == ERROR_EVENT@
            && p@ == ERROR_PREFIX@ + text@),
        !from_stderr ==> (r matches RelayAction::Publish { event: e, payload: p } && e@ == LOG_EVENT@
            && p@ == LOG_PREFIX@ + text@),
{
    if from_stderr {
        let payload = String::from_str(ERROR_PREFIX).concat(text);
        RelayAction::Publish { event: String::from_str(ERROR_EVENT), payload }
    } else {
        let payload = String::from_str(LOG_PREFIX).concat(text);
        RelayAction::Publish { event: String::from_str(LOG_EVENT), payload }
    }
}

/// Decides what to do with one event of the supervised process: output
/// lines are published with their prefix, standard output on the log event
/// and standard error on the error event; a failed termination stops the
/// relay with its message; a successful one, or any other event, publishes
/// nothing.
pub fn relay_step(event: &ProcessEvent) -> (r: RelayAction)
    ensures
        match *event {
            ProcessEvent::Stdout(line) => r matches RelayAction::Publish { event: e, payload: p }
                && e@ == LOG_EVENT@ && p@ == LOG_PREFIX@ + utf8_lossy(line@),
            ProcessEvent::Stderr(line) => r matches RelayAction::Publish { event: e, payload: p }
                && e@ == ERROR_EVENT@ && p@ == ERROR_PREFIX@ + utf8_lossy(line@),
            ProcessEvent::Terminated(code) => match termination_verdict(code) {
                Ok(()) => r is Continue,
                Err(m) => r matches RelayAction::Fail(s) && s@ == m,
            },
            ProcessEvent::Other => r is Continue,
        },
{
    match event {
        ProcessEvent::Stdout(line) => publish_line(false, lossy_text(line.as_slice()).as_str()),
        ProcessEvent::Stderr(line) => publish_line(true, lossy_text(line.as_slice()).as_str()),
        ProcessEvent::Terminated(code) => match classify_termination(*code) {
            Ok(()) => RelayAction::Continue,
            Err(m) => RelayAction::Fail(m),
        },
        ProcessEvent::Other => RelayAction::Continue,
    }
}

/// Exit code 0 is a success with nothing to report; any other exit code
/// fails with a message that holds the code in decimal; an end by signal
/// fails with a message that no exit code produces.
pub proof fn lemma_termination_verdicts(code: i32)
    ensures
        code == 0 ==> termination_verdict(Some(code)) is Ok,
        code != 0 ==> termination_verdict(Some(code)) == Err::<(), Seq<char>>(exit_failure_text(code as int)),
        exists|k: int|
            0 <= k && k + decimal_of(code as int).len() <= exit_failure_text(code as int).len()
                && #[trigger] exit_failure_text(code as int).subrange(k, k + decimal_of(code as int).len())
                == decimal_of(code as int),
        termination_verdict(None) != termination_verdict(Some(code)),
{
    let d = decimal_of(code as int);
    let t = exit_failure_text(code as int);
    let k = EXIT_FAILURE_PREFIX@.len() as int;
    assert(t.subrange(k, k + d.len()) =~= d);
    reveal_strlit("Command failed with exit code ");
    reveal_strlit("Command was terminated by a signal during MySQL installation");
    assert(t[8] == 'f');
    assert(SIGNAL_MESSAGE@[8] == 'w');
}

/// Whether the version probe shows the tool installed: `exit` is `None` when
/// the probe could not be launched, else the exit code it ended with (none
/// when a signal ended it). Only a launched probe that exited with 0 counts.
pub fn probe_reports_installed(exit: Option<Option<i32>>) -> (r: bool)
    ensures
        r == (exit == Some(Some(0i32))),
{
    match exit {
        Some(Some(c)) => c == 0,
        _ => false,
    }
}

} // verus!
