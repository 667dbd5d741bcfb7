use vstd::prelude::*;

verus! {

/// Why the one-time startup sequence stopped.
#[derive(Clone, Debug)]
pub enum StartError {
    /// No pre-shared key is configured; nothing was started.
    MissingAuthKey,
    /// The daemon's private directory could not be created.
    CreateDir(String),
    /// The daemon binary could not be started.
    Spawn(String),
    /// The control socket did not appear within the polling budget.
    Timeout,
    /// The companion binary could not be run at all.
    LoginLaunch(String),
    /// The companion exited unsuccessfully: its exit code (-1 where it was
    /// ended by a signal) and what it wrote on standard error.
    Auth { exit_code: i32, stderr: String },
}

pub open spec fn digit_char(d: nat) -> char {
    if d == 0 { '0' }
    else if d == 1 { '1' }
    else if d == 2 { '2' }
    else if d == 3 { '3' }
    else if d == 4 { '4' }
    else if d == 5 { '5' }
    else if d == 6 { '6' }
    else if d == 7 { '7' }
    else if d == 8 { '8' }
    else { '9' }
}

/// Decimal digits of `n`, most significant first, without leading zeros.
pub open spec fn decimal_digits(n: nat) -> Seq<char>
    decreases n,
{
    if n < 10 {
        seq![digit_char(n)]
    } else {
        decimal_digits(n / 10).push(digit_char(n % 10))
    }
}

/// Decimal text of an integer, with a minus sign where it is negative.
pub open spec fn decimal(i: int) -> Seq<char> {
    if i < 0 {
        seq!['-'] + decimal_digits((-i) as nat)
    } else {
        decimal_digits(i as nat)
    }
}

/// The text reported for each failure.
pub open spec fn message_spec(e: StartError) -> Seq<char> {
    match e {
        StartError::MissingAuthKey => "TAILSCALE_AUTH_KEY not found (set env var or apps/desktop/.env)"@,
        StartError::CreateDir(m) => "Failed to create tailscale dir: "@ + m@,
        StartError::Spawn(m) => "Failed to spawn tailscaled sidecar: "@ + m@,
        StartError::Timeout => "Tailscaled socket was not created in time"@,
        StartError::LoginLaunch(m) => "Failed to execute tailscale up: "@ + m@,
        StartError::Auth { exit_code, stderr } => "Tailscale login failed (exit "@ + decimal(
            exit_code as int,
        ) + "): "@ + stderr@,
    }
}

fn digit_str(d: u64) -> (r: &'static str)
    requires
        d < 10,
    ensures
        r@ == seq![digit_char(d as nat)],
{
    proof {
        reveal_strlit("0");
        reveal_strlit("1");
        reveal_strlit("2");
        reveal_strlit("3");
        reveal_strlit("4");
        reveal_strlit("5");
        reveal_strlit("6");
        reveal_strlit("7");
        reveal_strlit("8");
        reveal_strlit("9");
    }
    let r = if d == 0 { "0" }
    else if d == 1 { "1" }
    else if d == 2 { "2" }
    else if d == 3 { "3" }
    else if d == 4 { "4" }
    else if d == 5 { "5" }
    else if d == 6 { "6" }
    else if d == 7 { "7" }
    else if d == 8 { "8" }
    else { "9" };
    assert(r@ =~= seq![digit_char(d as nat)]);
    r
}

fn push_decimal_digits(n: u64, out: &mut String)
    ensures
        final(out)@ == old(out)@ + decimal_digits(n as nat),
    decreases n,
{
    if n >= 10 {
        push_decimal_digits(n / 10, out);
    }
    out.append(digit_str(n % 10));
    assert(final(out)@ =~= old(out)@ + decimal_digits(n as nat));
}

/// Appends the decimal text of `i` to `out`.
pub fn push_decimal(i: i32, out: &mut String)
    ensures
        final(out)@ == old(out)@ + decimal(i as int),
{
    if i < 0 {
        proof {
            reveal_strlit("-");
        }
        out.append("-");
        let magnitude: u64 = (0i64 - i as i64) as u64;
        push_decimal_digits(magnitude, out);
    } else {
        push_decimal_digits(i as u64, out);
    }
    assert(final(out)@ =~= old(out)@ + decimal(i as int));
}

impl StartError {
    /// A description fit for the log. The pre-shared key never appears in it.
    pub fn message(&self) -> (r: String)
        ensures
            r@ == message_spec(*self),
    {
        match self {
            StartError::MissingAuthKey => String::from_str(
                "TAILSCALE_AUTH_KEY not found (set env var or apps/desktop/.env)",
            ),
            StartError::CreateDir(m) => String::from_str("Failed to create tailscale dir: ").concat(
                m.as_str(),
            ),
            StartError::Spawn(m) => String::from_str("Failed to spawn tailscaled sidecar: ").concat(
                m.as_str(),
            ),
            StartError::Timeout => String::from_str("Tailscaled socket was not created in time"),
            StartError::LoginLaunch(m) => String::from_str("Failed to execute tailscale up: ").concat(
                m.as_str(),
            ),
            StartError::Auth { exit_code, stderr } => {
                let mut r = String::from_str("Tailscale login failed (exit ");
                push_decimal(*exit_code, &mut r);
                r.append("): ");
                r.append(stderr.as_str());
                r
            },
        }
    }
}

} // verus!
