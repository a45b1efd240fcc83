//! The desktop notices that the watcher sends, and the decimal rendering of
//! thresholds inside them.
use vstd::prelude::*;
use crate::config::Limits;

verus! {

/// A desktop notice: a title and a body.
pub struct Notice {
    pub title: String,
    pub body: String,
}

/// The character of a decimal digit.
pub open spec fn digit_char(d: nat) -> char {
    ((d + 48) as u32) as char
}

/// The decimal rendering of a natural number, without leading zeros.
pub open spec fn spec_decimal(n: nat) -> Seq<char>
    decreases n,
{
    if n < 10 {
        seq![digit_char(n)]
    } else {
        spec_decimal(n / 10).push(digit_char(n % 10))
    }
}

fn digit_str(d: u8) -> (s: &'static str)
    requires
        d < 10,
    ensures
        s@ == seq![digit_char(d as nat)],
{
    proof {
        reveal_strlit("0");
        reveal_strlit("1");
        reveal_strlit("2");
        reveal_strlit("3");
        reveal_strlit("4");
        reveal_strlit("5");
        reveal_strlit("6");
        reveal_strlit("7");
        reveal_strlit("8");
        reveal_strlit("9");
    }
    match d {
        0 => "0",
        1 => "1",
        2 => "2",
        3 => "3",
        4 => "4",
        5 => "5",
        6 => "6",
        7 => "7",
        8 => "8",
        _ => "9",
    }
}

/// Renders a byte in decimal, as `{}` formatting does.
pub fn decimal_u8(n: u8) -> (s: String)
    ensures
        s@ == spec_decimal(n as nat),
{
    let mut s = String::new();
    if n >= 100 {
        s.append(digit_str(n / 100));
    }
    if n >= 10 {
        s.append(digit_str((n / 10) % 10));
    }
    s.append(digit_str(n % 10));
    proof {
        let m: nat = n as nat;
        if m >= 100 {
            assert(spec_decimal(m / 100) == seq![digit_char(m / 100)]);
            assert((m / 10) / 10 == m / 100);
            assert(spec_decimal(m / 10) == spec_decimal(m / 100).push(digit_char((m / 10) % 10)));
        } else if m >= 10 {
            assert(spec_decimal(m / 10) == seq![digit_char(m / 10)]);
            assert((m / 10) % 10 == m / 10);
        }
    }
    s
}

/// The title of the notice sent when a limit is crossed.
pub open spec fn alarm_title() -> Seq<char> {
    "Hardware limit reached"@
}

/// The body of the notice sent when `limit` is crossed.
pub open spec fn alarm_body(limit: Limits) -> Seq<char> {
    match limit {
        Limits::Cpu { Rate } =>
            "CPU usage crossed the configured limit: "@ + spec_decimal(Rate as nat) + "%"@,
        Limits::Memory { Rate } =>
            "Memory usage crossed the configured limit: "@ + spec_decimal(Rate as nat) + "%"@,
        Limits::Heat { Rate } =>
            "Temperature crossed the configured limit: "@ + spec_decimal(Rate as nat) + "°C"@,
    }
}

/// Builds the notice sent when `limit` is crossed.
pub fn alarm_notice(limit: &Limits) -> (notice: Notice)
    ensures
        notice.title@ == alarm_title(),
        notice.body@ == alarm_body(*limit),
{
    let title = String::from_str("Hardware limit reached");
    let mut body;
    match limit {
        Limits::Cpu { Rate } => {
            body = String::from_str("CPU usage crossed the configured limit: ");
            body.append(decimal_u8(*Rate).as_str());
            body.append("%");
        },
        Limits::Memory { Rate } => {
            body = String::from_str("Memory usage crossed the configured limit: ");
            body.append(decimal_u8(*Rate).as_str());
            body.append("%");
        },
        Limits::Heat { Rate } => {
            body = String::from_str("Temperature crossed the configured limit: ");
            body.append(decimal_u8(*Rate).as_str());
            body.append("°C");
        },
    }
    Notice { title, body }
}

/// The title of the notice sent when a start request stops a running watch.
pub open spec fn stop_title() -> Seq<char> {
    "Stop"@
}

/// The body of the notice sent when a start request stops a running watch.
pub open spec fn stop_body() -> Seq<char> {
    "App was already running in background, now it's stopped."@
}

/// Builds the notice sent when a start request stops a running watch.
pub fn stop_notice() -> (notice: Notice)
    ensures
        notice.title@ == stop_title(),
        notice.body@ == stop_body(),
{
    Notice {
        title: String::from_str("Stop"),
        body: String::from_str("App was already running in background, now it's stopped."),
    }
}

} // verus!
