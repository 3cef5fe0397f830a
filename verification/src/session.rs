//! The countdown that ends a sharing session.
//!
//! The session is a plain state: the seconds that remain.  The program that
//! serves feeds it events and carries out the action that each event gives:
//! it sleeps for a second, or it ends the process.

use vstd::prelude::*;
use crate::text::{decimal, decimal_digits};

verus! {

/// The length of a session where none is chosen: five minutes.
pub const DEFAULT_SESSION_SECS: u64 = 300;

/// What happened since the last action.
#[derive(Clone, Copy, Debug, PartialEq, Eq, Structural)]
pub enum TimerEvent {
    /// Serving has begun.
    Started,
    /// The second that was waited for has passed.
    SecondElapsed,
}

/// What the serving program does next.
#[derive(Clone, Copy, Debug, PartialEq, Eq, Structural)]
pub enum TimerAction {
    /// Show the seconds that remain and wait for one second.
    Wait { remaining: u64 },
    /// End the whole process with a success status, whatever is in flight.
    Expire,
}

/// A running countdown.
#[derive(Clone, Copy, Debug, PartialEq, Eq, Structural)]
pub struct Session {
    /// Seconds until the session ends.
    pub remaining: u64,
}

/// The seconds that remain once another second has passed.
pub open spec fn after_second(remaining: u64) -> u64 {
    if remaining > 0 {
        (remaining - 1) as u64
    } else {
        0
    }
}

/// The seconds that remain once `seconds` seconds have passed.
pub open spec fn after_seconds(remaining: u64, seconds: nat) -> u64
    decreases seconds,
{
    if seconds == 0 {
        remaining
    } else {
        after_second(after_seconds(remaining, (seconds - 1) as nat))
    }
}

/// The seconds that remain after an event.
pub open spec fn after_event(remaining: u64, event: TimerEvent) -> u64 {
    match event {
        TimerEvent::Started => remaining,
        TimerEvent::SecondElapsed => after_second(remaining),
    }
}

/// The action that belongs to a state: the session expires when no second
/// remains, and waits otherwise.
pub open spec fn action_at(remaining: u64) -> TimerAction {
    if remaining == 0 {
        TimerAction::Expire
    } else {
        TimerAction::Wait { remaining }
    }
}

/// A number below one hundred in two digits, with a leading zero where it
/// is below ten.
pub open spec fn two_digits(n: nat) -> Seq<char> {
    seq![decimal_digits()[(n / 10) as int], decimal_digits()[(n % 10) as int]]
}

/// A time of day as `hh:mm:ss`.
pub open spec fn clock(hours: nat, minutes: nat, seconds: nat) -> Seq<char> {
    two_digits(hours) + seq![':'] + two_digits(minutes) + seq![':'] + two_digits(seconds)
}

/// A span of `seconds` seconds as a reader sees it: `hh:mm:ss`, with the
/// whole days in front as `<days>d ` where the span reaches a day.
pub open spec fn clock_text(seconds: nat) -> Seq<char> {
    let days = seconds / 86400;
    let time = clock((seconds / 3600) % 24, (seconds / 60) % 60, seconds % 60);
    if days > 0 {
        decimal(days) + seq!['d', ' '] + time
    } else {
        time
    }
}

/// Formats a span of whole seconds with `indicatif::FormattedDuration`.
///
/// Not verified.  The contract restates what the `Display` impl of
/// `FormattedDuration` writes: seconds, minutes and hours of the span in
/// two digits each, joined by colons, and in front of them the number of
/// whole days followed by `d` and a space where that number is not zero.
#[verifier::external_body]
fn formatted_duration(seconds: u64) -> (label: String)
    ensures
        label@ == clock_text(seconds as nat),
{
    indicatif::FormattedDuration(std::time::Duration::from_secs(seconds)).to_string()
}

impl Session {
    /// Starts a countdown of `seconds` seconds.
    pub fn start(seconds: u64) -> (session: Session)
        ensures
            session.remaining == seconds,
    {
        Session { remaining: seconds }
    }

    /// The session of a serve command: none where the timeout is switched
    /// off, the default length otherwise.
    pub fn for_serving(no_timeout: bool) -> (session: Option<Session>)
        ensures
            no_timeout ==> session is None,
            !no_timeout ==> session == Some(Session { remaining: DEFAULT_SESSION_SECS }),
    {
        if no_timeout {
            None
        } else {
            Some(Session::start(DEFAULT_SESSION_SECS))
        }
    }

    /// The time that remains, as shown to the operator: `00:05:00` for
    /// five minutes.
    pub fn indicator(&self) -> (label: String)
        ensures
            label@ == clock_text(self.remaining as nat),
    {
        formatted_duration(self.remaining)
    }

    /// Whether the session has run out.
    pub fn is_expired(&self) -> (expired: bool)
        ensures
            expired == (self.remaining == 0),
    {
        self.remaining == 0
    }

    /// Takes in an event and says what to do next.  A second that has
    /// passed shortens the session by one; the session expires as soon as
    /// nothing remains.
    pub fn advance(&mut self, event: TimerEvent) -> (action: TimerAction)
        ensures
            final(self).remaining == after_event(old(self).remaining, event),
            action == action_at(final(self).remaining),
    {
        match event {
            TimerEvent::Started => {},
            TimerEvent::SecondElapsed => {
                if self.remaining > 0 {
                    self.remaining = self.remaining - 1;
                }
            },
        }
        if self.remaining == 0 {
            TimerAction::Expire
        } else {
            TimerAction::Wait { remaining: self.remaining }
        }
    }
}

/// A session of `duration` seconds has `duration - seconds` seconds left
/// after `seconds` seconds, and none once its duration has passed.
pub proof fn remaining_counts_down(duration: u64, seconds: nat)
    ensures
        seconds <= duration ==> after_seconds(duration, seconds) == duration - seconds,
        seconds >= duration ==> after_seconds(duration, seconds) == 0,
    decreases seconds,
{
    if seconds > 0 {
        remaining_counts_down(duration, (seconds - 1) as nat);
    }
}

/// A session expires exactly when its duration has passed: it waits after
/// every second before that, and expires after every second from then on.
pub proof fn session_expires_after_its_duration(duration: u64, seconds: nat)
    ensures
        action_at(after_seconds(duration, seconds)) == TimerAction::Expire <==> seconds
            >= duration,
{
    remaining_counts_down(duration, seconds);
}

} // verus!
