//! Notification text for the webhook messages.
//!
//! A clock-in message carries a title and a date/time block; a clock-out
//! message adds the verbose elapsed time and either a newline-joined dump of
//! the session logs or a placeholder when none exist. The library builds the
//! exact text; delivery is the caller's business.

use vstd::prelude::*;

verus! {

/// The entries of `s` joined with a single newline between neighbours.
pub open spec fn joined(s: Seq<Seq<char>>) -> Seq<char>
    decreases s.len(),
{
    if s.len() == 0 {
        Seq::empty()
    } else if s.len() == 1 {
        s[0]
    } else {
        joined(s.drop_last()) + "\n"@ + s.last()
    }
}

/// Join the log entries with newlines.
pub fn join_logs(logs: &Vec<String>) -> (r: String)
    ensures
        r@ == joined(logs.deep_view()),
{
    let ghost all = logs.deep_view();
    let mut r = String::new();
    let mut k: usize = 0;
    while k < logs.len()
        invariant
            k <= logs.len(),
            all == logs.deep_view(),
            r@ == joined(all.take(k as int)),
        decreases logs.len() - k,
    {
        if k > 0 {
            r.append("\n");
        }
        r.append(logs[k].as_str());
        proof {
            assert(all.take(k + 1).drop_last() =~= all.take(k as int));
            assert(all.take(k + 1).last() == all[k as int]);
            assert(all[k as int] == logs@[k as int]@);
            assert(r@ =~= joined(all.take(k + 1)));
        }
        k = k + 1;
    }
    proof {
        assert(all.take(logs@.len() as int) =~= all);
    }
    r
}

/// The clock-in announcement title.
pub open spec fn clock_in_title_spec(username: Seq<char>) -> Seq<char> {
    username + " has clocked in!"@
}

/// The clock-out announcement title.
pub open spec fn clock_out_title_spec(username: Seq<char>) -> Seq<char> {
    username + " has clocked out!"@
}

/// The date/time block shared by both messages.
pub open spec fn session_stamp_spec(date: Seq<char>, time: Seq<char>) -> Seq<char> {
    "\nDate: "@ + date + "\nTime: "@ + time
}

/// The clock-out message body: the date/time block, the total elapsed time,
/// and the logs (newline-joined) or a placeholder when there are none.
pub open spec fn clock_out_body_spec(
    date: Seq<char>,
    time: Seq<char>,
    total: Seq<char>,
    logs: Seq<Seq<char>>,
) -> Seq<char> {
    session_stamp_spec(date, time) + "\n\nTotal Logged Time: "@ + total + "\n\n"@ + if logs.len()
        == 0 {
        "No logs to display."@
    } else {
        "Logs:\n"@ + joined(logs)
    }
}

/// Build the clock-in title for `username`.
pub fn clock_in_title(username: &str) -> (r: String)
    ensures
        r@ == clock_in_title_spec(username@),
{
    let mut r = String::from_str(username);
    r.append(" has clocked in!");
    r
}

/// Build the clock-out title for `username`.
pub fn clock_out_title(username: &str) -> (r: String)
    ensures
        r@ == clock_out_title_spec(username@),
{
    let mut r = String::from_str(username);
    r.append(" has clocked out!");
    r
}

/// Build the clock-in message body from an already rendered date and time.
pub fn clock_in_body(date: &str, time: &str) -> (r: String)
    ensures
        r@ == session_stamp_spec(date@, time@),
{
    let mut r = String::from_str("\nDate: ");
    r.append(date);
    r.append("\nTime: ");
    r.append(time);
    proof {
        assert(r@ =~= session_stamp_spec(date@, time@));
    }
    r
}

/// Build the clock-out message body from an already rendered date, time and
/// verbose total, plus the session logs.
pub fn clock_out_body(date: &str, time: &str, total: &str, logs: &Vec<String>) -> (r: String)
    ensures
        r@ == clock_out_body_spec(date@, time@, total@, logs.deep_view()),
{
    let mut r = String::from_str("\nDate: ");
    r.append(date);
    r.append("\nTime: ");
    r.append(time);
    r.append("\n\nTotal Logged Time: ");
    r.append(total);
    r.append("\n\n");
    if logs.is_empty() {
        r.append("No logs to display.");
        proof {
            assert(logs.deep_view().len() == 0);
            assert(r@ =~= clock_out_body_spec(date@, time@, total@, logs.deep_view()));
        }
    } else {
        r.append("Logs:\n");
        r.append(join_logs(logs).as_str());
        proof {
            assert(logs.deep_view().len() > 0);
            assert(r@ =~= clock_out_body_spec(date@, time@, total@, logs.deep_view()));
        }
    }
    r
}

} // verus!
