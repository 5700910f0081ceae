//! Scheduling: validation of the user's time or interval text, the choice
//! of schedule, and the text of the scheduler units that run the cycle
//! unattended.
//!
//! Writing the unit files and registering them with the process manager is
//! the unverified shell's job; everything here is pure text.

use vstd::prelude::*;
use vstd::string::StringExecFns;

use crate::errors::PhotoError;
use crate::text::all_digits;
use crate::text::chars_vec;
use crate::text::contains_sub;
use crate::text::dec_val;
use crate::text::find_from;
use crate::text::first_match_from;
use crate::text::has_sub;
use crate::text::is_digit;
use crate::text::lemma_first_match_bounds;
use crate::text::lower;
use crate::text::lower_exec;
use crate::text::parse_usize;
use crate::text::slice_range;
use crate::text::string_of_chars;
use crate::text::trim_bounds;
use crate::text::trimmed;

verus! {

/// When the unattended cycle runs: at a fixed daily time, or every
/// interval.
#[derive(Debug)]
pub enum ScheduleType {
    /// A fixed daily time in `HH:MM` shape.
    DailyTime(String),
    /// An interval such as `1h`, `30m` or `2h30m`.
    Interval(String),
}

/// A well-formed daily time: five characters, one colon with digits on both
/// sides, hour under 24 and minute under 60.
pub open spec fn spec_is_valid_time(s: Seq<char>) -> bool {
    &&& s.len() == 5
    &&& match first_match_from(s, seq![':'], 0) {
        Some(p) => {
            let h = s.take(p);
            let m = s.subrange(p + 1, s.len() as int);
            &&& h.len() > 0
            &&& all_digits(h)
            &&& dec_val(h) < 24
            &&& m.len() > 0
            &&& all_digits(m)
            &&& dec_val(m) < 60
        },
        None => false,
    }
}

/// Validate a daily time in `HH:MM` shape.
pub fn is_valid_time(time: &str) -> (b: bool)
    ensures
        b == spec_is_valid_time(time@),
{
    let v = chars_vec(time);
    if v.len() != 5 {
        return false;
    }
    let mut colon: Vec<char> = Vec::new();
    colon.push(':');
    proof {
        assert(colon@ =~= seq![':']);
        lemma_first_match_bounds(v@, colon@, 0);
    }
    let p = match find_from(&v, &colon, 0) {
        Some(p) => p,
        None => {
            return false;
        },
    };
    proof {
        assert(v@.subrange(0, p as int) =~= v@.take(p as int));
    }
    let hour_ok = match parse_usize(&v, 0, p) {
        Some(h) => h < 24,
        None => false,
    };
    let minute_ok = match parse_usize(&v, p + 1, 5) {
        Some(m) => m < 60,
        None => false,
    };
    hour_ok && minute_ok
}

/// The interval scan: every `h` or `m` unit must follow at least one
/// digit, and nothing but digits and units may occur.
pub open spec fn interval_scan(s: Seq<char>, i: int, has_value: bool) -> bool
    decreases s.len() - i,
{
    if i < 0 || i >= s.len() {
        true
    } else if is_digit(s[i]) {
        interval_scan(s, i + 1, true)
    } else if s[i] == 'h' || s[i] == 'm' {
        has_value && interval_scan(s, i + 1, false)
    } else {
        false
    }
}

/// A well-formed interval: non-empty, mentioning `h` or `m` in lower case,
/// and passing the unit scan after ASCII lowercasing.
pub open spec fn spec_is_valid_interval(s: Seq<char>) -> bool {
    &&& s.len() > 0
    &&& (has_sub(s, seq!['h']) || has_sub(s, seq!['m']))
    &&& interval_scan(lower(s), 0, false)
}

/// Validate an interval such as `1h`, `30m` or `2h30m`.
pub fn is_valid_interval(interval: &str) -> (b: bool)
    ensures
        b == spec_is_valid_interval(interval@),
{
    let v = chars_vec(interval);
    let n = v.len();
    if n == 0 {
        return false;
    }
    let mut hpat: Vec<char> = Vec::new();
    hpat.push('h');
    let mut mpat: Vec<char> = Vec::new();
    mpat.push('m');
    proof {
        assert(hpat@ =~= seq!['h']);
        assert(mpat@ =~= seq!['m']);
    }
    if !contains_sub(&v, &hpat) && !contains_sub(&v, &mpat) {
        return false;
    }
    let low = lower_exec(&v);
    let mut has_value = false;
    let mut i: usize = 0;
    while i < n
        invariant
            v@ == interval@,
            n == v@.len() == low@.len(),
            low@ == lower(v@),
            has_sub(v@, seq!['h']) || has_sub(v@, seq!['m']),
            i <= n,
            interval_scan(low@, 0, false) == interval_scan(low@, i as int, has_value),
        decreases n - i,
    {
        let c = low[i];
        let u = c as u32;
        if 48 <= u && u <= 57 {
            has_value = true;
        } else if c == 'h' || c == 'm' {
            if !has_value {
                return false;
            }
            has_value = false;
        } else {
            return false;
        }
        i = i + 1;
    }
    true
}

/// Read a schedule from command-line text: a daily time when it parses as
/// one, else an interval, else a rejection naming the accepted shapes.
pub fn parse_schedule(time_arg: &str) -> (r: Result<ScheduleType, PhotoError>)
    ensures
        spec_is_valid_time(time_arg@) ==> (r matches Ok(s) && s matches ScheduleType::DailyTime(t)
            && t@ == time_arg@),
        !spec_is_valid_time(time_arg@) && spec_is_valid_interval(time_arg@) ==> (r matches Ok(s)
            && s matches ScheduleType::Interval(t) && t@ == time_arg@),
        !spec_is_valid_time(time_arg@) && !spec_is_valid_interval(time_arg@) ==> (r matches Err(e)
            && e matches PhotoError::Command(m) && m@ == "Invalid time/interval format: "@
            + time_arg@ + ". Use HH:MM for daily time or intervals like 1h, 30m"@),
{
    if is_valid_time(time_arg) {
        Ok(ScheduleType::DailyTime(String::from_str(time_arg)))
    } else if is_valid_interval(time_arg) {
        Ok(ScheduleType::Interval(String::from_str(time_arg)))
    } else {
        Err(
            PhotoError::Command(
                String::from_str("Invalid time/interval format: ").concat(time_arg).concat(
                    ". Use HH:MM for daily time or intervals like 1h, 30m",
                ),
            ),
        )
    }
}

/// What the interactive schedule menu decides for one line of input.
#[derive(Debug)]
pub enum ScheduleChoice {
    /// A schedule was picked directly.
    Chosen(ScheduleType),
    /// The user wants to type a custom daily time.
    AskTime,
    /// The user wants to type a custom interval.
    AskInterval,
    /// The user cancelled.
    Cancel,
    /// The input matched no menu entry.
    Invalid,
}

/// Decide what one line of menu input means: `1` is the recommended daily
/// run, `2` and `3` are the fixed intervals, `4` and `5` ask for custom
/// text, `6` cancels, and anything else is invalid. Surrounding whitespace
/// is ignored.
pub fn schedule_menu_choice(input: &str) -> (r: ScheduleChoice)
    ensures
        trimmed(input@) == "1"@ ==> (r matches ScheduleChoice::Chosen(s) && s matches
            ScheduleType::DailyTime(t) && t@ == "02:00"@),
        trimmed(input@) == "2"@ ==> (r matches ScheduleChoice::Chosen(s) && s matches
            ScheduleType::Interval(t) && t@ == "1h"@),
        trimmed(input@) == "3"@ ==> (r matches ScheduleChoice::Chosen(s) && s matches
            ScheduleType::Interval(t) && t@ == "30m"@),
        trimmed(input@) == "4"@ ==> r is AskTime,
        trimmed(input@) == "5"@ ==> r is AskInterval,
        trimmed(input@) == "6"@ ==> r is Cancel,
        trimmed(input@) != "1"@ && trimmed(input@) != "2"@ && trimmed(input@) != "3"@ && trimmed(
            input@,
        ) != "4"@ && trimmed(input@) != "5"@ && trimmed(input@) != "6"@ ==> r is Invalid,
{
    proof {
        reveal_strlit("1");
        reveal_strlit("2");
        reveal_strlit("3");
        reveal_strlit("4");
        reveal_strlit("5");
        reveal_strlit("6");
        assert(("1"@)[0] == '1' && ("2"@)[0] == '2' && ("3"@)[0] == '3' && ("4"@)[0] == '4' && (
        "5"@)[0] == '5' && ("6"@)[0] == '6');
    }
    let v = chars_vec(input);
    let bounds = trim_bounds(&v);
    let t = string_of_chars(slice_range(&v, bounds.0, bounds.1).as_slice());
    if t.eq(&String::from_str("1")) {
        ScheduleChoice::Chosen(ScheduleType::DailyTime(String::from_str("02:00")))
    } else if t.eq(&String::from_str("2")) {
        ScheduleChoice::Chosen(ScheduleType::Interval(String::from_str("1h")))
    } else if t.eq(&String::from_str("3")) {
        ScheduleChoice::Chosen(ScheduleType::Interval(String::from_str("30m")))
    } else if t.eq(&String::from_str("4")) {
        ScheduleChoice::AskTime
    } else if t.eq(&String::from_str("5")) {
        ScheduleChoice::AskInterval
    } else if t.eq(&String::from_str("6")) {
        ScheduleChoice::Cancel
    } else {
        ScheduleChoice::Invalid
    }
}

/// The arguments of the `set` invocation a scheduled run makes, built from
/// the chosen options.
pub open spec fn spec_set_command_args(
    random: bool,
    path: Option<Seq<char>>,
    lock_screen: bool,
) -> Seq<char> {
    "set"@ + (if random {
        " --random"@
    } else {
        Seq::empty()
    }) + (match path {
        Some(p) => " --path '"@ + p + "'"@,
        None => Seq::empty(),
    }) + (if lock_screen {
        " --lock-screen"@
    } else {
        Seq::empty()
    })
}

/// Build the arguments of the scheduled `set` invocation.
pub fn set_command_args(random: bool, path: Option<&str>, lock_screen: bool) -> (r: String)
    ensures
        r@ == spec_set_command_args(
            random,
            match path {
                Some(p) => Some(p@),
                None => None,
            },
            lock_screen,
        ),
{
    let mut s = String::from_str("set");
    if random {
        s = s.concat(" --random");
    }
    if let Some(p) = path {
        s = s.concat(" --path '").concat(p).concat("'");
    }
    if lock_screen {
        s = s.concat(" --lock-screen");
    }
    proof {
        assert(s@ =~= spec_set_command_args(
            random,
            match path {
                Some(p) => Some(p@),
                None => None,
            },
            lock_screen,
        ));
    }
    s
}

/// The text of the service unit: a oneshot that retries the download-and-set
/// cycle up to three times.
pub open spec fn spec_service_unit_text(binary: Seq<char>, set_args: Seq<char>) -> Seq<char> {
    "[Unit]\nDescription=Download and set National Geographic Photo of the Day as wallpaper\nAfter=network-online.target network.target\nWants=network-online.target\n\n[Service]\nType=oneshot\nExecStart=/bin/sh -c 'for i in 1 2 3; do "@
        + binary + " download && "@ + binary + " "@ + set_args
        + " && exit 0 || sleep 60; done; exit 1'\n"@
}

/// Render the service unit for the given binary and `set` arguments.
pub fn service_unit_text(binary_path: &str, set_args: &str) -> (r: String)
    ensures
        r@ == spec_service_unit_text(binary_path@, set_args@),
{
    String::from_str(
        "[Unit]\nDescription=Download and set National Geographic Photo of the Day as wallpaper\nAfter=network-online.target network.target\nWants=network-online.target\n\n[Service]\nType=oneshot\nExecStart=/bin/sh -c 'for i in 1 2 3; do ",
    ).concat(binary_path).concat(" download && ").concat(binary_path).concat(" ").concat(set_args)
        .concat(" && exit 0 || sleep 60; done; exit 1'\n")
}

/// The text of the timer unit for a schedule: a daily calendar entry, or an
/// interval with a short boot delay.
pub open spec fn spec_timer_unit_text(schedule: ScheduleType) -> Seq<char> {
    match schedule {
        ScheduleType::DailyTime(t) => {
            "[Unit]\nDescription=National Geographic Photo of the Day wallpaper update\n\n[Timer]\nOnCalendar=*-*-* "@
                + t@ + ":00\nOnBootSec=2min\nPersistent=true\n\n[Install]\nWantedBy=timers.target\n"@
        },
        ScheduleType::Interval(i) => {
            "[Unit]\nDescription=National Geographic Photo of the Day wallpaper update\n\n[Timer]\nOnBootSec=1min\nOnUnitActiveSec="@
                + i@ + "\nPersistent=true\n\n[Install]\nWantedBy=timers.target\n"@
        },
    }
}

/// Render the timer unit for a schedule.
pub fn timer_unit_text(schedule: &ScheduleType) -> (r: String)
    ensures
        r@ == spec_timer_unit_text(*schedule),
{
    match schedule {
        ScheduleType::DailyTime(t) => String::from_str(
            "[Unit]\nDescription=National Geographic Photo of the Day wallpaper update\n\n[Timer]\nOnCalendar=*-*-* ",
        ).concat(t.as_str()).concat(
            ":00\nOnBootSec=2min\nPersistent=true\n\n[Install]\nWantedBy=timers.target\n",
        ),
        ScheduleType::Interval(i) => String::from_str(
            "[Unit]\nDescription=National Geographic Photo of the Day wallpaper update\n\n[Timer]\nOnBootSec=1min\nOnUnitActiveSec=",
        ).concat(i.as_str()).concat("\nPersistent=true\n\n[Install]\nWantedBy=timers.target\n"),
    }
}

/// The human-readable description of a schedule.
pub open spec fn spec_schedule_description(schedule: ScheduleType) -> Seq<char> {
    match schedule {
        ScheduleType::DailyTime(t) => t@ + " daily"@,
        ScheduleType::Interval(i) => "every "@ + i@,
    }
}

/// Describe a schedule in one phrase.
pub fn schedule_description(schedule: &ScheduleType) -> (r: String)
    ensures
        r@ == spec_schedule_description(*schedule),
{
    match schedule {
        ScheduleType::DailyTime(t) => String::from_str(t.as_str()).concat(" daily"),
        ScheduleType::Interval(i) => String::from_str("every ").concat(i.as_str()),
    }
}

} // verus!
