//! The poll command's data: extracting the question and the end-time
//! phrase from the command's options, and combining the phrase's
//! parsed date and time into the poll's end moment. Calendar values
//! are carried as plain year, month, day, hour, minute and second
//! fields; the natural-language parsing itself happens outside the
//! library, which takes only its results, and the clock is an outside
//! call.

use vstd::prelude::*;
use chrono::{Datelike, Timelike};

verus! {

broadcast use vstd::string::group_string_axioms;

/// A calendar date as plain values.
#[derive(Clone, Copy, PartialEq, Eq, Structural, Debug)]
pub struct PollDate {
    pub year: i32,
    pub month: u32,
    pub day: u32,
}

/// A time of day as plain values.
#[derive(Clone, Copy, PartialEq, Eq, Structural, Debug)]
pub struct PollTime {
    pub hour: u32,
    pub minute: u32,
    pub second: u32,
}

/// A date with a time of day.
#[derive(Clone, Copy, PartialEq, Eq, Structural, Debug)]
pub struct PollMoment {
    pub date: PollDate,
    pub time: PollTime,
}

/// One string option of a poll command: its name and, when the option
/// carried one, its string value.
#[derive(Debug, PartialEq)]
pub struct PollCommandOption {
    pub name: String,
    pub value: Option<String>,
}

pub ghost struct PollCommandOptionView {
    pub name: Seq<char>,
    pub value: Option<Seq<char>>,
}

impl View for PollCommandOption {
    type V = PollCommandOptionView;

    open spec fn view(&self) -> PollCommandOptionView {
        PollCommandOptionView {
            name: self.name@,
            value: crate::text::opt_str_view(self.value),
        }
    }
}

pub open spec fn opts_view(s: Seq<PollCommandOption>) -> Seq<PollCommandOptionView> {
    s.map_values(|o: PollCommandOption| o@)
}

/// The question the options carry: the last `question` option with a
/// value wins; with none, a placeholder.
pub open spec fn spec_poll_question(opts: Seq<PollCommandOptionView>) -> Seq<char>
    decreases opts.len(),
{
    if opts.len() == 0 {
        "<Unknown Question>"@
    } else {
        let last = opts.last();
        if last.name == "question"@ && last.value is Some {
            last.value->0
        } else {
            spec_poll_question(opts.drop_last())
        }
    }
}

/// The raw end-time text the options carry: the last `ends` option
/// with a value wins.
pub open spec fn spec_poll_ends_text(opts: Seq<PollCommandOptionView>) -> Option<Seq<char>>
    decreases opts.len(),
{
    if opts.len() == 0 {
        None
    } else {
        let last = opts.last();
        if last.name == "ends"@ && last.value is Some {
            Some(last.value->0)
        } else {
            spec_poll_ends_text(opts.drop_last())
        }
    }
}

/// Extracts the question and the raw end-time text from the options.
pub fn poll_fields(opts: &Vec<PollCommandOption>) -> (r: (String, Option<String>))
    ensures
        r.0@ == spec_poll_question(opts_view(opts@)),
        crate::text::opt_str_view(r.1) == spec_poll_ends_text(opts_view(opts@)),
{
    let mut question = String::from_str("<Unknown Question>");
    let mut ends: Option<String> = None;
    let mut i: usize = 0;
    proof {
        assert(opts_view(opts@).take(0) =~= Seq::<PollCommandOptionView>::empty());
    }
    while i < opts.len()
        invariant
            i <= opts.len(),
            question@ == spec_poll_question(opts_view(opts@).take(i as int)),
            crate::text::opt_str_view(ends) == spec_poll_ends_text(
                opts_view(opts@).take(i as int),
            ),
        decreases opts.len() - i,
    {
        let o = &opts[i];
        proof {
            reveal_strlit("question");
            reveal_strlit("ends");
            assert("question"@.len() == 8);
            assert("ends"@.len() == 4);
            assert("question"@ != "ends"@);
            assert(opts_view(opts@).take(i as int + 1).drop_last() =~= opts_view(opts@).take(
                i as int,
            ));
            assert(opts_view(opts@).take(i as int + 1).last() == opts@[i as int]@);
        }
        if crate::text::str_eq(o.name.as_str(), "question") {
            match &o.value {
                Some(v) => {
                    question = v.clone();
                },
                None => {
                },
            }
        } else if crate::text::str_eq(o.name.as_str(), "ends") {
            match &o.value {
                Some(v) => {
                    ends = Some(v.clone());
                },
                None => {
                },
            }
        }
        i += 1;
    }
    proof {
        assert(opts_view(opts@).take(opts@.len() as int) =~= opts_view(opts@));
    }
    (question, ends)
}

/// The end moment the parsed date and time combine to: nothing when
/// neither parsed; a time alone falls on today; a date alone starts
/// at midnight.
pub open spec fn spec_combine_end_time(
    date: Option<PollDate>,
    time: Option<PollTime>,
    today: PollDate,
) -> Option<PollMoment> {
    match (date, time) {
        (None, None) => None,
        (None, Some(t)) => Some(PollMoment { date: today, time: t }),
        (Some(d), None) => Some(
            PollMoment { date: d, time: PollTime { hour: 0, minute: 0, second: 0 } },
        ),
        (Some(d), Some(t)) => Some(PollMoment { date: d, time: t }),
    }
}

/// Combines the parsed end date and time.
pub fn combine_end_time(date: Option<PollDate>, time: Option<PollTime>, today: PollDate) -> (r:
    Option<PollMoment>)
    ensures
        r == spec_combine_end_time(date, time, today),
{
    match (date, time) {
        (None, None) => None,
        (None, Some(t)) => Some(PollMoment { date: today, time: t }),
        (Some(d), None) => Some(
            PollMoment { date: d, time: PollTime { hour: 0, minute: 0, second: 0 } },
        ),
        (Some(d), Some(t)) => Some(PollMoment { date: d, time: t }),
    }
}

/// Relies on `chrono::Utc::now`: the current civil date and time,
/// which depend on the clock.
#[verifier::external_body]
pub fn now_utc() -> (r: PollMoment)
    ensures
        1 <= r.date.month <= 12 && 1 <= r.date.day <= 31,
        r.time.hour < 24 && r.time.minute < 60 && r.time.second < 60,
{
    let now = chrono::Utc::now().naive_utc();
    let d = now.date();
    let t = now.time();
    PollMoment {
        date: PollDate { year: d.year(), month: d.month(), day: d.day() },
        time: PollTime { hour: t.hour(), minute: t.minute(), second: t.second() },
    }
}

/// One selectable poll option.
#[derive(Debug, PartialEq)]
pub struct PollOption {
    pub emoji: u64,
}

/// A poll as the command creates it: no stored id yet, the author's
/// identity, the question, and the optional start and end moments.
#[derive(Debug, PartialEq)]
pub struct Poll {
    pub id: i64,
    pub author_id: u64,
    pub author_name: String,
    pub question: String,
    pub start: Option<PollMoment>,
    pub ends: Option<PollMoment>,
    pub options: Option<Vec<PollOption>>,
}

impl Poll {
    /// Builds a poll from a command's author, its options, and the
    /// already-parsed end date and time of its `ends` phrase: the
    /// question is taken from the options; when a date or a time is
    /// given, the end moment combines them (a time alone falls on
    /// today, a date alone starts at midnight) and the start moment
    /// is the current time; with neither, both stay unset.
    pub fn from_command(
        author_id: u64,
        author_name: String,
        opts: &Vec<PollCommandOption>,
        end_date: Option<PollDate>,
        end_time: Option<PollTime>,
    ) -> (r: Poll)
        ensures
            r.id == 0,
            r.author_id == author_id,
            r.author_name == author_name,
            r.question@ == spec_poll_question(opts_view(opts@)),
            r.options is None,
            r.start is Some <==> r.ends is Some,
            r.ends is Some <==> (end_date is Some || end_time is Some),
            end_date matches Some(d) ==> r.ends == Some(
                PollMoment {
                    date: d,
                    time: match end_time {
                        Some(t) => t,
                        None => PollTime { hour: 0, minute: 0, second: 0 },
                    },
                },
            ),
            end_date is None ==> (end_time matches Some(t) ==> r.ends matches Some(m) && m.time
                == t),
    {
        let (question, _) = poll_fields(opts);
        let combined = combine_end_time(end_date, end_time, now_utc().date);
        let (start, ends): (Option<PollMoment>, Option<PollMoment>) = match combined {
            Some(m) => (Some(now_utc()), Some(m)),
            None => (None, None),
        };
        Poll { id: 0, author_id, author_name, question, start, ends, options: None }
    }
}


} // verus!
