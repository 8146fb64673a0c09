//! Decoders for the two progress-line grammars: the downloader's `PROGRESS|...` record
//! and the encoder's free-text status line.
use vstd::prelude::*;
use crate::text::{
    after_prefix, blank_fields, decimal, decimal_text, fixed_value, parse_fixed, parse_uint,
    same_text, split, split_blanks, split_fields, starts_with, texts, trim, trimmed, uint_value,
};

verus! {

/// Whole progress, in hundredths of a percent.
pub const FULL: u32 = 10000;

/// One progress report of a running job.
#[derive(Clone, Debug, PartialEq, Eq)]
pub struct ProgressRecord {
    /// Progress in hundredths of a percent, within `0..=FULL`.
    pub percent_hundredths: u32,
    pub rate: String,
    pub eta: String,
    pub downloaded: String,
    pub total: String,
    pub job_id: String,
}

pub open spec fn unknown_rate() -> Seq<char> {
    "Calculating…"@
}

pub open spec fn unknown_eta() -> Seq<char> {
    "--:--"@
}

/// `s`, or `placeholder` where `s` is the sentinel `NA`.
pub open spec fn or_placeholder(s: Seq<char>, placeholder: Seq<char>) -> Seq<char> {
    if s == "NA"@ {
        placeholder
    } else {
        s
    }
}

pub open spec fn min_full(v: nat) -> nat {
    if v > FULL {
        FULL as nat
    } else {
        v
    }
}

/// Progress written as a whole percentage, halves rounded up (`4550` is `"46%"`).
pub open spec fn percent_label(p: nat) -> Seq<char> {
    decimal((p + 50) / 100) + "%"@
}

/// The text of a percent field without blanks and without a trailing `%`.
pub open spec fn percent_digits(f: Seq<char>) -> Seq<char> {
    let t = trim(f);
    if t.len() > 0 && t.last() == '%' {
        trim(t.drop_last())
    } else {
        t
    }
}

/// The percent a field states; a malformed field counts as 0.
pub open spec fn field_percent(f: Seq<char>) -> nat {
    match fixed_value(percent_digits(f), 2) {
        Some(v) => min_full(v),
        None => 0,
    }
}

pub open spec fn record_fields(line: Seq<char>) -> Seq<Seq<char>> {
    split_fields(line, '|')
}

/// Whether `line` is a downloader progress record.
pub open spec fn is_structured(line: Seq<char>) -> bool {
    record_fields(line).len() >= 5 && trim(record_fields(line)[0]) == "PROGRESS"@
}

pub open spec fn structured_percent(line: Seq<char>) -> nat {
    field_percent(record_fields(line)[1])
}

pub open spec fn structured_rate(line: Seq<char>) -> Seq<char> {
    or_placeholder(trim(record_fields(line)[2]), unknown_rate())
}

pub open spec fn structured_eta(line: Seq<char>) -> Seq<char> {
    or_placeholder(trim(record_fields(line)[3]), unknown_eta())
}

pub open spec fn structured_total(line: Seq<char>) -> Seq<char> {
    trim(record_fields(line)[4])
}

/// The record has these fields, the `downloaded` one being the percent as a label.
pub open spec fn record_holds(
    r: ProgressRecord,
    percent: nat,
    rate: Seq<char>,
    eta: Seq<char>,
    total: Seq<char>,
    job_id: Seq<char>,
) -> bool {
    &&& r.percent_hundredths == percent
    &&& r.rate@ == rate
    &&& r.eta@ == eta
    &&& r.downloaded@ == percent_label(percent)
    &&& r.total@ == total
    &&& r.job_id@ == job_id
}

pub fn label_for(p: u32) -> (r: String)
    requires
        p <= FULL,
    ensures
        r@ == percent_label(p as nat),
{
    let mut r = decimal_text(((p as u64) + 50) / 100);
    r.append("%");
    r
}

fn or_placeholder_text(s: &str, placeholder: &str) -> (r: String)
    ensures
        r@ == or_placeholder(s@, placeholder@),
{
    if same_text(s, "NA") {
        placeholder.to_owned()
    } else {
        s.to_owned()
    }
}

/// The percent of a record field such as `"45.0%"`, in hundredths; 0 when malformed.
pub fn percent_of_field(f: &str) -> (r: u32)
    ensures
        r == field_percent(f@),
        r <= FULL,
{
    let t = trimmed(f);
    let n = t.unicode_len();
    let digits = if n > 0 && t.get_char(n - 1) == '%' {
        trimmed(t.substring_char(0, n - 1))
    } else {
        t
    };
    proof {
        if n > 0 {
            assert(t@.subrange(0, n - 1) =~= t@.drop_last());
        }
    }
    assert(digits@ == percent_digits(f@));
    match parse_fixed(digits, 2) {
        Some(v) => {
            if v > FULL as u64 {
                FULL
            } else {
                v as u32
            }
        },
        None => 0,
    }
}

/// Decodes one downloader line of the form `PROGRESS|percent|rate|eta|total`.
/// Any other line gives no record.
pub fn decode_structured(line: &str, job_id: &str) -> (r: Option<ProgressRecord>)
    ensures
        r is Some <==> is_structured(line@),
        r matches Some(rec) ==> record_holds(
            rec,
            structured_percent(line@),
            structured_rate(line@),
            structured_eta(line@),
            structured_total(line@),
            job_id@,
        ),
        r matches Some(rec) ==> rec.percent_hundredths <= FULL,
{
    let fields = split(line, '|');
    let ghost f = record_fields(line@);
    assert(texts(fields@).len() == fields@.len());
    if fields.len() < 5 {
        return None;
    }
    assert(f[0] == fields@[0]@ && f[1] == fields@[1]@ && f[2] == fields@[2]@ && f[3]
        == fields@[3]@ && f[4] == fields@[4]@);
    if !same_text(trimmed(fields[0].as_str()), "PROGRESS") {
        return None;
    }
    let percent = percent_of_field(fields[1].as_str());
    let rate = or_placeholder_text(trimmed(fields[2].as_str()), "Calculating…");
    let eta = or_placeholder_text(trimmed(fields[3].as_str()), "--:--");
    let total = trimmed(fields[4].as_str()).to_owned();
    Some(
        ProgressRecord {
            percent_hundredths: percent,
            rate,
            eta,
            downloaded: label_for(percent),
            total,
            job_id: job_id.to_owned(),
        },
    )
}

/// Decoding a downloader line twice gives the same record both times, but for the job id:
/// the record depends on the line alone.
pub proof fn lemma_structured_repeatable(
    line: Seq<char>,
    a: ProgressRecord,
    b: ProgressRecord,
    job_a: Seq<char>,
    job_b: Seq<char>,
)
    requires
        is_structured(line),
        record_holds(
            a,
            structured_percent(line),
            structured_rate(line),
            structured_eta(line),
            structured_total(line),
            job_a,
        ),
        record_holds(
            b,
            structured_percent(line),
            structured_rate(line),
            structured_eta(line),
            structured_total(line),
            job_b,
        ),
    ensures
        a.percent_hundredths == b.percent_hundredths,
        a.rate@ == b.rate@,
        a.eta@ == b.eta@,
        a.downloaded@ == b.downloaded@,
        a.total@ == b.total@,
{
}

/// The rest of the first token that starts with `tag`.
pub open spec fn find_tagged(tokens: Seq<Seq<char>>, tag: Seq<char>) -> Option<Seq<char>>
    decreases tokens.len(),
{
    if tokens.len() == 0 {
        None
    } else if starts_with(tokens[0], tag) {
        Some(tokens[0].skip(tag.len() as int))
    } else {
        find_tagged(tokens.drop_first(), tag)
    }
}

pub open spec fn status_tokens(line: Seq<char>) -> Seq<Seq<char>> {
    blank_fields(line)
}

/// A clock reading `HH:MM:SS[.fraction]` in milliseconds.
pub open spec fn clock_millis(s: Seq<char>) -> Option<nat> {
    let p = split_fields(s, ':');
    if p.len() == 3 && uint_value(p[0]) is Some && uint_value(p[1]) is Some && fixed_value(
        p[2],
        3,
    ) is Some {
        Some(
            ((uint_value(p[0])->0 * 3600 + uint_value(p[1])->0 * 60) * 1000 + fixed_value(
                p[2],
                3,
            )->0) as nat,
        )
    } else {
        None
    }
}

/// The encoder position that a status line reports, in milliseconds.
pub open spec fn status_position(line: Seq<char>) -> Option<nat> {
    match find_tagged(status_tokens(line), "time="@) {
        Some(t) => clock_millis(t),
        None => None,
    }
}

pub open spec fn status_rate(line: Seq<char>) -> Seq<char> {
    match find_tagged(status_tokens(line), "bitrate="@) {
        Some(b) => if b.len() > 0 {
            b
        } else {
            unknown_rate()
        },
        None => unknown_rate(),
    }
}

/// Position over duration, in hundredths of a percent, at most `FULL`.
pub open spec fn share(position: nat, duration: nat) -> nat {
    min_full(position * 10000 / duration)
}

pub open spec fn status_total() -> Seq<char> {
    "100%"@
}

fn find_tagged_in<'a>(tokens: &'a Vec<String>, tag: &str) -> (r: Option<&'a str>)
    ensures
        r is Some <==> find_tagged(texts(tokens@), tag@) is Some,
        r matches Some(v) ==> v@ == find_tagged(texts(tokens@), tag@)->0,
{
    let mut i: usize = 0;
    assert(texts(tokens@).skip(0) =~= texts(tokens@));
    while i < tokens.len()
        invariant
            i <= tokens@.len(),
            find_tagged(texts(tokens@).skip(i as int), tag@) == find_tagged(texts(tokens@), tag@),
        decreases tokens@.len() - i,
    {
        let ghost rest = texts(tokens@).skip(i as int);
        assert(rest[0] == tokens@[i as int]@);
        if let Some(v) = after_prefix(tokens[i].as_str(), tag) {
            return Some(v);
        }
        assert(rest.drop_first() =~= texts(tokens@).skip(i + 1));
        i = i + 1;
    }
    None
}

/// Reads `HH:MM:SS[.fraction]` into milliseconds.
pub fn parse_clock(s: &str) -> (r: Option<u64>)
    ensures
        r matches Some(v) ==> clock_millis(s@) == Some(v as nat),
        r is None ==> clock_millis(s@) is None,
{
    let parts = split(s, ':');
    let ghost p = split_fields(s@, ':');
    assert(texts(parts@).len() == parts@.len());
    if parts.len() != 3 {
        return None;
    }
    assert(p[0] == parts@[0]@ && p[1] == parts@[1]@ && p[2] == parts@[2]@);
    let h = match parse_uint(parts[0].as_str()) {
        Some(v) => v,
        None => return None,
    };
    let m = match parse_uint(parts[1].as_str()) {
        Some(v) => v,
        None => return None,
    };
    let sec = match parse_fixed(parts[2].as_str(), 3) {
        Some(v) => v,
        None => return None,
    };
    Some((h * 3600 + m * 60) * 1000 + sec)
}

/// Decodes one encoder status line against a clip of `duration_ms` milliseconds.
/// Lines without a readable `time=` token, or a zero duration, give no record.
pub fn decode_status(line: &str, duration_ms: u64, job_id: &str) -> (r: Option<ProgressRecord>)
    ensures
        r is Some <==> (duration_ms > 0 && status_position(line@) is Some),
        r matches Some(rec) ==> record_holds(
            rec,
            share(status_position(line@)->0, duration_ms as nat),
            status_rate(line@),
            unknown_eta(),
            status_total(),
            job_id@,
        ),
        r matches Some(rec) ==> rec.percent_hundredths <= FULL,
{
    if duration_ms == 0 {
        return None;
    }
    let tokens = split_blanks(line);
    let position = match find_tagged_in(&tokens, "time=") {
        Some(t) => match parse_clock(t) {
            Some(v) => v,
            None => return None,
        },
        None => return None,
    };
    let scaled: u128 = (position as u128) * 10000 / (duration_ms as u128);
    let percent: u32 = if scaled > FULL as u128 {
        FULL
    } else {
        scaled as u32
    };
    let rate = match find_tagged_in(&tokens, "bitrate=") {
        Some(b) => {
            if b.unicode_len() > 0 {
                b.to_owned()
            } else {
                "Calculating…".to_owned()
            }
        },
        None => "Calculating…".to_owned(),
    };
    Some(
        ProgressRecord {
            percent_hundredths: percent,
            rate,
            eta: "--:--".to_owned(),
            downloaded: label_for(percent),
            total: "100%".to_owned(),
            job_id: job_id.to_owned(),
        },
    )
}

} // verus!
