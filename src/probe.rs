//! Reads the downloader's metadata document: title, duration and the tallest stream.
use vstd::prelude::*;
use crate::text::{fixed_value, parse_fixed};

verus! {

#[verifier::external_type_specification]
#[verifier::external_body]
pub struct ExValue(serde_json::Value);

/// Whether serde_json reads `text` as a JSON document.
pub uninterp spec fn json_accepts(text: Seq<char>) -> bool;

/// The document's `title` member, where it is a JSON string.
pub uninterp spec fn json_title(text: Seq<char>) -> Option<Seq<char>>;

/// The numeral of the document's `duration` member, where it is a JSON number.
pub uninterp spec fn json_duration_text(text: Seq<char>) -> Option<Seq<char>>;

/// The document's `height` member, where it is a number that fits a `u64`.
pub uninterp spec fn json_height(text: Seq<char>) -> Option<u64>;

/// The number of items of the document's `formats` member, 0 where it is no array.
pub uninterp spec fn json_format_count(text: Seq<char>) -> nat;

/// The `height` member of item `i` of `formats`, where it is a number that fits a `u64`.
pub uninterp spec fn json_format_height(text: Seq<char>, i: nat) -> Option<u64>;

/// A metadata document together with the text it was read from. Only `Document::read`
/// builds one, so `value` is always what serde_json made of `text`.
struct Document {
    text: String,
    value: serde_json::Value,
}

impl Document {
    spec fn source(&self) -> Seq<char> {
        self.text@
    }

    /// Relies on serde_json::from_str: reads `text` as a JSON value, or says why not.
    #[verifier::external_body]
    fn read(text: &str) -> (r: Result<Document, String>)
        ensures
            r is Ok <==> json_accepts(text@),
            r matches Ok(d) ==> d.source() == text@,
    {
        match serde_json::from_str::<serde_json::Value>(text) {
            Ok(value) => Ok(Document { text: text.to_owned(), value }),
            Err(e) => Err(e.to_string()),
        }
    }

    /// Relies on serde_json::Value::get: the `title` member, when it is a string.
    #[verifier::external_body]
    fn title(&self) -> (r: Option<String>)
        ensures
            opt_view(r) == json_title(self.source()),
    {
        match self.value.get("title") {
            Some(serde_json::Value::String(s)) => Some(s.clone()),
            _ => None,
        }
    }

    /// Relies on serde_json::Value::get and serde_json's `Display` for `Number`: the
    /// numeral of the `duration` member, when it is a number.
    #[verifier::external_body]
    fn duration_text(&self) -> (r: Option<String>)
        ensures
            opt_view(r) == json_duration_text(self.source()),
    {
        match self.value.get("duration") {
            Some(serde_json::Value::Number(n)) => Some(n.to_string()),
            _ => None,
        }
    }

    /// Relies on serde_json::Value::get and Value::as_u64: the `height` member.
    #[verifier::external_body]
    fn height(&self) -> (r: Option<u64>)
        ensures
            r == json_height(self.source()),
    {
        self.value.get("height").and_then(serde_json::Value::as_u64)
    }

    /// Relies on serde_json::Value::get: the number of items of `formats`.
    #[verifier::external_body]
    fn format_count(&self) -> (r: usize)
        ensures
            r == json_format_count(self.source()),
    {
        match self.value.get("formats") {
            Some(serde_json::Value::Array(items)) => items.len(),
            _ => 0,
        }
    }

    /// Relies on serde_json::Value::get and Value::as_u64: the `height` member of item
    /// `i` of `formats`.
    #[verifier::external_body]
    fn format_height(&self, i: usize) -> (r: Option<u64>)
        ensures
            r == json_format_height(self.source(), i as nat),
    {
        match self.value.get("formats") {
            Some(serde_json::Value::Array(items)) => match items.get(i) {
                Some(item) => item.get("height").and_then(serde_json::Value::as_u64),
                None => None,
            },
            _ => None,
        }
    }
}

pub open spec fn opt_view(o: Option<String>) -> Option<Seq<char>> {
    match o {
        Some(s) => Some(s@),
        None => None,
    }
}

/// The heights the document states: its own, then those of the first `n` formats.
pub open spec fn stated_heights(text: Seq<char>, n: nat) -> Seq<u64>
    decreases n,
{
    if n == 0 {
        match json_height(text) {
            Some(h) => seq![h],
            None => Seq::empty(),
        }
    } else {
        let prev = stated_heights(text, (n - 1) as nat);
        match json_format_height(text, (n - 1) as nat) {
            Some(h) => prev.push(h),
            None => prev,
        }
    }
}

/// Every stream height the document states.
pub open spec fn document_heights(text: Seq<char>) -> Seq<u64> {
    stated_heights(text, json_format_count(text))
}

/// What the metadata document says of a source.
#[derive(Clone, Debug, PartialEq, Eq)]
pub struct ProbeSummary {
    pub title: String,
    pub duration_ms: u64,
    /// Height of the tallest stream, 0 when no stream states one.
    pub max_height: u64,
}

#[derive(Clone, Debug, PartialEq, Eq)]
pub enum ProbeError {
    /// The document is not JSON; the parser's account of why.
    Malformed(String),
}

pub open spec fn max_of(s: Seq<u64>) -> nat
    decreases s.len(),
{
    if s.len() == 0 {
        0
    } else if max_of(s.drop_last()) >= s.last() {
        max_of(s.drop_last())
    } else {
        s.last() as nat
    }
}

/// The duration stated by a numeral in seconds, in milliseconds; 0 when it is not a
/// plain decimal.
pub open spec fn duration_of(numeral: Seq<char>) -> nat {
    match fixed_value(numeral, 3) {
        Some(v) => v,
        None => 0,
    }
}

/// The largest of `heights`, 0 for none.
pub fn tallest(heights: &Vec<u64>) -> (r: u64)
    ensures
        r == max_of(heights@),
{
    let mut best: u64 = 0;
    let mut i: usize = 0;
    assert(heights@.take(0) =~= Seq::<u64>::empty());
    while i < heights.len()
        invariant
            i <= heights@.len(),
            best == max_of(heights@.take(i as int)),
        decreases heights@.len() - i,
    {
        assert(heights@.take(i + 1).drop_last() =~= heights@.take(i as int));
        if heights[i] > best {
            best = heights[i];
        }
        i = i + 1;
    }
    assert(heights@.take(i as int) =~= heights@);
    best
}

/// Milliseconds from a duration numeral in seconds such as `"65.5"`.
pub fn duration_millis(numeral: &str) -> (r: u64)
    ensures
        r == duration_of(numeral@),
{
    match parse_fixed(numeral, 3) {
        Some(v) => v,
        None => 0,
    }
}

pub open spec fn title_or_default(title: Option<Seq<char>>) -> Seq<char> {
    match title {
        Some(t) => t,
        None => "Unknown Title"@,
    }
}

pub open spec fn duration_or_zero(numeral: Option<Seq<char>>) -> nat {
    match numeral {
        Some(d) => duration_of(d),
        None => 0,
    }
}

/// The summary of a document whose title, duration numeral and stream heights are given.
pub fn summary_of(title: Option<String>, duration: Option<String>, heights: &Vec<u64>) -> (r:
    ProbeSummary)
    ensures
        r.title@ == title_or_default(opt_view(title)),
        r.duration_ms == duration_or_zero(opt_view(duration)),
        r.max_height == max_of(heights@),
{
    let duration_ms = match &duration {
        Some(d) => duration_millis(d.as_str()),
        None => 0,
    };
    let title = match title {
        Some(t) => t,
        None => "Unknown Title".to_owned(),
    };
    ProbeSummary { title, duration_ms, max_height: tallest(heights) }
}

/// Reads title, duration and the tallest stream's height (the document's own `height`
/// and each of `formats[].height`) from a metadata document. A missing title reads as
/// `Unknown Title`, a missing duration as 0.
pub fn summarize_probe(document: &str) -> (r: Result<ProbeSummary, ProbeError>)
    ensures
        r is Ok <==> json_accepts(document@),
        r matches Ok(s) ==> s.title@ == title_or_default(json_title(document@))
            && s.duration_ms == duration_or_zero(json_duration_text(document@)) && s.max_height
            == max_of(document_heights(document@)),
{
    let doc = match Document::read(document) {
        Ok(d) => d,
        Err(why) => return Err(ProbeError::Malformed(why)),
    };
    let mut heights: Vec<u64> = Vec::new();
    if let Some(h) = doc.height() {
        heights.push(h);
    }
    assert(heights@ =~= stated_heights(document@, 0));
    let n = doc.format_count();
    let mut i: usize = 0;
    while i < n
        invariant
            n == json_format_count(document@),
            doc.source() == document@,
            i <= n,
            heights@ == stated_heights(document@, i as nat),
        decreases n - i,
    {
        if let Some(h) = doc.format_height(i) {
            heights.push(h);
        }
        i = i + 1;
    }
    Ok(summary_of(doc.title(), doc.duration_text(), &heights))
}

} // verus!
