//! Presentation helpers for the activity classes reported by the
//! classification service, and the plain records it exchanges.
use vstd::prelude::*;
use crate::text::{
    chars_of, is_whitespace_char, lower_char_of, push_text, same_text, string_from_chars,
    to_lower_chars, to_upper_chars, upper_of, white_space,
};

verus! {

/// Health report of the classification service.
#[derive(Debug, Clone)]
pub struct HealthResponse {
    pub status: String,
    pub model_loaded: bool,
    pub timestamp: String,
}

/// What the classification service says of its model.
#[derive(Debug, Clone)]
pub struct ModelInfo {
    pub model_loaded: bool,
    pub classes: Vec<String>,
    pub features: Vec<String>,
}

/// Health of the classification service as this backend reports it.
#[derive(Debug, Clone)]
pub struct MLHealthResponse {
    pub ml_service_available: bool,
    pub model_loaded: bool,
    pub classes: Vec<String>,
}

/// Failure of a call to the classification service.
#[derive(Debug, Clone)]
pub enum MLError {
    ConnectionError(String),
    ServiceError(String),
    ParseError(String),
}

impl MLError {
    pub open spec fn text(&self) -> Seq<char> {
        match self {
            MLError::ConnectionError(m) => "ML connection error: "@ + m@,
            MLError::ServiceError(m) => "ML service error: "@ + m@,
            MLError::ParseError(m) => "ML parse error: "@ + m@,
        }
    }

    /// The error as text.
    pub fn message(&self) -> (r: String)
        ensures
            r@ == self.text(),
    {
        let (p, m) = match self {
            MLError::ConnectionError(m) => ("ML connection error: ", m),
            MLError::ServiceError(m) => ("ML service error: ", m),
            MLError::ParseError(m) => ("ML parse error: ", m),
        };
        let mut v: Vec<char> = Vec::new();
        push_text(&mut v, p);
        push_text(&mut v, m.as_str());
        string_from_chars(&v)
    }
}

/// A character as the display form reads it: `_` stands for a space.
pub open spec fn spaced(c: char) -> char {
    if c == '_' { ' ' } else { c }
}

/// Display form of the rest `s` of a class name. `emitted` says whether a word
/// was written already, `in_word` whether the text just before `s` belongs to
/// a word. Words are the maximal runs without white space (after `_` became a
/// space); they are written with their first character upper-cased and the
/// rest lower-cased, with one space between two words.
pub open spec fn display_from(s: Seq<char>, emitted: bool, in_word: bool) -> Seq<char>
    decreases s.len(),
{
    if s.len() == 0 {
        seq![]
    } else if white_space(spaced(s[0])) {
        display_from(s.drop_first(), emitted, false)
    } else if in_word {
        lower_char_of(spaced(s[0])) + display_from(s.drop_first(), emitted, true)
    } else {
        (if emitted { seq![' '] } else { seq![] }) + upper_of(spaced(s[0])) + display_from(s.drop_first(), true, true)
    }
}

/// Display form of a whole class name: `FALL_DETECTED` becomes `Fall Detected`.
pub open spec fn display_class(s: Seq<char>) -> Seq<char> {
    display_from(s, false, false)
}

fn append_chars(out: &mut Vec<char>, more: &Vec<char>)
    ensures
        final(out)@ == old(out)@ + more@,
{
    let ghost before = out@;
    let mut k: usize = 0;
    while k < more.len()
        invariant
            k <= more@.len(),
            out@ == before + more@.subrange(0, k as int),
        decreases more@.len() - k,
    {
        out.push(more[k]);
        k = k + 1;
        assert(out@ =~= before + more@.subrange(0, k as int));
    }
    assert(more@.subrange(0, k as int) =~= more@);
}

/// Turns an activity class into display text: `_` becomes a space, each
/// word is written with a capital and lower case after it, and the words are
/// joined by single spaces.
pub fn format_activity_class(class: &str) -> (r: String)
    ensures
        r@ == display_class(class@),
{
    let cs = chars_of(class);
    let n = cs.len();
    let mut out: Vec<char> = Vec::new();
    let mut emitted = false;
    let mut in_word = false;
    let mut i: usize = 0;
    assert(class@.subrange(0, n as int) =~= class@);
    while i < n
        invariant
            cs@ == class@,
            n == cs@.len(),
            i <= n,
            out@ + display_from(class@.subrange(i as int, n as int), emitted, in_word) == display_class(class@),
        decreases n - i,
    {
        let ghost rest = class@.subrange(i as int, n as int);
        assert(rest.drop_first() =~= class@.subrange(i + 1, n as int));
        let c = cs[i];
        let d = if c == '_' { ' ' } else { c };
        if is_whitespace_char(d) {
            in_word = false;
        } else if in_word {
            let l = to_lower_chars(d);
            append_chars(&mut out, &l);
            assert(out@ + display_from(rest.drop_first(), emitted, true) =~= display_class(class@));
        } else {
            if emitted {
                out.push(' ');
            }
            let u = to_upper_chars(d);
            append_chars(&mut out, &u);
            assert(out@ + display_from(rest.drop_first(), true, true) =~= display_class(class@));
            emitted = true;
            in_word = true;
        }
        i = i + 1;
    }
    assert(display_from(class@.subrange(i as int, n as int), emitted, in_word) =~= seq![]);
    assert(out@ =~= display_class(class@));
    string_from_chars(&out)
}

/// Risk level of an activity class.
pub open spec fn risk_level(c: Seq<char>) -> Seq<char> {
    if c == "SLEEPING"@ || c == "RESTING"@ {
        "LOW"@
    } else if c == "ACTIVE"@ {
        "NORMAL"@
    } else if c == "RESTLESS"@ {
        "MEDIUM"@
    } else if c == "FALL_RISK"@ {
        "HIGH"@
    } else if c == "FALL_DETECTED"@ {
        "CRITICAL"@
    } else {
        "UNKNOWN"@
    }
}

/// Dashboard colour of an activity class.
pub open spec fn risk_color(c: Seq<char>) -> Seq<char> {
    if c == "SLEEPING"@ || c == "RESTING"@ {
        "#22c55e"@
    } else if c == "ACTIVE"@ {
        "#3b82f6"@
    } else if c == "RESTLESS"@ {
        "#f59e0b"@
    } else if c == "FALL_RISK"@ {
        "#ef4444"@
    } else if c == "FALL_DETECTED"@ {
        "#dc2626"@
    } else {
        "#6b7280"@
    }
}

/// Risk level of an activity class: LOW, NORMAL, MEDIUM, HIGH, CRITICAL or
/// UNKNOWN.
pub fn get_risk_level(activity_class: &str) -> (r: &'static str)
    ensures
        r@ == risk_level(activity_class@),
{
    let c = activity_class;
    if same_text(c, "SLEEPING") || same_text(c, "RESTING") {
        "LOW"
    } else if same_text(c, "ACTIVE") {
        "NORMAL"
    } else if same_text(c, "RESTLESS") {
        "MEDIUM"
    } else if same_text(c, "FALL_RISK") {
        "HIGH"
    } else if same_text(c, "FALL_DETECTED") {
        "CRITICAL"
    } else {
        "UNKNOWN"
    }
}

/// Dashboard colour of an activity class: green for rest, blue for activity,
/// orange for restlessness, red for fall risk, dark red for a fall, gray
/// otherwise.
pub fn get_risk_color(activity_class: &str) -> (r: &'static str)
    ensures
        r@ == risk_color(activity_class@),
{
    let c = activity_class;
    if same_text(c, "SLEEPING") || same_text(c, "RESTING") {
        "#22c55e"
    } else if same_text(c, "ACTIVE") {
        "#3b82f6"
    } else if same_text(c, "RESTLESS") {
        "#f59e0b"
    } else if same_text(c, "FALL_RISK") {
        "#ef4444"
    } else if same_text(c, "FALL_DETECTED") {
        "#dc2626"
    } else {
        "#6b7280"
    }
}

/// Whether an hour of the day (0 to 23) counts as night: from 22:00 to 06:00.
pub fn is_night_hour(hour: i32) -> (r: bool)
    ensures
        r == (hour >= 22 || hour < 6),
{
    hour >= 22 || hour < 6
}

} // verus!
