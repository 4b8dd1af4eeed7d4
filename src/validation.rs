//! Input validation and sanitization: the checks that stand between untrusted
//! request text and the credential store or the domain handlers.
//!
//! The keyword checks for SQL injection and cross-site scripting are a
//! best-effort heuristic, not a defence on their own: parameterized queries
//! and output encoding are. Both false positives and false negatives occur.
use vstd::prelude::*;
use crate::text::{
    alphanumeric, chars_of, contains_folded, find_folded, int_text, is_alphanumeric_char,
    is_whitespace_char, nat_text, push_decimal, push_signed, push_text, same_text,
    string_from_chars, white_space,
};

verus! {

/// Why a value was rejected, with a human-readable detail.
#[derive(Debug, Clone)]
pub enum ValidationError {
    InvalidUsername(String),
    InvalidEmail(String),
    InvalidInput(String),
    PotentialSQLInjection(String),
    PotentialXSS(String),
    InvalidRange(String),
    InvalidFHIR(String),
    TooLong(String),
    TooShort(String),
}

impl ValidationError {
    pub open spec fn prefix(&self) -> Seq<char> {
        match self {
            ValidationError::InvalidUsername(_) => "Invalid username: "@,
            ValidationError::InvalidEmail(_) => "Invalid email: "@,
            ValidationError::InvalidInput(_) => "Invalid input: "@,
            ValidationError::PotentialSQLInjection(_) => "Potential SQL injection detected: "@,
            ValidationError::PotentialXSS(_) => "Potential XSS detected: "@,
            ValidationError::InvalidRange(_) => "Value out of range: "@,
            ValidationError::InvalidFHIR(_) => "Invalid FHIR data: "@,
            ValidationError::TooLong(_) => "Input too long: "@,
            ValidationError::TooShort(_) => "Input too short: "@,
        }
    }

    pub open spec fn detail(&self) -> Seq<char> {
        match self {
            ValidationError::InvalidUsername(m) => m@,
            ValidationError::InvalidEmail(m) => m@,
            ValidationError::InvalidInput(m) => m@,
            ValidationError::PotentialSQLInjection(m) => m@,
            ValidationError::PotentialXSS(m) => m@,
            ValidationError::InvalidRange(m) => m@,
            ValidationError::InvalidFHIR(m) => m@,
            ValidationError::TooLong(m) => m@,
            ValidationError::TooShort(m) => m@,
        }
    }

    /// The error as text: a phrase naming the kind, then the detail.
    pub fn message(&self) -> (r: String)
        ensures
            r@ == self.prefix() + self.detail(),
    {
        let (p, m) = match self {
            ValidationError::InvalidUsername(m) => ("Invalid username: ", m),
            ValidationError::InvalidEmail(m) => ("Invalid email: ", m),
            ValidationError::InvalidInput(m) => ("Invalid input: ", m),
            ValidationError::PotentialSQLInjection(m) => ("Potential SQL injection detected: ", m),
            ValidationError::PotentialXSS(m) => ("Potential XSS detected: ", m),
            ValidationError::InvalidRange(m) => ("Value out of range: ", m),
            ValidationError::InvalidFHIR(m) => ("Invalid FHIR data: ", m),
            ValidationError::TooLong(m) => ("Input too long: ", m),
            ValidationError::TooShort(m) => ("Input too short: ", m),
        };
        let mut v: Vec<char> = Vec::new();
        push_text(&mut v, p);
        push_text(&mut v, m.as_str());
        string_from_chars(&v)
    }
}

// ---------------------------------------------------------------------------
// Sanitizers
// ---------------------------------------------------------------------------

/// Characters that `sanitize_string` keeps.
pub open spec fn kept_by_sanitizer(c: char) -> bool {
    alphanumeric(c) || white_space(c) || c == '-' || c == '_' || c == '.' || c == '@' || c == ','
}

/// The characters of `s` that `sanitize_string` keeps, in order.
pub open spec fn sanitized(s: Seq<char>) -> Seq<char>
    decreases s.len(),
{
    if s.len() == 0 {
        s
    } else if kept_by_sanitizer(s.last()) {
        sanitized(s.drop_last()).push(s.last())
    } else {
        sanitized(s.drop_last())
    }
}

/// Keeps letters, digits, white space and the characters `- _ . @ ,`; drops
/// everything else.
pub fn sanitize_string(input: &str) -> (r: String)
    ensures
        r@ == sanitized(input@),
{
    let cs = chars_of(input);
    let mut out: Vec<char> = Vec::new();
    let mut i: usize = 0;
    while i < cs.len()
        invariant
            cs@ == input@,
            i <= cs@.len(),
            out@ == sanitized(input@.subrange(0, i as int)),
        decreases cs@.len() - i,
    {
        let c = cs[i];
        let keep = is_alphanumeric_char(c) || is_whitespace_char(c) || c == '-' || c == '_'
            || c == '.' || c == '@' || c == ',';
        assert(input@.subrange(0, i + 1).drop_last() =~= input@.subrange(0, i as int));
        if keep {
            out.push(c);
        }
        i = i + 1;
    }
    assert(input@.subrange(0, i as int) =~= input@);
    string_from_chars(&out)
}

/// The entity that `sanitize_html` writes for one character.
pub open spec fn escaped_char(c: char) -> Seq<char> {
    if c == '&' {
        "&amp;"@
    } else if c == '<' {
        "&lt;"@
    } else if c == '>' {
        "&gt;"@
    } else if c == '"' {
        "&quot;"@
    } else if c == '\'' {
        "&#x27;"@
    } else if c == '/' {
        "&#x2F;"@
    } else {
        seq![c]
    }
}

/// `s` with each of `& < > " ' /` replaced by its entity.
pub open spec fn escaped_html(s: Seq<char>) -> Seq<char>
    decreases s.len(),
{
    if s.len() == 0 {
        s
    } else {
        escaped_html(s.drop_last()) + escaped_char(s.last())
    }
}

/// Escapes the six characters `& < > " ' /` as HTML entities.
pub fn sanitize_html(input: &str) -> (r: String)
    ensures
        r@ == escaped_html(input@),
{
    let cs = chars_of(input);
    let mut out: Vec<char> = Vec::new();
    let mut i: usize = 0;
    while i < cs.len()
        invariant
            cs@ == input@,
            i <= cs@.len(),
            out@ == escaped_html(input@.subrange(0, i as int)),
        decreases cs@.len() - i,
    {
        let c = cs[i];
        assert(input@.subrange(0, i + 1).drop_last() =~= input@.subrange(0, i as int));
        if c == '&' {
            push_text(&mut out, "&amp;");
        } else if c == '<' {
            push_text(&mut out, "&lt;");
        } else if c == '>' {
            push_text(&mut out, "&gt;");
        } else if c == '"' {
            push_text(&mut out, "&quot;");
        } else if c == '\'' {
            push_text(&mut out, "&#x27;");
        } else if c == '/' {
            push_text(&mut out, "&#x2F;");
        } else {
            out.push(c);
        }
        i = i + 1;
    }
    assert(input@.subrange(0, i as int) =~= input@);
    string_from_chars(&out)
}

/// Position of the first `>` in `s`, or -1 when there is none.
pub open spec fn first_close(s: Seq<char>) -> int
    decreases s.len(),
{
    if s.len() == 0 {
        -1
    } else if s[0] == '>' {
        0
    } else {
        let r = first_close(s.drop_first());
        if r < 0 { -1 } else { r + 1 }
    }
}

proof fn lemma_first_close_bound(s: Seq<char>)
    ensures
        -1 <= first_close(s) < s.len(),
        first_close(s) >= 0 ==> s[first_close(s)] == '>',
    decreases s.len(),
{
    if s.len() > 0 && s[0] != '>' {
        lemma_first_close_bound(s.drop_first());
    }
}

proof fn lemma_first_close_at(s: Seq<char>, j: int)
    requires
        0 <= j < s.len(),
        s[j] == '>',
        forall|k: int| 0 <= k < j ==> s[k] != '>',
    ensures
        first_close(s) == j,
    decreases j,
{
    if j > 0 {
        lemma_first_close_at(s.drop_first(), j - 1);
    }
}

proof fn lemma_first_close_none(s: Seq<char>)
    requires
        forall|k: int| 0 <= k < s.len() ==> s[k] != '>',
    ensures
        first_close(s) == -1,
    decreases s.len(),
{
    if s.len() > 0 {
        lemma_first_close_none(s.drop_first());
    }
}

/// `s` with every tag removed: a tag runs from a `<` to the first `>` after
/// it; a `<` with no `>` after it is kept as text.
pub open spec fn without_tags(s: Seq<char>) -> Seq<char>
    decreases s.len(),
{
    if s.len() == 0 {
        s
    } else if s[0] == '<' && 0 <= first_close(s) < s.len() {
        without_tags(s.subrange(first_close(s) + 1, s.len() as int))
    } else {
        seq![s[0]] + without_tags(s.drop_first())
    }
}

/// Removes everything of the form `<...>`.
pub fn strip_html_tags(input: &str) -> (r: String)
    ensures
        r@ == without_tags(input@),
{
    let cs = chars_of(input);
    let n = cs.len();
    let mut out: Vec<char> = Vec::new();
    let mut i: usize = 0;
    assert(input@.subrange(0, n as int) =~= input@);
    assert(out@ + without_tags(input@) =~= without_tags(input@));
    while i < n
        invariant
            cs@ == input@,
            n == cs@.len(),
            i <= n,
            out@ + without_tags(input@.subrange(i as int, n as int)) == without_tags(input@),
        decreases n - i,
    {
        let ghost rest = input@.subrange(i as int, n as int);
        let c = cs[i];
        let mut j: usize = i + 1;
        if c == '<' {
            while j < n && cs[j] != '>'
                invariant
                    cs@ == input@,
                    n == cs@.len(),
                    i < j <= n,
                    forall|k: int| i < k < j ==> cs@[k] != '>',
                decreases n - j,
            {
                j = j + 1;
            }
        }
        assert(rest[0] == c);
        if c == '<' && j < n {
            proof {
                assert forall|k: int| 0 <= k < j - i implies rest[k] != '>' by {
                    if k > 0 {
                        assert(rest[k] == cs@[i + k]);
                    }
                }
                lemma_first_close_at(rest, j - i);
                lemma_first_close_bound(rest);
                assert(rest.subrange(j - i + 1, rest.len() as int) =~= input@.subrange(j + 1, n as int));
            }
            i = j + 1;
        } else {
            proof {
                if c == '<' {
                    assert forall|k: int| 0 <= k < rest.len() implies rest[k] != '>' by {
                        if k > 0 {
                            assert(rest[k] == cs@[i + k]);
                        }
                    }
                    lemma_first_close_none(rest);
                }
                if c != '<' {
                    lemma_first_close_bound(rest);
                }
                assert(rest.drop_first() =~= input@.subrange(i + 1, n as int));
            }
            out.push(c);
            i = i + 1;
            assert(out@ + without_tags(input@.subrange(i as int, n as int)) =~= without_tags(input@));
        }
    }
    assert(out@ + without_tags(input@.subrange(i as int, n as int)) =~= out@);
    string_from_chars(&out)
}

fn owned(s: &str) -> (r: String)
    ensures
        r@ == s@,
{
    s.to_owned()
}

// ---------------------------------------------------------------------------
// Usernames and e-mail addresses
// ---------------------------------------------------------------------------

pub open spec fn ascii_letter(c: char) -> bool {
    ('a' <= c && c <= 'z') || ('A' <= c && c <= 'Z')
}

pub open spec fn ascii_digit(c: char) -> bool {
    '0' <= c && c <= '9'
}

/// A character allowed in a username: `[A-Za-z0-9_-]`.
pub open spec fn username_char(c: char) -> bool {
    ascii_letter(c) || ascii_digit(c) || c == '_' || c == '-'
}

pub open spec fn all_username_chars(s: Seq<char>) -> bool {
    forall|i: int| 0 <= i < s.len() ==> username_char(#[trigger] s[i])
}

/// Checks a username: not empty, 3 to 30 bytes long, and only the characters
/// `[A-Za-z0-9_-]`.
pub fn validate_username(username: &str) -> (r: Result<(), ValidationError>)
    ensures
        username@.len() == 0 ==> (r matches Err(ValidationError::InvalidUsername(m))
            && m@ == "Username cannot be empty"@),
        username@.len() != 0 && username.len() < 3 ==> (r matches Err(ValidationError::TooShort(m))
            && m@ == "Username must be at least 3 characters"@),
        username.len() > 30 ==> (r matches Err(ValidationError::TooLong(m))
            && m@ == "Username must be at most 30 characters"@),
        username@.len() != 0 && 3 <= username.len() <= 30 ==> {
            &&& (r is Ok <==> all_username_chars(username@))
            &&& (r is Err ==> (r matches Err(ValidationError::InvalidUsername(m))
                && m@ == "Username can only contain letters, numbers, underscore, and hyphen"@))
        },
{
    if username.is_empty() {
        return Err(ValidationError::InvalidUsername(owned("Username cannot be empty")));
    }
    if username.len() < 3 {
        return Err(ValidationError::TooShort(owned("Username must be at least 3 characters")));
    }
    if username.len() > 30 {
        return Err(ValidationError::TooLong(owned("Username must be at most 30 characters")));
    }
    let cs = chars_of(username);
    let mut i: usize = 0;
    while i < cs.len()
        invariant
            cs@ == username@,
            3 <= username.len() <= 30,
            i <= cs@.len(),
            forall|k: int| 0 <= k < i ==> username_char(#[trigger] cs@[k]),
        decreases cs@.len() - i,
    {
        let c = cs[i];
        let ok = ('a' <= c && c <= 'z') || ('A' <= c && c <= 'Z') || ('0' <= c && c <= '9')
            || c == '_' || c == '-';
        if !ok {
            return Err(
                ValidationError::InvalidUsername(
                    owned("Username can only contain letters, numbers, underscore, and hyphen"),
                ),
            );
        }
        i = i + 1;
    }
    Ok(())
}

/// A character allowed before the `@` of an address: `[A-Za-z0-9._%+-]`.
pub open spec fn local_char(c: char) -> bool {
    ascii_letter(c) || ascii_digit(c) || c == '.' || c == '_' || c == '%' || c == '+' || c == '-'
}

/// A character allowed in the domain of an address: `[A-Za-z0-9.-]`.
pub open spec fn domain_char(c: char) -> bool {
    ascii_letter(c) || ascii_digit(c) || c == '.' || c == '-'
}

/// `s` reads as local part, `@` at `at`, domain, `.` at `dot`, top-level
/// domain: each part non-empty, the top-level domain two or more letters.
pub open spec fn email_parts(s: Seq<char>, at: int, dot: int) -> bool {
    &&& 0 < at
    &&& at + 1 < dot
    &&& dot + 3 <= s.len()
    &&& forall|k: int| 0 <= k < at ==> local_char(#[trigger] s[k])
    &&& s[at] == '@'
    &&& forall|k: int| at < k < dot ==> domain_char(#[trigger] s[k])
    &&& s[dot] == '.'
    &&& forall|k: int| dot < k < s.len() ==> ascii_letter(#[trigger] s[k])
}

/// The shape `^[A-Za-z0-9._%+-]+@[A-Za-z0-9.-]+\.[A-Za-z]{2,}$`.
pub open spec fn email_shaped(s: Seq<char>) -> bool {
    exists|at: int, dot: int| email_parts(s, at, dot)
}

fn email_shape(cs: &Vec<char>) -> (r: bool)
    ensures
        r == email_shaped(cs@),
{
    let n = cs.len();
    let mut at: usize = 0;
    while at < n && (('a' <= cs[at] && cs[at] <= 'z') || ('A' <= cs[at] && cs[at] <= 'Z')
        || ('0' <= cs[at] && cs[at] <= '9') || cs[at] == '.' || cs[at] == '_' || cs[at] == '%'
        || cs[at] == '+' || cs[at] == '-')
        invariant
            n == cs@.len(),
            at <= n,
            forall|k: int| 0 <= k < at ==> local_char(#[trigger] cs@[k]),
        decreases n - at,
    {
        at = at + 1;
    }
    if at == 0 || at == n || cs[at] != '@' {
        proof {
            assert forall|a: int, d: int| !email_parts(cs@, a, d) by {
                if email_parts(cs@, a, d) {
                    if a < at {
                        assert(local_char(cs@[a]));
                    } else if a > at {
                        assert(local_char(cs@[at as int]));
                    }
                }
            }
        }
        return false;
    }
    // the last '.' after the '@'
    let mut dot: usize = n;
    let mut k: usize = n;
    while k > at + 1 && dot == n
        invariant
            n == cs@.len(),
            at < n,
            at + 1 <= k <= n,
            dot == n || (at + 1 <= dot < n && cs@[dot as int] == '.'),
            dot == n ==> forall|q: int| k <= q < n ==> cs@[q] != '.',
            dot < n ==> forall|q: int| dot < q < n ==> cs@[q] != '.',
        decreases k,
    {
        k = k - 1;
        if cs[k] == '.' {
            dot = k;
        }
    }
    proof {
        // `at` is the only possible position of the '@'
        assert forall|a: int, d: int| email_parts(cs@, a, d) implies a == at by {
            if a < at {
                assert(local_char(cs@[a]));
            } else if a > at {
                assert(local_char(cs@[at as int]));
            }
        }
        // `dot` is the only possible position of the last '.'
        assert forall|a: int, d: int| email_parts(cs@, a, d) implies d == dot by {
            assert(a == at);
            if dot == n {
                if d < k {
                    assert(d <= at + 1);
                }
                assert(cs@[d] == '.');
            } else if d < dot {
                assert(ascii_letter(cs@[dot as int]));
            } else if d > dot {
                assert(cs@[d] == '.');
            }
        }
    }
    if !(dot < n && at + 1 < dot && n - dot >= 3) {
        return false;
    }
    let mut ok = true;
    let mut q: usize = at + 1;
    while ok && q < dot
        invariant
            n == cs@.len(),
            at + 1 < dot < n,
            at + 1 <= q <= dot,
            ok ==> forall|t: int| at < t < q ==> domain_char(#[trigger] cs@[t]),
            !ok ==> at + 1 < q && !domain_char(cs@[q - 1]),
        decreases n - q,
    {
        let c = cs[q];
        ok = ('a' <= c && c <= 'z') || ('A' <= c && c <= 'Z') || ('0' <= c && c <= '9')
            || c == '.' || c == '-';
        q = q + 1;
    }
    if !ok {
        proof {
            assert forall|a: int, d: int| !email_parts(cs@, a, d) by {
                if email_parts(cs@, a, d) {
                    assert(domain_char(cs@[q - 1]));
                }
            }
        }
        return false;
    }
    let mut q2: usize = dot + 1;
    while ok && q2 < n
        invariant
            n == cs@.len(),
            dot < n,
            dot + 1 <= q2 <= n,
            ok ==> forall|t: int| dot < t < q2 ==> ascii_letter(#[trigger] cs@[t]),
            !ok ==> dot + 1 < q2 && !ascii_letter(cs@[q2 - 1]),
        decreases n - q2,
    {
        let c = cs[q2];
        ok = ('a' <= c && c <= 'z') || ('A' <= c && c <= 'Z');
        q2 = q2 + 1;
    }
    proof {
        if ok {
            assert(email_parts(cs@, at as int, dot as int));
        } else {
            assert forall|a: int, d: int| !email_parts(cs@, a, d) by {
                if email_parts(cs@, a, d) {
                    assert(ascii_letter(cs@[q2 - 1]));
                }
            }
        }
    }
    ok
}

/// Checks an e-mail address: not empty, at most 254 bytes, and of the shape
/// `local@domain.tld`.
pub fn validate_email(email: &str) -> (r: Result<(), ValidationError>)
    ensures
        email@.len() == 0 ==> (r matches Err(ValidationError::InvalidEmail(m))
            && m@ == "Email cannot be empty"@),
        email.len() > 254 ==> (r matches Err(ValidationError::TooLong(m))
            && m@ == "Email is too long"@),
        email@.len() != 0 && email.len() <= 254 ==> {
            &&& (r is Ok <==> email_shaped(email@))
            &&& (r is Err ==> (r matches Err(ValidationError::InvalidEmail(m))
                && m@ == "Invalid email format"@))
        },
{
    if email.is_empty() {
        return Err(ValidationError::InvalidEmail(owned("Email cannot be empty")));
    }
    if email.len() > 254 {
        return Err(ValidationError::TooLong(owned("Email is too long")));
    }
    let cs = chars_of(email);
    if !email_shape(&cs) {
        return Err(ValidationError::InvalidEmail(owned("Invalid email format")));
    }
    Ok(())
}

// ---------------------------------------------------------------------------
// Injection heuristics
// ---------------------------------------------------------------------------

/// One of the SQL keywords (or script markers) occurs, ignoring case.
pub open spec fn sql_flagged(s: Seq<char>) -> bool {
    contains_folded(s, "union"@) || contains_folded(s, "select"@) || contains_folded(s, "insert"@)
        || contains_folded(s, "update"@) || contains_folded(s, "delete"@) || contains_folded(s, "drop"@)
        || contains_folded(s, "create"@) || contains_folded(s, "alter"@) || contains_folded(s, "exec"@)
        || contains_folded(s, "execute"@) || contains_folded(s, "script"@)
        || contains_folded(s, "javascript"@) || contains_folded(s, "<script"@)
}

/// One of the script markers occurs, ignoring case.
pub open spec fn xss_flagged(s: Seq<char>) -> bool {
    contains_folded(s, "<script"@) || contains_folded(s, "javascript:"@)
        || contains_folded(s, "onerror="@) || contains_folded(s, "onload="@)
        || contains_folded(s, "onclick="@) || contains_folded(s, "<iframe"@)
        || contains_folded(s, "<object"@) || contains_folded(s, "<embed"@)
}

fn sql_scan(cs: &Vec<char>) -> (r: bool)
    ensures
        r == sql_flagged(cs@),
{
    find_folded(cs, "union") || find_folded(cs, "select") || find_folded(cs, "insert")
        || find_folded(cs, "update") || find_folded(cs, "delete") || find_folded(cs, "drop")
        || find_folded(cs, "create") || find_folded(cs, "alter") || find_folded(cs, "exec")
        || find_folded(cs, "execute") || find_folded(cs, "script")
        || find_folded(cs, "javascript") || find_folded(cs, "<script")
}

fn xss_scan(cs: &Vec<char>) -> (r: bool)
    ensures
        r == xss_flagged(cs@),
{
    find_folded(cs, "<script") || find_folded(cs, "javascript:") || find_folded(cs, "onerror=")
        || find_folded(cs, "onload=") || find_folded(cs, "onclick=") || find_folded(cs, "<iframe")
        || find_folded(cs, "<object") || find_folded(cs, "<embed")
}

/// Rejects text that holds an SQL keyword, ignoring case.
pub fn check_sql_injection(input: &str) -> (r: Result<(), ValidationError>)
    ensures
        r is Ok <==> !sql_flagged(input@),
        r is Err ==> (r matches Err(ValidationError::PotentialSQLInjection(m))
            && m@ == "Input contains suspicious SQL keywords"@),
{
    let cs = chars_of(input);
    if sql_scan(&cs) {
        return Err(ValidationError::PotentialSQLInjection(owned("Input contains suspicious SQL keywords")));
    }
    Ok(())
}

/// Rejects text that holds a script marker, ignoring case.
pub fn check_xss(input: &str) -> (r: Result<(), ValidationError>)
    ensures
        r is Ok <==> !xss_flagged(input@),
        r is Err ==> (r matches Err(ValidationError::PotentialXSS(m))
            && m@ == "Input contains suspicious script patterns"@),
{
    let cs = chars_of(input);
    if xss_scan(&cs) {
        return Err(ValidationError::PotentialXSS(owned("Input contains suspicious script patterns")));
    }
    Ok(())
}

/// Checks that `input` is `min` to `max` bytes long.
pub fn validate_length(input: &str, min: usize, max: usize, field_name: &str) -> (r: Result<(), ValidationError>)
    ensures
        input.len() < min ==> (r matches Err(ValidationError::TooShort(m))
            && m@ == field_name@ + " must be at least "@ + nat_text(min as nat) + " characters"@),
        min <= input.len() && input.len() > max ==> (r matches Err(ValidationError::TooLong(m))
            && m@ == field_name@ + " must be at most "@ + nat_text(max as nat) + " characters"@),
        r is Ok <==> min <= input.len() <= max,
{
    if input.len() < min {
        let mut v: Vec<char> = Vec::new();
        push_text(&mut v, field_name);
        push_text(&mut v, " must be at least ");
        push_decimal(&mut v, min as u64);
        push_text(&mut v, " characters");
        return Err(ValidationError::TooShort(string_from_chars(&v)));
    }
    if input.len() > max {
        let mut v: Vec<char> = Vec::new();
        push_text(&mut v, field_name);
        push_text(&mut v, " must be at most ");
        push_decimal(&mut v, max as u64);
        push_text(&mut v, " characters");
        return Err(ValidationError::TooLong(string_from_chars(&v)));
    }
    Ok(())
}

/// Screens free text: rejects SQL keywords, then script markers; text
/// that passes both comes back HTML-escaped.
pub fn validate_text_input(input: &str, _field_name: &str) -> (r: Result<String, ValidationError>)
    ensures
        sql_flagged(input@) ==> (r matches Err(ValidationError::PotentialSQLInjection(m))
            && m@ == "Input contains suspicious SQL keywords"@),
        !sql_flagged(input@) && xss_flagged(input@) ==> (r matches Err(ValidationError::PotentialXSS(m))
            && m@ == "Input contains suspicious script patterns"@),
        !sql_flagged(input@) && !xss_flagged(input@) ==> (r matches Ok(t) && t@ == escaped_html(input@)),
{
    check_sql_injection(input)?;
    check_xss(input)?;
    Ok(sanitize_html(input))
}

// ---------------------------------------------------------------------------
// Sensor readings
// ---------------------------------------------------------------------------

/// Checks a motion level (a percentage, 0 to 100).
pub fn validate_motion_level(level: i32) -> (r: Result<(), ValidationError>)
    ensures
        r is Ok <==> 0 <= level <= 100,
        r is Err ==> (r matches Err(ValidationError::InvalidRange(m))
            && m@ == "Motion level "@ + int_text(level as int) + " is outside valid range (0-100)"@),
{
    if !(0 <= level && level <= 100) {
        let mut v: Vec<char> = Vec::new();
        push_text(&mut v, "Motion level ");
        push_signed(&mut v, level as i64);
        push_text(&mut v, " is outside valid range (0-100)");
        return Err(ValidationError::InvalidRange(string_from_chars(&v)));
    }
    Ok(())
}

/// Checks a sound level (an ADC reading, 0 to 1023).
pub fn validate_sound_level(level: i32) -> (r: Result<(), ValidationError>)
    ensures
        r is Ok <==> 0 <= level <= 1023,
        r is Err ==> (r matches Err(ValidationError::InvalidRange(m))
            && m@ == "Sound level "@ + int_text(level as int) + " is outside valid range (0-1023)"@),
{
    if !(0 <= level && level <= 1023) {
        let mut v: Vec<char> = Vec::new();
        push_text(&mut v, "Sound level ");
        push_signed(&mut v, level as i64);
        push_text(&mut v, " is outside valid range (0-1023)");
        return Err(ValidationError::InvalidRange(string_from_chars(&v)));
    }
    Ok(())
}

// ---------------------------------------------------------------------------
// FHIR vocabularies
// ---------------------------------------------------------------------------

pub open spec fn fhir_resource_type(s: Seq<char>) -> bool {
    s == "Observation"@ || s == "Patient"@ || s == "Bundle"@ || s == "Practitioner"@
        || s == "Organization"@
}

pub open spec fn fhir_coding_system(s: Seq<char>) -> bool {
    s == "http://loinc.org"@ || s == "http://snomed.info/sct"@
        || s == "http://terminology.hl7.org/CodeSystem/observation-category"@
        || s == "http://terminology.hl7.org/CodeSystem/v3-ObservationInterpretation"@
        || s == "http://unitsofmeasure.org"@
}

pub open spec fn observation_status(s: Seq<char>) -> bool {
    s == "registered"@ || s == "preliminary"@ || s == "final"@ || s == "amended"@
        || s == "corrected"@ || s == "cancelled"@ || s == "entered-in-error"@ || s == "unknown"@
}

fn fhir_error(prefix: &str, value: &str) -> (r: ValidationError)
    ensures
        r matches ValidationError::InvalidFHIR(m) && m@ == prefix@ + value@,
{
    let mut v: Vec<char> = Vec::new();
    push_text(&mut v, prefix);
    push_text(&mut v, value);
    ValidationError::InvalidFHIR(string_from_chars(&v))
}

/// Accepts the FHIR resource types this system handles.
pub fn validate_fhir_resource_type(resource_type: &str) -> (r: Result<(), ValidationError>)
    ensures
        r is Ok <==> fhir_resource_type(resource_type@),
        r is Err ==> (r matches Err(ValidationError::InvalidFHIR(m))
            && m@ == "Invalid FHIR resource type: "@ + resource_type@),
{
    let t = resource_type;
    if same_text(t, "Observation") || same_text(t, "Patient") || same_text(t, "Bundle")
        || same_text(t, "Practitioner") || same_text(t, "Organization") {
        Ok(())
    } else {
        Err(fhir_error("Invalid FHIR resource type: ", t))
    }
}

/// Accepts the coding system URLs this system understands.
pub fn validate_fhir_coding_system(system: &str) -> (r: Result<(), ValidationError>)
    ensures
        r is Ok <==> fhir_coding_system(system@),
        r is Err ==> (r matches Err(ValidationError::InvalidFHIR(m))
            && m@ == "Invalid or unsupported FHIR coding system: "@ + system@),
{
    let t = system;
    if same_text(t, "http://loinc.org") || same_text(t, "http://snomed.info/sct")
        || same_text(t, "http://terminology.hl7.org/CodeSystem/observation-category")
        || same_text(t, "http://terminology.hl7.org/CodeSystem/v3-ObservationInterpretation")
        || same_text(t, "http://unitsofmeasure.org") {
        Ok(())
    } else {
        Err(fhir_error("Invalid or unsupported FHIR coding system: ", t))
    }
}

/// Accepts the observation status codes of FHIR.
pub fn validate_observation_status(status: &str) -> (r: Result<(), ValidationError>)
    ensures
        r is Ok <==> observation_status(status@),
        r is Err ==> (r matches Err(ValidationError::InvalidFHIR(m))
            && m@ == "Invalid observation status: "@ + status@),
{
    let t = status;
    if same_text(t, "registered") || same_text(t, "preliminary") || same_text(t, "final")
        || same_text(t, "amended") || same_text(t, "corrected") || same_text(t, "cancelled")
        || same_text(t, "entered-in-error") || same_text(t, "unknown") {
        Ok(())
    } else {
        Err(fhir_error("Invalid observation status: ", t))
    }
}

// ---------------------------------------------------------------------------
// Query parameters
// ---------------------------------------------------------------------------

/// Checks a page size: more than 0 and at most `max_limit`; returns it.
pub fn validate_limit(limit: usize, max_limit: usize) -> (r: Result<usize, ValidationError>)
    ensures
        limit == 0 ==> (r matches Err(ValidationError::InvalidRange(m))
            && m@ == "Limit must be greater than 0"@),
        limit > max_limit && limit != 0 ==> (r matches Err(ValidationError::InvalidRange(m))
            && m@ == "Limit "@ + nat_text(limit as nat) + " exceeds maximum of "@ + nat_text(max_limit as nat)),
        0 < limit <= max_limit ==> r == Ok::<usize, ValidationError>(limit),
{
    if limit == 0 {
        return Err(ValidationError::InvalidRange(owned("Limit must be greater than 0")));
    }
    if limit > max_limit {
        let mut v: Vec<char> = Vec::new();
        push_text(&mut v, "Limit ");
        push_decimal(&mut v, limit as u64);
        push_text(&mut v, " exceeds maximum of ");
        push_decimal(&mut v, max_limit as u64);
        return Err(ValidationError::InvalidRange(string_from_chars(&v)));
    }
    Ok(limit)
}

/// Checks a time window in minutes: positive and at most seven days (10080).
pub fn validate_time_range_minutes(minutes: i64) -> (r: Result<(), ValidationError>)
    ensures
        minutes <= 0 ==> (r matches Err(ValidationError::InvalidRange(m))
            && m@ == "Time range must be positive"@),
        minutes > 10080 ==> (r matches Err(ValidationError::InvalidRange(m))
            && m@ == "Time range cannot exceed 7 days (10080 minutes)"@),
        r is Ok <==> 0 < minutes <= 10080,
{
    if minutes <= 0 {
        return Err(ValidationError::InvalidRange(owned("Time range must be positive")));
    }
    if minutes > 10080 {
        return Err(ValidationError::InvalidRange(owned("Time range cannot exceed 7 days (10080 minutes)")));
    }
    Ok(())
}

} // verus!
