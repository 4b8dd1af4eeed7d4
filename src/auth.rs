//! Identities and the signup, login and token workflows.
use vstd::prelude::*;
use vstd::string::StrSliceExecFns;
use crate::password::{bcrypt_verdict, digest_prefix, hash_password, verify_password, PasswordError};
use crate::text::{
    chars_of, contains_text, find_text, int_text, is_numeric_char, is_uppercase_char,
    numeric, push_text, same_text, string_from_chars, upper_case,
};
use crate::tokens::{
    claims_of_token, clock_seconds, generate_token, hs256_token, verify_token_at, Claims, TokenConfig,
};

verus! {

/// The professional role of an operator account.
#[derive(Debug, Clone, Copy, PartialEq, Eq, Structural)]
pub enum Cadre {
    Physician,
    Nurse,
    Physiotherapist,
    Caretaker,
}

/// What `str::to_lowercase` makes of a text.
pub uninterp spec fn lower_of(s: Seq<char>) -> Seq<char>;

/// Relies on `str::to_lowercase`: the lower case mapping of `s`, which depends
/// on its characters alone.
#[verifier::external_body]
fn lowercase(s: &str) -> (r: String)
    ensures
        r@ == lower_of(s@),
{
    s.to_lowercase()
}

/// The cadre whose text form is `t` (lower case), if any.
pub open spec fn cadre_named(t: Seq<char>) -> Option<Cadre> {
    if t == "physician"@ {
        Some(Cadre::Physician)
    } else if t == "nurse"@ {
        Some(Cadre::Nurse)
    } else if t == "physiotherapist"@ {
        Some(Cadre::Physiotherapist)
    } else if t == "caretaker"@ {
        Some(Cadre::Caretaker)
    } else {
        None
    }
}

/// Looks up a cadre by its lower case text form.
pub fn cadre_from_lower(t: &str) -> (r: Option<Cadre>)
    ensures
        r == cadre_named(t@),
{
    if crate::text::same_text(t, "physician") {
        Some(Cadre::Physician)
    } else if crate::text::same_text(t, "nurse") {
        Some(Cadre::Nurse)
    } else if crate::text::same_text(t, "physiotherapist") {
        Some(Cadre::Physiotherapist)
    } else if crate::text::same_text(t, "caretaker") {
        Some(Cadre::Caretaker)
    } else {
        None
    }
}

impl Cadre {
    /// The text form: the name in lower case.
    pub open spec fn name(self) -> Seq<char> {
        match self {
            Cadre::Physician => "physician"@,
            Cadre::Nurse => "nurse"@,
            Cadre::Physiotherapist => "physiotherapist"@,
            Cadre::Caretaker => "caretaker"@,
        }
    }

    /// The text form of the cadre.
    pub fn as_str(&self) -> (r: &'static str)
        ensures
            r@ == self.name(),
    {
        match self {
            Cadre::Physician => "physician",
            Cadre::Nurse => "nurse",
            Cadre::Physiotherapist => "physiotherapist",
            Cadre::Caretaker => "caretaker",
        }
    }

    /// Reads a cadre from text, ignoring case; anything else is an unknown
    /// cadre.
    pub fn parse(s: &str) -> (r: Result<Cadre, String>)
        ensures
            match cadre_named(lower_of(s@)) {
                Some(c) => r == Ok::<Cadre, String>(c),
                None => r matches Err(m) && m@ == "Unknown cadre: "@ + s@,
            },
    {
        let t = lowercase(s);
        match cadre_from_lower(t.as_str()) {
            Some(c) => Ok(c),
            None => {
                let mut v: Vec<char> = Vec::new();
                push_text(&mut v, "Unknown cadre: ");
                push_text(&mut v, s);
                Err(string_from_chars(&v))
            },
        }
    }
}

/// A registered operator as the store holds it. `created_at` is in seconds
/// since the Unix epoch (UTC).
#[derive(Debug, Clone)]
pub struct User {
    pub id: i32,
    pub username: String,
    pub fullname: String,
    pub email: String,
    pub cadre: String,
    pub password_hash: String,
    pub created_at: i64,
}

/// The outward view of an operator: everything but the password hash.
#[derive(Debug, Clone)]
pub struct UserInfo {
    pub id: i32,
    pub username: String,
    pub fullname: String,
    pub email: String,
    pub cadre: String,
}

impl User {
    /// `info` is the outward view of this user.
    pub open spec fn shown_as(&self, info: UserInfo) -> bool {
        &&& info.id == self.id
        &&& info.username@ == self.username@
        &&& info.fullname@ == self.fullname@
        &&& info.email@ == self.email@
        &&& info.cadre@ == self.cadre@
    }

    /// The outward view of this user, without the password hash.
    pub fn info(&self) -> (r: UserInfo)
        ensures
            self.shown_as(r),
    {
        UserInfo {
            id: self.id,
            username: self.username.clone(),
            fullname: self.fullname.clone(),
            email: self.email.clone(),
            cadre: self.cadre.clone(),
        }
    }
}

/// Credentials of a login.
#[derive(Debug, Clone)]
pub struct LoginRequest {
    pub username: String,
    pub password: String,
}

/// The fields of a signup.
#[derive(Debug, Clone)]
pub struct SignupRequest {
    pub fullname: String,
    pub username: String,
    pub email: String,
    pub cadre: String,
    pub password: String,
}

/// A successful login: the session token and the operator's outward view.
#[derive(Debug, Clone)]
pub struct AuthResponse {
    pub token: String,
    pub user: UserInfo,
}

/// The body of a failed request.
#[derive(Debug, Clone)]
pub struct ErrorResponse {
    pub error: String,
}

// ---------------------------------------------------------------------------
// Outcomes
// ---------------------------------------------------------------------------

/// How the HTTP layer classifies an outcome.
#[derive(Debug, Clone, Copy, PartialEq, Eq, Structural)]
pub enum HttpStatus {
    Success,
    Created,
    BadRequest,
    Unauthorized,
    NotFound,
    InternalServerError,
}

impl HttpStatus {
    pub open spec fn spec_code(self) -> u16 {
        match self {
            HttpStatus::Success => 200,
            HttpStatus::Created => 201,
            HttpStatus::BadRequest => 400,
            HttpStatus::Unauthorized => 401,
            HttpStatus::NotFound => 404,
            HttpStatus::InternalServerError => 500,
        }
    }

    /// The numeric status code.
    pub fn code(&self) -> (r: u16)
        ensures
            r == self.spec_code(),
    {
        match self {
            HttpStatus::Success => 200,
            HttpStatus::Created => 201,
            HttpStatus::BadRequest => 400,
            HttpStatus::Unauthorized => 401,
            HttpStatus::NotFound => 404,
            HttpStatus::InternalServerError => 500,
        }
    }
}

/// A failed request: its classification and the message shown to the caller.
#[derive(Debug, Clone)]
pub struct Rejection {
    pub status: HttpStatus,
    pub error: ErrorResponse,
}

pub open spec fn rejects(e: Rejection, status: HttpStatus, msg: Seq<char>) -> bool {
    e.status == status && e.error.error@ == msg
}

/// The one answer to a wrong username or a wrong password.
pub open spec fn invalid_credentials(e: Rejection) -> bool {
    rejects(e, HttpStatus::Unauthorized, "Invalid username or password"@)
}

/// The one answer to a missing, malformed, tampered or expired token.
pub open spec fn unauthorized(e: Rejection) -> bool {
    rejects(e, HttpStatus::Unauthorized, "Invalid or expired token"@)
}

/// The one answer to a failure inside the system.
pub open spec fn internal_failure(e: Rejection) -> bool {
    rejects(e, HttpStatus::InternalServerError, "Internal server error"@)
}

fn reject(status: HttpStatus, msg: &str) -> (r: Rejection)
    ensures
        rejects(r, status, msg@),
{
    Rejection { status, error: ErrorResponse { error: msg.to_owned() } }
}

fn reject_credentials() -> (r: Rejection)
    ensures
        invalid_credentials(r),
{
    reject(HttpStatus::Unauthorized, "Invalid username or password")
}

fn reject_token() -> (r: Rejection)
    ensures
        unauthorized(r),
{
    reject(HttpStatus::Unauthorized, "Invalid or expired token")
}

fn reject_internal() -> (r: Rejection)
    ensures
        internal_failure(r),
{
    reject(HttpStatus::InternalServerError, "Internal server error")
}

/// A failed call to the credential store.
#[derive(Debug, Clone, Copy, PartialEq, Eq, Structural)]
pub enum StoreError {
    Failed,
}

// ---------------------------------------------------------------------------
// Signup
// ---------------------------------------------------------------------------

pub open spec fn has_upper_case(s: Seq<char>) -> bool {
    exists|i: int| 0 <= i < s.len() && upper_case(#[trigger] s[i])
}

pub open spec fn has_numeric(s: Seq<char>) -> bool {
    exists|i: int| 0 <= i < s.len() && numeric(#[trigger] s[i])
}

fn any_upper_case(cs: &Vec<char>) -> (r: bool)
    ensures
        r == has_upper_case(cs@),
{
    let mut i: usize = 0;
    while i < cs.len()
        invariant
            i <= cs@.len(),
            forall|k: int| 0 <= k < i ==> !upper_case(#[trigger] cs@[k]),
        decreases cs@.len() - i,
    {
        if is_uppercase_char(cs[i]) {
            return true;
        }
        i = i + 1;
    }
    false
}

fn any_numeric(cs: &Vec<char>) -> (r: bool)
    ensures
        r == has_numeric(cs@),
{
    let mut i: usize = 0;
    while i < cs.len()
        invariant
            i <= cs@.len(),
            forall|k: int| 0 <= k < i ==> !numeric(#[trigger] cs@[k]),
        decreases cs@.len() - i,
    {
        if is_numeric_char(cs[i]) {
            return true;
        }
        i = i + 1;
    }
    false
}

/// The signup policy: a username of 3 bytes or more, a password of 8 bytes
/// or more with an upper case letter and a digit.
pub fn check_signup_fields(username: &str, password: &str) -> (r: Result<(), Rejection>)
    ensures
        username.len() < 3 ==> (r matches Err(e)
            && rejects(e, HttpStatus::BadRequest, "Username must be at least 3 characters"@)),
        username.len() >= 3 && password.len() < 8 ==> (r matches Err(e)
            && rejects(e, HttpStatus::BadRequest, "Password must be at least 8 characters"@)),
        username.len() >= 3 && password.len() >= 8 ==> {
            &&& (r is Ok <==> has_upper_case(password@) && has_numeric(password@))
            &&& (r matches Err(e) ==> rejects(e, HttpStatus::BadRequest,
                "Password must contain at least one uppercase letter and one number"@))
        },
{
    if username.len() < 3 {
        return Err(reject(HttpStatus::BadRequest, "Username must be at least 3 characters"));
    }
    if password.len() < 8 {
        return Err(reject(HttpStatus::BadRequest, "Password must be at least 8 characters"));
    }
    let cs = chars_of(password);
    if !any_upper_case(&cs) || !any_numeric(&cs) {
        return Err(reject(
            HttpStatus::BadRequest,
            "Password must contain at least one uppercase letter and one number",
        ));
    }
    Ok(())
}

/// Why an identity could not be created.
#[derive(Debug, Clone)]
pub enum CreateError {
    /// The cadre field names no cadre; carries the message.
    UnknownCadre(String),
    /// The password could not be hashed.
    HashFailed,
    UsernameTaken,
    EmailTaken,
    /// Some other uniqueness rule of the store was violated.
    AccountExists,
    /// Any other failure of the store.
    Internal,
}

/// The row that a signup inserts.
#[derive(Debug, Clone)]
pub struct NewUser {
    pub username: String,
    pub fullname: String,
    pub email: String,
    pub cadre: String,
    pub password_hash: String,
}

/// Readies a signup for the store: the cadre must parse before anything
/// else is done, then the password is hashed.
pub fn prepare_user(signup: &SignupRequest) -> (r: Result<NewUser, CreateError>)
    ensures
        cadre_named(lower_of(signup.cadre@)) is None ==> (r matches Err(CreateError::UnknownCadre(m))
            && m@ == "Unknown cadre: "@ + signup.cadre@),
        cadre_named(lower_of(signup.cadre@)) is Some ==> (r is Ok || r matches Err(CreateError::HashFailed)),
        r matches Ok(n) ==> {
            &&& n.username@ == signup.username@
            &&& n.fullname@ == signup.fullname@
            &&& n.email@ == signup.email@
            &&& n.cadre@ == signup.cadre@
            &&& bcrypt_verdict(signup.password@, n.password_hash@) == Some(true)
            &&& n.password_hash@.len() == 60
            &&& n.password_hash@.subrange(0, 7) == digest_prefix(12)
        },
{
    match Cadre::parse(signup.cadre.as_str()) {
        Ok(_) => {},
        Err(m) => return Err(CreateError::UnknownCadre(m)),
    }
    let password_hash = match hash_password(signup.password.as_str()) {
        Ok(h) => h,
        Err(_) => return Err(CreateError::HashFailed),
    };
    Ok(NewUser {
        username: signup.username.clone(),
        fullname: signup.fullname.clone(),
        email: signup.email.clone(),
        cadre: signup.cadre.clone(),
        password_hash,
    })
}

/// What a failed insert means, read from the store's error text: a
/// uniqueness violation names the column it is about.
pub open spec fn insert_failure(m: Seq<char>) -> CreateError {
    if !contains_text(m, "unique"@) {
        CreateError::Internal
    } else if contains_text(m, "username"@) {
        CreateError::UsernameTaken
    } else if contains_text(m, "email"@) {
        CreateError::EmailTaken
    } else {
        CreateError::AccountExists
    }
}

/// Maps the store's error text for a failed insert to a create error.
pub fn classify_insert_error(db_message: &str) -> (r: CreateError)
    ensures
        r == insert_failure(db_message@),
{
    if !find_text(db_message, "unique") {
        CreateError::Internal
    } else if find_text(db_message, "username") {
        CreateError::UsernameTaken
    } else if find_text(db_message, "email") {
        CreateError::EmailTaken
    } else {
        CreateError::AccountExists
    }
}

/// A second signup under a username that is taken is refused by the store's
/// uniqueness rule on that column; its error names the conflict, so the answer
/// is a client error saying the username exists, not an internal failure.
pub proof fn lemma_duplicate_username_is_a_conflict(db_message: Seq<char>)
    requires
        contains_text(db_message, "unique"@),
        contains_text(db_message, "username"@),
    ensures
        insert_failure(db_message) == CreateError::UsernameTaken,
{
}

/// The answer to a signup, given what the store did with it.
pub fn signup_outcome(created: Result<User, CreateError>) -> (r: Result<UserInfo, Rejection>)
    ensures
        match created {
            Ok(u) => r matches Ok(i) && u.shown_as(i),
            Err(CreateError::UnknownCadre(m)) => r matches Err(e) && rejects(e, HttpStatus::BadRequest, m@),
            Err(CreateError::UsernameTaken) => r matches Err(e)
                && rejects(e, HttpStatus::BadRequest, "Username already exists"@),
            Err(CreateError::EmailTaken) => r matches Err(e)
                && rejects(e, HttpStatus::BadRequest, "Email already exists"@),
            Err(CreateError::AccountExists) => r matches Err(e)
                && rejects(e, HttpStatus::BadRequest, "User already exists"@),
            Err(_) => r matches Err(e) && internal_failure(e),
        },
{
    match created {
        Ok(u) => Ok(u.info()),
        Err(CreateError::UnknownCadre(m)) => Err(
            Rejection { status: HttpStatus::BadRequest, error: ErrorResponse { error: m } },
        ),
        Err(CreateError::UsernameTaken) => Err(reject(HttpStatus::BadRequest, "Username already exists")),
        Err(CreateError::EmailTaken) => Err(reject(HttpStatus::BadRequest, "Email already exists")),
        Err(CreateError::AccountExists) => Err(reject(HttpStatus::BadRequest, "User already exists")),
        Err(_) => Err(reject_internal()),
    }
}

// ---------------------------------------------------------------------------
// Login
// ---------------------------------------------------------------------------

/// Decides a login once the user was looked up and, where one was found, the
/// password was checked against its hash (`verdict`; not read when no user was
/// found). A missing user and a wrong password get the same answer.
pub fn decide_login(found: Option<User>, verdict: Result<bool, PasswordError>) -> (r: Result<User, Rejection>)
    ensures
        found is None ==> (r matches Err(e) && invalid_credentials(e)),
        found matches Some(u) ==> match verdict {
            Ok(true) => r == Ok::<User, Rejection>(u),
            Ok(false) => r matches Err(e) && invalid_credentials(e),
            Err(_) => r matches Err(e) && internal_failure(e),
        },
{
    match found {
        None => Err(reject_credentials()),
        Some(u) => match verdict {
            Ok(true) => Ok(u),
            Ok(false) => Err(reject_credentials()),
            Err(_) => Err(reject_internal()),
        },
    }
}

/// A login for an unknown username and one with a wrong password are
/// answered alike: the same status and the same message, so that the answer
/// does not tell which of the two was wrong.
pub proof fn lemma_login_failures_alike(unknown: Rejection, wrong: Rejection)
    requires
        invalid_credentials(unknown),
        invalid_credentials(wrong),
    ensures
        unknown.status == wrong.status,
        unknown.error.error@ == wrong.error.error@,
{
}

/// A login: the result of looking the username up, and the password given.
pub fn login(config: &TokenConfig, lookup: Result<Option<User>, StoreError>, password: &str) -> (r: Result<AuthResponse, Rejection>)
    ensures
        lookup is Err ==> (r matches Err(e) && internal_failure(e)),
        lookup matches Ok(None) ==> (r matches Err(e) && invalid_credentials(e)),
        lookup matches Ok(Some(u)) ==> match bcrypt_verdict(password@, u.password_hash@) {
            Some(false) => r matches Err(e) && invalid_credentials(e),
            None => r matches Err(e) && internal_failure(e),
            Some(true) => match r {
                Ok(a) => u.shown_as(a.user) && exists|now: u64| now + config.window() <= u64::MAX
                    && a.token@ == #[trigger] hs256_token(config.secret@, int_text(u.id as int),
                    u.username@, u.cadre@, now, (now + config.window()) as u64),
                Err(e) => rejects(e, HttpStatus::InternalServerError,
                    "Failed to generate authentication token"@),
            },
        },
{
    let found = match lookup {
        Ok(f) => f,
        Err(_) => return Err(reject_internal()),
    };
    let verdict = match &found {
        Some(u) => verify_password(password, u.password_hash.as_str()),
        None => Ok(false),
    };
    let user = decide_login(found, verdict)?;
    match generate_token(config, &user) {
        Ok(token) => Ok(AuthResponse { token, user: user.info() }),
        Err(_) => Err(reject(HttpStatus::InternalServerError, "Failed to generate authentication token")),
    }
}

// ---------------------------------------------------------------------------
// Bearer tokens
// ---------------------------------------------------------------------------

/// The token of an authorization header: what follows the exact prefix
/// `Bearer ` (one space, case as written).
pub open spec fn bearer_of(header: Seq<char>) -> Option<Seq<char>> {
    if header.len() >= 7 && header.subrange(0, 7) == "Bearer "@ {
        Some(header.subrange(7, header.len() as int))
    } else {
        None
    }
}

/// Takes the token out of an authorization header, if it has the `Bearer `
/// prefix.
pub fn extract_bearer_token(header: Option<&str>) -> (r: Option<&str>)
    ensures
        match header {
            None => r is None,
            Some(h) => match bearer_of(h@) {
                None => r is None,
                Some(t) => r matches Some(x) && x@ == t,
            },
        },
{
    match header {
        None => None,
        Some(h) => {
            let n = h.unicode_len();
            if n < 7 {
                return None;
            }
            let head = h.substring_char(0, 7);
            if !same_text(head, "Bearer ") {
                return None;
            }
            Some(h.substring_char(7, n))
        },
    }
}

/// Checks the authorization header of a request at time `now`: a missing
/// header, a header without the `Bearer ` prefix and a token that does not
/// verify all get the same answer. A header carrying a token signed under the
/// secret that has not expired at `now` is accepted, with that token's claims.
pub fn verify_request_at(config: &TokenConfig, header: Option<&str>, now: u64) -> (r: Result<Claims, Rejection>)
    ensures
        r matches Err(e) ==> unauthorized(e),
        header is None ==> r is Err,
        header matches Some(h) && bearer_of(h@) is None ==> r is Err,
        r matches Ok(c) ==> (header matches Some(h) && bearer_of(h@) matches Some(t)
            && claims_of_token(c, config.secret@, t) && now < c.exp),
        forall|s: Seq<char>, u: Seq<char>, k: Seq<char>, i: u64, e: u64|
            header matches Some(h) && bearer_of(h@) == Some(#[trigger] hs256_token(config.secret@, s, u, k, i, e))
            && now < e ==> r is Ok,
{
    let token = match extract_bearer_token(header) {
        Some(t) => t,
        None => return Err(reject_token()),
    };
    match verify_token_at(config, token, now) {
        Ok(c) => Ok(c),
        Err(_) => Err(reject_token()),
    }
}

/// Checks the authorization header of a request now (see `verify_request_at`);
/// an unreadable clock counts as a token that does not verify.
pub fn verify_request(config: &TokenConfig, header: Option<&str>) -> (r: Result<Claims, Rejection>)
    ensures
        r matches Err(e) ==> unauthorized(e),
        header is None ==> r is Err,
        header matches Some(h) && bearer_of(h@) is None ==> r is Err,
        r matches Ok(c) ==> (header matches Some(h) && bearer_of(h@) matches Some(t)
            && claims_of_token(c, config.secret@, t)),
{
    match clock_seconds() {
        Some(now) => verify_request_at(config, header, now),
        None => Err(reject_token()),
    }
}

/// The claims of a request's bearer token, where it has a valid one.
pub fn extract_user_from_request(config: &TokenConfig, header: Option<&str>) -> (r: Option<Claims>)
    ensures
        header is None ==> r is None,
        header matches Some(h) && bearer_of(h@) is None ==> r is None,
        r matches Some(c) ==> (header matches Some(h) && bearer_of(h@) matches Some(t)
            && claims_of_token(c, config.secret@, t)),
{
    match verify_request(config, header) {
        Ok(c) => Some(c),
        Err(_) => None,
    }
}

/// The answer to "who am I", given the fresh lookup of the token's username.
pub fn me_outcome(lookup: Result<Option<User>, StoreError>) -> (r: Result<UserInfo, Rejection>)
    ensures
        match lookup {
            Ok(Some(u)) => r matches Ok(i) && u.shown_as(i),
            Ok(None) => r matches Err(e) && rejects(e, HttpStatus::NotFound, "User not found"@),
            Err(_) => r matches Err(e) && internal_failure(e),
        },
{
    match lookup {
        Ok(Some(u)) => Ok(u.info()),
        Ok(None) => Err(reject(HttpStatus::NotFound, "User not found")),
        Err(_) => Err(reject_internal()),
    }
}

} // verus!
