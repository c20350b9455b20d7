//! The middleware that lets through only CORS preflight requests and requests
//! that carry a valid bearer token of a known user.
//!
//! A preflight (`OPTIONS`) request goes through at once. For any other,
//! deciding is split in steps: the token read from the `Authorization` header
//! is handed out to be verified, the user it names is handed out to be looked
//! up, and the request is forwarded only when both succeed. A request that
//! fails any step is answered with 401 Unauthorized.

use vstd::prelude::*;
use vstd::string::*;

use crate::errors::{AppError, AppErrorMessage, ErrorBody, ErrorResponse};

verus! {

/// The keyword that precedes the token in the `Authorization` header.
pub open spec fn bearer_keyword() -> Seq<char> {
    seq!['B', 'e', 'a', 'r', 'e', 'r']
}

/// `p` occurs in `s` starting at index `i`.
pub open spec fn occurs_at(s: Seq<char>, p: Seq<char>, i: int) -> bool {
    &&& 0 <= i
    &&& i + p.len() <= s.len()
    &&& s.subrange(i, i + p.len()) == p
}

/// The first index at or after `from` where `p` occurs in `s`, or the length
/// of `s` when there is none.
pub open spec fn next_match(s: Seq<char>, p: Seq<char>, from: int) -> int
    decreases s.len() - from,
{
    if from < 0 || from >= s.len() {
        s.len() as int
    } else if occurs_at(s, p, from) {
        from
    } else {
        next_match(s, p, from + 1)
    }
}

/// The piece of `s` after the first `Bearer` and before the next one (or the
/// end): the second piece of `s` split at `Bearer`, if `s` holds the keyword.
pub open spec fn second_piece(s: Seq<char>) -> Option<Seq<char>> {
    let first = next_match(s, bearer_keyword(), 0);
    if first < s.len() {
        let start = first + bearer_keyword().len();
        Some(s.subrange(start, next_match(s, bearer_keyword(), start)))
    } else {
        None
    }
}

/// A Unicode white space character (the `White_Space` property).
pub open spec fn is_white_space(c: char) -> bool {
    let u = c as u32;
    ||| 9 <= u <= 13
    ||| u == 32
    ||| u == 0x85
    ||| u == 0xa0
    ||| u == 0x1680
    ||| 0x2000 <= u <= 0x200a
    ||| u == 0x2028
    ||| u == 0x2029
    ||| u == 0x202f
    ||| u == 0x205f
    ||| u == 0x3000
}

/// `s` without its leading white space.
pub open spec fn trim_start(s: Seq<char>) -> Seq<char>
    decreases s.len(),
{
    if s.len() > 0 && is_white_space(s[0]) {
        trim_start(s.drop_first())
    } else {
        s
    }
}

/// `s` without its trailing white space.
pub open spec fn trim_end(s: Seq<char>) -> Seq<char>
    decreases s.len(),
{
    if s.len() > 0 && is_white_space(s.last()) {
        trim_end(s.drop_last())
    } else {
        s
    }
}

/// `s` without its leading and trailing white space.
pub open spec fn trim(s: Seq<char>) -> Seq<char> {
    trim_end(trim_start(s))
}

/// The token that an `Authorization` header carries: the piece after the
/// first `Bearer`, up to the next `Bearer` or the end, without surrounding
/// white space.
pub open spec fn bearer_token_of(header: Seq<char>) -> Option<Seq<char>> {
    match second_piece(header) {
        Some(piece) => Some(trim(piece)),
        None => None,
    }
}

/// The text of an optional header, as a sequence of characters.
pub open spec fn header_view(header: Option<&str>) -> Option<Seq<char>> {
    match header {
        Some(h) => Some(h@),
        None => None,
    }
}

proof fn lemma_next_match_bounds(s: Seq<char>, p: Seq<char>, from: int)
    requires
        0 <= from <= s.len(),
    ensures
        from <= next_match(s, p, from) <= s.len(),
        next_match(s, p, from) < s.len() ==> occurs_at(s, p, next_match(s, p, from)),
        forall|j: int| from <= j < next_match(s, p, from) ==> !occurs_at(s, p, j),
    decreases s.len() - from,
{
    if from < s.len() && !occurs_at(s, p, from) {
        lemma_next_match_bounds(s, p, from + 1);
    }
}

proof fn lemma_next_match_none(s: Seq<char>, p: Seq<char>, from: int)
    requires
        0 <= from <= s.len(),
        forall|j: int| from <= j < s.len() ==> !occurs_at(s, p, j),
    ensures
        next_match(s, p, from) == s.len(),
    decreases s.len() - from,
{
    if from < s.len() {
        lemma_next_match_none(s, p, from + 1);
    }
}

proof fn lemma_trim_start_of_clean(s: Seq<char>)
    requires
        s.len() == 0 || !is_white_space(s[0]),
    ensures
        trim_start(s) == s,
{
}

proof fn lemma_trim_end_of_clean(s: Seq<char>)
    requires
        s.len() == 0 || !is_white_space(s.last()),
    ensures
        trim_end(s) == s,
{
}

proof fn lemma_trim_start_clean(s: Seq<char>)
    ensures
        trim_start(s).len() == 0 || !is_white_space(trim_start(s)[0]),
        trim_start(s).len() <= s.len(),
    decreases s.len(),
{
    if s.len() > 0 && is_white_space(s[0]) {
        lemma_trim_start_clean(s.drop_first());
    }
}

proof fn lemma_trim_end_clean(s: Seq<char>)
    ensures
        trim_end(s).len() == 0 || !is_white_space(trim_end(s).last()),
        trim_end(s).len() <= s.len(),
        trim_end(s) == s.subrange(0, trim_end(s).len() as int),
    decreases s.len(),
{
    if s.len() > 0 && is_white_space(s.last()) {
        lemma_trim_end_clean(s.drop_last());
        assert(s.drop_last().subrange(0, trim_end(s).len() as int) =~= s.subrange(
            0,
            trim_end(s).len() as int,
        ));
    } else {
        assert(s.subrange(0, s.len() as int) =~= s);
    }
}

/// A trimmed text neither starts nor ends with white space.
pub proof fn lemma_trim_is_clean(s: Seq<char>)
    ensures
        trim(s).len() == 0 || (!is_white_space(trim(s)[0]) && !is_white_space(trim(s).last())),
{
    lemma_trim_start_clean(s);
    lemma_trim_end_clean(trim_start(s));
    let t = trim_start(s);
    let r = trim_end(t);
    if r.len() > 0 {
        assert(r[0] == t[0]);
    }
}

/// Whether the character is white space.
fn is_white_space_char(c: char) -> (res: bool)
    ensures
        res == is_white_space(c),
{
    let u = c as u32;
    (9 <= u && u <= 13) || u == 32 || u == 0x85 || u == 0xa0 || u == 0x1680 || (0x2000 <= u && u
        <= 0x200a) || u == 0x2028 || u == 0x2029 || u == 0x202f || u == 0x205f || u == 0x3000
}

/// The characters of a text, in order.
fn chars_of(s: &str) -> (res: Vec<char>)
    ensures
        res@ == s@,
{
    let n = s.unicode_len();
    let mut v: Vec<char> = Vec::new();
    let mut i: usize = 0;
    while i < n
        invariant
            n == s@.len(),
            i <= n,
            v@ == s@.subrange(0, i as int),
        decreases n - i,
    {
        v.push(s.get_char(i));
        i = i + 1;
        assert(v@ =~= s@.subrange(0, i as int));
    }
    assert(v@ =~= s@);
    v
}

/// Whether `Bearer` occurs in `s` at index `i`.
fn bearer_at(s: &Vec<char>, i: usize) -> (res: bool)
    ensures
        res == occurs_at(s@, bearer_keyword(), i as int),
{
    if i <= s.len() && s.len() - i >= 6 {
        let found = s[i] == 'B' && s[i + 1] == 'e' && s[i + 2] == 'a' && s[i + 3] == 'r' && s[i
            + 4] == 'e' && s[i + 5] == 'r';
        if found {
            assert(s@.subrange(i as int, i + 6) =~= bearer_keyword());
        } else {
            proof {
                let sub = s@.subrange(i as int, i + 6);
                if sub == bearer_keyword() {
                    assert(sub[0] == 'B' && sub[1] == 'e' && sub[2] == 'a');
                    assert(sub[3] == 'r' && sub[4] == 'e' && sub[5] == 'r');
                    assert(false);
                }
            }
        }
        found
    } else {
        false
    }
}

/// The first index at or after `from` where `Bearer` occurs in `s`, or the
/// length of `s`.
fn next_bearer(s: &Vec<char>, from: usize) -> (res: usize)
    requires
        from <= s.len(),
    ensures
        res == next_match(s@, bearer_keyword(), from as int),
{
    let mut i = from;
    while i < s.len()
        invariant
            from <= i <= s.len(),
            next_match(s@, bearer_keyword(), from as int) == next_match(
                s@,
                bearer_keyword(),
                i as int,
            ),
        decreases s.len() - i,
    {
        if bearer_at(s, i) {
            return i;
        }
        i = i + 1;
    }
    i
}

/// Reads the token out of an `Authorization` header: the piece after the
/// first `Bearer`, up to the next `Bearer` or the end, with white space
/// trimmed off both ends. `None` when there is no header or no `Bearer` in it.
pub fn bearer_token(header: Option<&str>) -> (res: Option<String>)
    ensures
        match header {
            Some(h) => match bearer_token_of(h@) {
                Some(t) => res matches Some(r) && r@ == t,
                None => res is None,
            },
            None => res is None,
        },
{
    let h = match header {
        Some(h) => h,
        None => {
            return None;
        },
    };
    let s = chars_of(h);
    let n = s.len();
    let first = next_bearer(&s, 0);
    proof {
        lemma_next_match_bounds(s@, bearer_keyword(), 0);
    }
    if first >= n {
        return None;
    }
    let start = first + 6;
    let end = next_bearer(&s, start);
    proof {
        lemma_next_match_bounds(s@, bearer_keyword(), start as int);
    }
    let ghost piece = s@.subrange(start as int, end as int);
    let mut lo = start;
    while lo < end && is_white_space_char(s[lo])
        invariant
            start <= lo <= end,
            end <= n == s@.len(),
            trim_start(piece) == trim_start(s@.subrange(lo as int, end as int)),
        decreases end - lo,
    {
        assert(s@.subrange(lo as int, end as int).drop_first() =~= s@.subrange(
            lo + 1,
            end as int,
        ));
        lo = lo + 1;
    }
    proof {
        lemma_trim_start_of_clean(s@.subrange(lo as int, end as int));
    }
    let mut hi = end;
    while hi > lo && is_white_space_char(s[hi - 1])
        invariant
            start <= lo <= hi <= end,
            end <= n == s@.len(),
            trim_start(piece) == s@.subrange(lo as int, end as int),
            trim(piece) == trim_end(s@.subrange(lo as int, hi as int)),
        decreases hi - lo,
    {
        assert(s@.subrange(lo as int, hi as int).drop_last() =~= s@.subrange(
            lo as int,
            hi - 1,
        ));
        hi = hi - 1;
    }
    proof {
        lemma_trim_end_of_clean(s@.subrange(lo as int, hi as int));
    }
    Some(String::from_str(h.substring_char(lo, hi)))
}


/// A token written after the `Bearer` keyword and a space is read back as it
/// was written, when it has no white space at its ends and does not itself
/// hold the keyword.
pub proof fn lemma_bearer_token_round_trip(token: Seq<char>)
    requires
        token.len() == 0 || (!is_white_space(token[0]) && !is_white_space(token.last())),
        forall|j: int| !occurs_at(token, bearer_keyword(), j),
    ensures
        bearer_token_of(bearer_keyword() + seq![' '] + token) == Some(token),
{
    let p = bearer_keyword();
    let h = p + seq![' '] + token;
    assert(h.subrange(0, 6) =~= p);
    assert(occurs_at(h, p, 0));
    assert(next_match(h, p, 0) == 0);
    assert forall|j: int| 6 <= j < h.len() implies !occurs_at(h, p, j) by {
        if j == 6 {
            if occurs_at(h, p, j) {
                assert(h.subrange(6, 12)[0] == p[0]);
            }
        } else {
            if occurs_at(h, p, j) {
                assert(token.subrange(j - 7, j - 1) =~= h.subrange(j, j + 6));
                assert(occurs_at(token, p, j - 7));
            }
        }
    }
    lemma_next_match_none(h, p, 6);
    let piece = h.subrange(6, h.len() as int);
    assert(piece.drop_first() =~= token);
    assert(is_white_space(piece[0]));
    lemma_trim_start_of_clean(token);
    lemma_trim_end_of_clean(token);
}

/// Where the authentication of one request stands.
pub enum AuthPhase {
    /// The bearer token is being verified.
    VerifyingToken(Seq<char>),
    /// The user that the verified token names is being looked up.
    FindingUser(Seq<char>),
    /// Decided: `true` when the request goes through.
    Done(bool),
}

/// What the authentication of a request asks for next.
pub enum AuthDirective {
    VerifyToken(Seq<char>),
    FindUser(Seq<char>),
    Forward,
    Reject,
}

/// What the caller must do next for the request being authenticated.
#[derive(Debug, Clone, PartialEq, Eq)]
pub enum AuthAction {
    /// Verify this bearer token with the secret key; report the id of the
    /// user it names, if it verifies.
    VerifyToken { token: String },
    /// Look this user up; report whether it exists.
    FindUser { user_id: String },
    /// Hand the request to the protected service.
    Forward,
    /// Answer with 401 Unauthorized.
    Reject,
}

impl View for AuthAction {
    type V = AuthDirective;

    open spec fn view(&self) -> AuthDirective {
        match self {
            AuthAction::VerifyToken { token } => AuthDirective::VerifyToken(token@),
            AuthAction::FindUser { user_id } => AuthDirective::FindUser(user_id@),
            AuthAction::Forward => AuthDirective::Forward,
            AuthAction::Reject => AuthDirective::Reject,
        }
    }
}

#[derive(Debug)]
enum AuthState {
    VerifyingToken { token: String },
    FindingUser { user_id: String },
    Done { authorized: bool },
}

/// The authentication of one request, step by step.
#[derive(Debug)]
pub struct AuthCheck {
    state: AuthState,
}

impl View for AuthCheck {
    type V = AuthPhase;

    closed spec fn view(&self) -> AuthPhase {
        match self.state {
            AuthState::VerifyingToken { token } => AuthPhase::VerifyingToken(token@),
            AuthState::FindingUser { user_id } => AuthPhase::FindingUser(user_id@),
            AuthState::Done { authorized } => AuthPhase::Done(authorized),
        }
    }
}

/// First step: a CORS preflight (`OPTIONS`) request goes through at once; a
/// request with the shared settings at hand and a bearer token in its
/// `Authorization` header has that token verified; any other request is
/// rejected.
pub open spec fn begin_step(is_preflight: bool, has_app_state: bool, header: Option<Seq<char>>) -> (
    AuthPhase,
    AuthDirective,
) {
    if is_preflight {
        (AuthPhase::Done(true), AuthDirective::Forward)
    } else if has_app_state && header is Some && bearer_token_of(header->0) is Some {
        let token = bearer_token_of(header->0)->0;
        (AuthPhase::VerifyingToken(token), AuthDirective::VerifyToken(token))
    } else {
        (AuthPhase::Done(false), AuthDirective::Reject)
    }
}

/// Second step: a token that verifies has its user looked up; one that does
/// not is rejected.
pub open spec fn token_step(user_id: Option<Seq<char>>) -> (AuthPhase, AuthDirective) {
    match user_id {
        Some(u) => (AuthPhase::FindingUser(u), AuthDirective::FindUser(u)),
        None => (AuthPhase::Done(false), AuthDirective::Reject),
    }
}

/// Last step: the request goes through exactly when the user exists.
pub open spec fn user_step(found: bool) -> (AuthPhase, AuthDirective) {
    if found {
        (AuthPhase::Done(true), AuthDirective::Forward)
    } else {
        (AuthPhase::Done(false), AuthDirective::Reject)
    }
}

/// The directive that ends the authentication of a request, given the
/// answers of the verification and of the lookup (each used only where it is
/// asked for).
pub open spec fn final_directive(
    is_preflight: bool,
    has_app_state: bool,
    header: Option<Seq<char>>,
    user_id: Option<Seq<char>>,
    found: bool,
) -> AuthDirective {
    let first = begin_step(is_preflight, has_app_state, header);
    if first.1 is VerifyToken {
        let second = token_step(user_id);
        if second.1 is FindUser {
            user_step(found).1
        } else {
            second.1
        }
    } else {
        first.1
    }
}

/// A request reaches the protected service exactly when it is a CORS
/// preflight request, or when the shared settings are at hand, its header
/// carries a bearer token, the token verifies and the user it names exists;
/// every other request is rejected. A preflight request is let through in the
/// first step, without any token check. The token that is verified is the
/// header's bearer token, and the user looked up is the one the verified
/// token names.
pub proof fn lemma_forward_only_known_users(
    is_preflight: bool,
    has_app_state: bool,
    header: Option<Seq<char>>,
    user_id: Option<Seq<char>>,
    found: bool,
)
    ensures
        (final_directive(is_preflight, has_app_state, header, user_id, found) is Forward) <==> (
        is_preflight || (has_app_state && header is Some && bearer_token_of(header->0) is Some
            && user_id is Some && found)),
        final_directive(is_preflight, has_app_state, header, user_id, found) is Forward
            || final_directive(is_preflight, has_app_state, header, user_id, found) is Reject,
        is_preflight ==> begin_step(is_preflight, has_app_state, header) == (
            AuthPhase::Done(true),
            AuthDirective::Forward,
        ),
        begin_step(is_preflight, has_app_state, header).1 matches AuthDirective::VerifyToken(t)
            ==> (header is Some && bearer_token_of(header->0) == Some(t)),
        token_step(user_id).1 matches AuthDirective::FindUser(u) ==> user_id == Some(u),
{
}

/// In every step the phase and the directive agree: the check is decided and
/// let through (`Done(true)`) exactly when the directive is `Forward`, and it is
/// decided and refused (`Done(false)`) exactly when the directive is `Reject`.
/// In particular a request rejected in the first step (no preflight, and no
/// settings or no bearer token) is never reported as let through.
pub proof fn lemma_phase_agrees_with_directive(
    is_preflight: bool,
    has_app_state: bool,
    header: Option<Seq<char>>,
    user_id: Option<Seq<char>>,
    found: bool,
)
    ensures
        (begin_step(is_preflight, has_app_state, header).0 == AuthPhase::Done(true)) <==> (begin_step(
            is_preflight,
            has_app_state,
            header,
        ).1 is Forward),
        (begin_step(is_preflight, has_app_state, header).0 == AuthPhase::Done(false)) <==> (
        begin_step(is_preflight, has_app_state, header).1 is Reject),
        (token_step(user_id).0 == AuthPhase::Done(true)) <==> (token_step(user_id).1 is Forward),
        (token_step(user_id).0 == AuthPhase::Done(false)) <==> (token_step(user_id).1 is Reject),
        (user_step(found).0 == AuthPhase::Done(true)) <==> (user_step(found).1 is Forward),
        (user_step(found).0 == AuthPhase::Done(false)) <==> (user_step(found).1 is Reject),
        (!is_preflight && (!has_app_state || header is None || bearer_token_of(header->0) is None))
            ==> begin_step(is_preflight, has_app_state, header) == (
            AuthPhase::Done(false),
            AuthDirective::Reject,
        ),
        user_step(false) == (AuthPhase::Done(false), AuthDirective::Reject),
        token_step(None) == (AuthPhase::Done(false), AuthDirective::Reject),
{
}

/// Middleware that lets through only preflight requests and requests of known
/// users.
#[derive(Debug, Clone, Copy)]
pub struct Authentication;

/// The middleware that [`Authentication`] builds around a service.
#[derive(Debug, Clone, Copy)]
pub struct AuthenticationMiddleware;

impl Authentication {
    /// Builds the middleware.
    pub fn new_transform(&self) -> (res: AuthenticationMiddleware) {
        AuthenticationMiddleware
    }
}

impl AuthenticationMiddleware {
    /// Starts authenticating a request: `is_preflight` tells whether it is a
    /// CORS preflight (`OPTIONS`) request, which goes through without a token;
    /// `has_app_state` tells whether the shared settings (which hold the
    /// secret key) are at hand, and `authorization` is the text of the
    /// request's `Authorization` header.
    pub fn call(&self, is_preflight: bool, has_app_state: bool, authorization: Option<&str>) -> (res: (
        AuthCheck,
        AuthAction,
    ))
        ensures
            (res.0@, res.1@) == begin_step(is_preflight, has_app_state, header_view(authorization)),
            is_preflight ==> (res.0@ == AuthPhase::Done(true) && res.1 == AuthAction::Forward),
    {
        if is_preflight {
            return (AuthCheck { state: AuthState::Done { authorized: true } }, AuthAction::Forward);
        }
        let token = if has_app_state {
            bearer_token(authorization)
        } else {
            None
        };
        match token {
            Some(t) => {
                let action = AuthAction::VerifyToken { token: t.clone() };
                (AuthCheck { state: AuthState::VerifyingToken { token: t } }, action)
            },
            None => (AuthCheck { state: AuthState::Done { authorized: false } }, AuthAction::Reject),
        }
    }

    /// The answer to a rejected request: 401 with the JSON body
    /// `{"code": 401, "message": "Unauthorized"}`, the answer of the
    /// `Unauthorized` error.
    pub fn unauthorized_response() -> (res: ErrorResponse)
        ensures
            res.status == 401,
            res.body.body_is(401, "Unauthorized"@),
            res.status == AppError::Unauthorized.status(),
            res.body.body_is(AppError::Unauthorized.status(), AppError::Unauthorized.text()),
    {
        ErrorResponse {
            status: 401,
            body: ErrorBody {
                content_type: String::from_str("application/json"),
                message: AppErrorMessage { code: 401, message: String::from_str("Unauthorized") },
            },
        }
    }
}

impl AuthCheck {
    /// Reports the outcome of verifying the token: the id of the user that
    /// it names, or `None` when it does not verify.
    pub fn token_verified(&mut self, user_id: Option<String>) -> (res: AuthAction)
        requires
            old(self)@ is VerifyingToken,
        ensures
            (final(self)@, res@) == token_step(
                match user_id {
                    Some(u) => Some(u@),
                    None => None,
                },
            ),
    {
        match user_id {
            Some(u) => {
                let action = AuthAction::FindUser { user_id: u.clone() };
                self.state = AuthState::FindingUser { user_id: u };
                action
            },
            None => {
                self.state = AuthState::Done { authorized: false };
                AuthAction::Reject
            },
        }
    }

    /// Reports whether the user exists (false also when the lookup failed).
    pub fn user_checked(&mut self, found: bool) -> (res: AuthAction)
        requires
            old(self)@ is FindingUser,
        ensures
            (final(self)@, res@) == user_step(found),
    {
        self.state = AuthState::Done { authorized: found };
        if found {
            AuthAction::Forward
        } else {
            AuthAction::Reject
        }
    }

    /// Whether the request has been decided, and let through.
    pub fn is_authorized(&self) -> (res: bool)
        ensures
            res <==> self@ == AuthPhase::Done(true),
    {
        match self.state {
            AuthState::Done { authorized } => authorized,
            _ => false,
        }
    }
}

/// A rejected request is answered as the `Unauthorized` error is: status 401
/// and the JSON body `{"code": 401, "message": "Unauthorized"}`.
pub proof fn lemma_rejection_is_unauthorized_error()
    ensures
        AppError::Unauthorized.status() == 401,
        AppError::Unauthorized.text() == "Unauthorized"@,
{
}

} // verus!
