//! Who calls, and whether they may. Header names are in lowercase.
use vstd::prelude::*;
use vstd::string::*;

use crate::error::McpError;
use crate::string_map;
use crate::string_map::StringMap;
use crate::text;
use crate::text::{chars_of, slice, str_eq};

verus! {

/// Adds what authenticates a request to its headers.
pub trait AuthProvider {
    /// These headers may become those. Nothing is known of a provider that says no more.
    open spec fn may_give(
        &self,
        before: Map<Seq<char>, Seq<char>>,
        after: Map<Seq<char>, Seq<char>>,
    ) -> bool {
        true
    }

    /// Adds the headers, before the request is sent.
    fn apply(&self, headers: &mut StringMap<String>)
        ensures
            self.may_give(string_map::texts(old(headers)@), string_map::texts(final(headers)@)),
    ;
}

/// Authenticates requests by a bearer token.
#[derive(Debug)]
pub struct BearerTokenProvider {
    pub token: String,
}

/// A token that can stand in a header: it is not empty and has no line break.
pub open spec fn usable_token(t: Seq<char>) -> bool {
    t.len() > 0 && !t.contains('\r') && !t.contains('\n')
}

impl Default for BearerTokenProvider {
    fn default() -> (r: Self)
        ensures
            r.token@.len() == 0,
    {
        BearerTokenProvider { token: String::new() }
    }
}

impl BearerTokenProvider {
    /// With this token; an empty one adds no header.
    pub fn new(token: String) -> (r: Self)
        ensures
            r.token == token,
    {
        BearerTokenProvider { token }
    }

    /// Replaces the token.
    pub fn set_token(&mut self, token: String)
        ensures
            final(self).token == token,
    {
        self.token = token;
    }

    /// The token.
    pub fn token(&self) -> (r: String)
        ensures
            r == self.token,
    {
        self.token.clone()
    }
}

impl AuthProvider for BearerTokenProvider {
    open spec fn may_give(
        &self,
        before: Map<Seq<char>, Seq<char>>,
        after: Map<Seq<char>, Seq<char>>,
    ) -> bool {
        after == if usable_token(self.token@) {
            before.insert("authorization"@, "Bearer "@ + self.token@)
        } else {
            before
        }
    }

    fn apply(&self, headers: &mut StringMap<String>) {
        if self.token.as_str().is_empty() {
            return ;
        }
        if text::contains_char(self.token.as_str(), '\r') || text::contains_char(
            self.token.as_str(),
            '\n',
        ) {
            return ;
        }
        let value = text::cat2("Bearer ", self.token.as_str());
        let _ = headers.insert("authorization".to_owned(), value);
        assert(string_map::texts(headers@) =~= string_map::texts(old(headers)@).insert(
            "authorization"@,
            value@,
        ));
    }
}

/// No token brings a line break into the headers.
pub proof fn no_line_break_added(before: Map<Seq<char>, Seq<char>>, token: Seq<char>, k: Seq<char>)
    requires
        usable_token(token),
        k == "authorization"@ || before.dom().contains(k),
        k != "authorization"@ ==> !before[k].contains('\r') && !before[k].contains('\n'),
    ensures
        !before.insert("authorization"@, "Bearer "@ + token)[k].contains('\r'),
        !before.insert("authorization"@, "Bearer "@ + token)[k].contains('\n'),
{
    let v = "Bearer "@ + token;
    reveal_strlit("Bearer ");
    assert forall|i: int| 0 <= i < v.len() implies v[i] != '\r' && v[i] != '\n' by {
        if i >= 7 {
            assert(v[i] == token[i - 7]);
            assert(token.contains(token[i - 7]));
        } else {
            assert(v[i] == "Bearer "@[i]);
        }
    }
}

/// Who was found to call.
#[derive(Clone, Debug, PartialEq, Eq)]
pub struct AuthContext {
    /// The caller.
    pub client_id: Option<String>,
    /// What the caller may do, with white space between the scopes.
    pub scopes: Option<String>,
}

/// What an attempt at authentication came to.
#[derive(Clone, Debug, PartialEq, Eq)]
pub struct AuthenticationResult {
    /// Whether it succeeded.
    pub authenticated: bool,
    /// Who calls, where it succeeded.
    pub context: Option<AuthContext>,
    /// Why it failed, where it did.
    pub error_description: Option<String>,
}

impl Default for AuthContext {
    fn default() -> (r: Self)
        ensures
            r.client_id is None,
            r.scopes is None,
    {
        AuthContext::unknown()
    }
}

impl Default for AuthenticationResult {
    fn default() -> (r: Self)
        ensures
            !r.authenticated,
            r.context is None,
            r.error_description is None,
    {
        AuthenticationResult { authenticated: false, context: None, error_description: None }
    }
}

impl AuthContext {
    /// Nothing is known of the caller.
    pub fn unknown() -> (r: Self)
        ensures
            r.client_id is None,
            r.scopes is None,
    {
        AuthContext { client_id: None, scopes: None }
    }
}

impl AuthenticationResult {
    /// The attempt failed, for this reason.
    pub open spec fn failed(&self, why: Seq<char>) -> bool {
        !self.authenticated && self.context is None && self.error_description is Some
            && self.error_description->0@ == why
    }

    /// A failure.
    pub fn failure(description: &str) -> (r: Self)
        ensures
            r.failed(description@),
    {
        AuthenticationResult {
            authenticated: false,
            context: None,
            error_description: Some(description.to_owned()),
        }
    }
}

/// Verifies bearer tokens.
pub trait TokenVerifier {
    /// Verifies a token, and tells who calls.
    fn verify_token(&self, token: &str) -> AuthenticationResult;
}

/// Authenticates requests by their headers.
pub trait Authenticator {
    /// Authenticates a request.
    fn authenticate(&self, headers: &StringMap<String>) -> AuthenticationResult;
}

/// Accepts every request.
#[derive(Debug, Clone, Copy)]
pub struct NoAuthAuthenticator;

impl Default for NoAuthAuthenticator {
    fn default() -> (r: Self)
        ensures
            r == NoAuthAuthenticator,
    {
        NoAuthAuthenticator
    }
}

impl Authenticator for NoAuthAuthenticator {
    fn authenticate(&self, headers: &StringMap<String>) -> (r: AuthenticationResult)
        ensures
            r.authenticated,
            r.context is Some,
            r.context->0.client_id is None,
            r.context->0.scopes is None,
            r.error_description is None,
    {
        AuthenticationResult {
            authenticated: true,
            context: Some(AuthContext::unknown()),
            error_description: None,
        }
    }
}

/// The text without the blanks and tabs that it starts with.
pub open spec fn unblanked(s: Seq<char>) -> Seq<char>
    decreases s.len(),
{
    if s.len() > 0 && (s[0] == ' ' || s[0] == '\t') {
        unblanked(s.drop_first())
    } else {
        s
    }
}

/// The bearer token that headers carry, or why they carry none.
pub open spec fn bearer(headers: Map<Seq<char>, Seq<char>>) -> Result<Seq<char>, Seq<char>> {
    if !headers.dom().contains("authorization"@) {
        Err("Missing Authorization header"@)
    } else {
        let v = headers["authorization"@];
        if v.len() < 7 || text::lowered(v.take(7)) != "bearer "@ {
            Err("Authorization header must use Bearer scheme"@)
        } else if unblanked(v.skip(7)).len() == 0 {
            Err("Bearer token is empty"@)
        } else {
            Ok(unblanked(v.skip(7)))
        }
    }
}

/// The token that a provider puts into the headers is the one that is read from them,
/// unless it begins with a blank or a tab.
pub proof fn provided_token_is_read(before: Map<Seq<char>, Seq<char>>, token: Seq<char>)
    requires
        usable_token(token),
        token[0] != ' ' && token[0] != '\t',
    ensures
        bearer(before.insert("authorization"@, "Bearer "@ + token)) == Ok::<Seq<char>, Seq<char>>(
            token,
        ),
{
    let v = "Bearer "@ + token;
    reveal_strlit("Bearer ");
    reveal_strlit("bearer ");
    assert(text::lowered(v.take(7)) =~= "bearer "@);
    assert(v.skip(7) =~= token);
}

/// Takes the bearer token from headers.
pub fn bearer_token(headers: &StringMap<String>) -> (r: Result<String, AuthenticationResult>)
    ensures
        match r {
            Ok(t) => bearer(string_map::texts(headers@)) == Ok::<Seq<char>, Seq<char>>(t@),
            Err(f) => bearer(string_map::texts(headers@)) is Err && f.failed(bearer(string_map::texts(headers@))->Err_0),
        },
{
    let value = match headers.get("authorization") {
        Some(v) => v,
        None => {
            return Err(AuthenticationResult::failure("Missing Authorization header"));
        },
    };
    let cs = chars_of(value.as_str());
    if cs.len() < 7 {
        return Err(
            AuthenticationResult::failure("Authorization header must use Bearer scheme"),
        );
    }
    let head = text::to_lowercase(slice(&cs, 0, 7).as_str());
    assert(cs@.subrange(0, 7) =~= cs@.take(7));
    if !str_eq(head.as_str(), "bearer ") {
        return Err(
            AuthenticationResult::failure("Authorization header must use Bearer scheme"),
        );
    }
    let mut i: usize = 7;
    while i < cs.len() && (cs[i] == ' ' || cs[i] == '\t')
        invariant
            7 <= i <= cs.len(),
            unblanked(cs@.skip(7)) == unblanked(cs@.skip(i as int)),
        decreases cs.len() - i,
    {
        assert(cs@.skip(i as int).drop_first() =~= cs@.skip(i + 1));
        i = i + 1;
    }
    let token = slice(&cs, i, cs.len());
    assert(token@ =~= cs@.skip(i as int));
    if token.as_str().is_empty() {
        return Err(AuthenticationResult::failure("Bearer token is empty"));
    }
    Ok(token)
}

/// Authenticates requests by their bearer token, which a verifier looks at.
pub struct BearerTokenAuthenticator<V> {
    pub verifier: Option<V>,
}

impl<V> BearerTokenAuthenticator<V> {
    /// With this verifier; without one every request fails.
    pub fn new(verifier: Option<V>) -> (r: Self)
        ensures
            r.verifier == verifier,
    {
        BearerTokenAuthenticator { verifier }
    }
}

impl<V: TokenVerifier> Authenticator for BearerTokenAuthenticator<V> {
    fn authenticate(&self, headers: &StringMap<String>) -> (r: AuthenticationResult)
        ensures
            match (self.verifier, bearer(string_map::texts(headers@))) {
                (None, _) => r.failed("Token verifier not configured"@),
                (Some(_), Err(why)) => r.failed(why),
                (Some(v), Ok(token)) => exists|t: &str| #[trigger]
                    t@ == token && call_ensures(V::verify_token, (&v, t), r),
            },
    {
        match &self.verifier {
            None => AuthenticationResult::failure("Token verifier not configured"),
            Some(v) => match bearer_token(headers) {
                Err(f) => f,
                Ok(token) => v.verify_token(token.as_str()),
            },
        }
    }
}

/// Decides whether a caller may go on.
pub trait Authorizer {
    /// Whether the caller may go on.
    fn authorize(&self, auth_result: &AuthenticationResult) -> bool;
}

/// `s` has a word from place `i` up to place `j`: no white space in it, and white
/// space or an end of the text around it.
pub open spec fn word_at(s: Seq<char>, i: int, j: int) -> bool {
    &&& 0 <= i < j <= s.len()
    &&& forall|k: int| i <= k < j ==> !text::is_space(#[trigger] s[k])
    &&& i == 0 || text::is_space(s[i - 1])
    &&& j == s.len() || text::is_space(s[j])
}

/// The words of a text.
pub open spec fn words(s: Seq<char>) -> Set<Seq<char>> {
    Set::new(|w: Seq<char>| exists|i: int, j: int| word_at(s, i, j) && w == s.subrange(i, j))
}

/// Splits a text into its words.
fn split_scopes(scopes: &str) -> (r: StringMap<()>)
    ensures
        r@.dom() == words(scopes@),
{
    let cs = chars_of(scopes);
    let ghost s = scopes@;
    let mut out: StringMap<()> = StringMap::new();
    let mut i: usize = 0;
    while i < cs.len()
        invariant
            i <= cs.len(),
            cs@ == s,
            i == 0 || i == cs.len() || text::is_space(s[i - 1]) || text::is_space(s[i as int]),
            forall|w: Seq<char>| #[trigger]
                out@.dom().contains(w) <==> exists|a: int, b: int|
                    word_at(s, a, b) && a < i && w == s.subrange(a, b),
        decreases cs.len() - i,
    {
        if text::is_whitespace(cs[i]) {
            proof {
                assert forall|w: Seq<char>| #[trigger] out@.dom().contains(w) implies exists|
                    a: int,
                    b: int,
                |
                    word_at(s, a, b) && a < i + 1 && w == s.subrange(a, b) by {
                    let (a, b) = choose|a: int, b: int|
                        word_at(s, a, b) && a < i && w == s.subrange(a, b);
                    assert(word_at(s, a, b) && a < i + 1 && w == s.subrange(a, b));
                }
                assert forall|w: Seq<char>|
                    (exists|a: int, b: int|
                        word_at(s, a, b) && a < i + 1 && w == s.subrange(
                            a,
                            b,
                        )) implies #[trigger] out@.dom().contains(w) by {
                    let (a, b) = choose|a: int, b: int|
                        word_at(s, a, b) && a < i + 1 && w == s.subrange(a, b);
                    if a == i {
                        assert(!text::is_space(s[a]));
                    }
                    assert(word_at(s, a, b) && a < i && w == s.subrange(a, b));
                }
            }
            i = i + 1;
        } else {
            let start: usize = i;
            let mut j: usize = i + 1;
            while j < cs.len() && !text::is_whitespace(cs[j])
                invariant
                    start < j <= cs.len(),
                    cs@ == s,
                    forall|k: int| start <= k < j ==> !text::is_space(#[trigger] s[k]),
                decreases cs.len() - j,
            {
                j = j + 1;
            }
            let word = slice(&cs, start, j);
            let ghost before = out@.dom();
            let _ = out.insert(word, ());
            proof {
                assert(word_at(s, start as int, j as int));
                assert(word@ == s.subrange(start as int, j as int));
                assert forall|w: Seq<char>| #[trigger] out@.dom().contains(w) implies exists|
                    a: int,
                    b: int,
                |
                    word_at(s, a, b) && a < j && w == s.subrange(a, b) by {
                    if w == word@ {
                        assert(word_at(s, start as int, j as int) && start < j && w == s.subrange(
                            start as int,
                            j as int,
                        ));
                    } else {
                        assert(before.contains(w));
                        let (a, b) = choose|a: int, b: int|
                            word_at(s, a, b) && a < start && w == s.subrange(a, b);
                        assert(word_at(s, a, b) && a < j && w == s.subrange(a, b));
                    }
                }
                assert forall|w: Seq<char>|
                    (exists|a: int, b: int|
                        word_at(s, a, b) && a < j && w == s.subrange(
                            a,
                            b,
                        )) implies #[trigger] out@.dom().contains(w) by {
                    let (a, b) = choose|a: int, b: int|
                        word_at(s, a, b) && a < j && w == s.subrange(a, b);
                    if a < start {
                        assert(word_at(s, a, b) && a < start && w == s.subrange(a, b));
                        assert(before.contains(w));
                    } else {
                        if a > start {
                            assert(!text::is_space(s[a - 1]));
                        }
                        if b < j {
                            assert(!text::is_space(s[b]));
                        }
                        if b > j {
                            assert(!text::is_space(s[j as int]));
                        }
                        assert(a == start && b == j);
                    }
                }
            }
            i = j;
        }
    }
    proof {
        assert forall|w: Seq<char>| out@.dom().contains(w) == words(s).contains(w) by {
            if words(s).contains(w) {
                let (a, b) = choose|a: int, b: int| word_at(s, a, b) && w == s.subrange(a, b);
                assert(word_at(s, a, b) && a < i && w == s.subrange(a, b));
            }
            if out@.dom().contains(w) {
                let (a, b) = choose|a: int, b: int|
                    word_at(s, a, b) && a < i && w == s.subrange(a, b);
                assert(word_at(s, a, b) && w == s.subrange(a, b));
            }
        }
        assert(out@.dom() =~= words(s));
    }
    out
}

/// Keys one after another, with a blank between them.
pub open spec fn joined(keys: Seq<Seq<char>>) -> Seq<char>
    decreases keys.len(),
{
    if keys.len() == 0 {
        seq![]
    } else if keys.len() == 1 {
        keys[0]
    } else {
        joined(keys.drop_last()) + " "@ + keys.last()
    }
}

/// Lets those callers go on who have every scope that is required.
#[derive(Debug)]
pub struct ScopeBasedAuthorizer {
    required: StringMap<()>,
}

impl ScopeBasedAuthorizer {
    /// The scopes that are required.
    pub closed spec fn scopes(&self) -> Set<Seq<char>> {
        self.required@.dom()
    }

    /// Requires the scopes of a list, which must not be empty.
    pub fn new(required_scopes: &str) -> (r: Result<Self, McpError>)
        ensures
            match r {
                Ok(a) => a.scopes() == words(required_scopes@) && a.scopes().len() > 0,
                Err(e) => words(required_scopes@).len() == 0 && e.faults_argument(
                    "requiredScopes must not be empty"@,
                ),
            },
    {
        let required = split_scopes(required_scopes);
        if required.is_empty() {
            return Err(McpError::argument("requiredScopes must not be empty".to_owned()));
        }
        Ok(ScopeBasedAuthorizer { required })
    }

    /// Replaces the scopes that are required by those of a list, which must not be
    /// empty.
    pub fn set_required_scopes(&mut self, scopes: &str) -> (r: Result<(), McpError>)
        ensures
            match r {
                Ok(()) => final(self).scopes() == words(scopes@) && words(scopes@).len() > 0,
                Err(e) => final(self).scopes() == old(self).scopes() && words(scopes@).len() == 0
                    && e.faults_argument("requiredScopes must not be empty"@),
            },
    {
        let parsed = split_scopes(scopes);
        if parsed.is_empty() {
            return Err(McpError::argument("requiredScopes must not be empty".to_owned()));
        }
        self.required = parsed;
        Ok(())
    }

    /// The scopes that are required, in increasing order, with a blank between them.
    pub fn required_scopes(&self) -> (r: String)
        ensures
            exists|o: Seq<Seq<char>>| #[trigger]
                string_map::increasing(o) && o.to_set() == self.scopes() && r@ == joined(o),
    {
        let n: usize = self.required.len();
        let ghost o = self.required.order();
        let mut out = String::new();
        let mut i: usize = 0;
        assert(o.take(0) =~= seq![]);
        while i < n
            invariant
                i <= n,
                n == o.len(),
                o == self.required.order(),
                out@ == joined(o.take(i as int)),
            decreases n - i,
        {
            let ghost t = o.take(i + 1);
            assert(t.drop_last() =~= o.take(i as int));
            assert(t.last() == o[i as int]);
            let k = self.required.key_at(i);
            if i == 0 {
                out = k.to_owned();
            } else {
                out.append(" ");
                out.append(k);
            }
            i = i + 1;
        }
        assert(o.take(n as int) =~= o);
        assert(string_map::increasing(o));
        out
    }
}

impl Authorizer for ScopeBasedAuthorizer {
    fn authorize(&self, auth_result: &AuthenticationResult) -> (r: bool)
        ensures
            r <==> {
                &&& auth_result.authenticated
                &&& auth_result.context matches Some(c)
                &&& c.scopes matches Some(s)
                &&& words(s@).len() > 0
                &&& self.scopes().subset_of(words(s@))
            },
    {
        if !auth_result.authenticated {
            return false;
        }
        let scopes = match &auth_result.context {
            Some(c) => match &c.scopes {
                Some(s) => s,
                None => {
                    return false;
                },
            },
            None => {
                return false;
            },
        };
        let provided = split_scopes(scopes.as_str());
        if provided.is_empty() {
            return false;
        }
        let n: usize = self.required.len();
        let mut i: usize = 0;
        while i < n
            invariant
                i <= n,
                n == self.required.order().len(),
                self.required.order().to_set() == self.scopes(),
                provided@.dom() == words(scopes@),
                auth_result.context is Some && auth_result.context->0.scopes == Some(*scopes),
                forall|k: int|
                    0 <= k < i ==> words(scopes@).contains(#[trigger] self.required.order()[k]),
            decreases n - i,
        {
            let k = self.required.key_at(i);
            if !provided.contains_key(k) {
                assert(self.scopes().contains(k@));
                return false;
            }
            i = i + 1;
        }
        proof {
            assert forall|w: Seq<char>| self.scopes().contains(w) implies words(scopes@).contains(
                w,
            ) by {
                assert(self.required.order().to_set().contains(w));
                let k = choose|k: int|
                    0 <= k < self.required.order().len() && self.required.order()[k] == w;
                assert(words(scopes@).contains(self.required.order()[k]));
            }
        }
        true
    }
}

/// Knows tokens, and the scopes of each.
#[derive(Debug)]
pub struct SimpleTokenVerifier {
    pub tokens: StringMap<String>,
}

impl Default for SimpleTokenVerifier {
    fn default() -> (r: Self)
        ensures
            r.tokens@ == Map::<Seq<char>, String>::empty(),
    {
        SimpleTokenVerifier { tokens: StringMap::new() }
    }
}

impl SimpleTokenVerifier {
    /// Knows these tokens.
    pub fn new(token_scopes: StringMap<String>) -> (r: Self)
        ensures
            r.tokens == token_scopes,
    {
        SimpleTokenVerifier { tokens: token_scopes }
    }

    /// Adds a token, or replaces its scopes.
    pub fn add_token(&mut self, token: String, scopes: String)
        ensures
            final(self).tokens@ == old(self).tokens@.insert(token@, scopes),
    {
        let _ = self.tokens.insert(token, scopes);
    }

    /// Forgets a token.
    pub fn remove_token(&mut self, token: &str)
        ensures
            final(self).tokens@ == old(self).tokens@.remove(token@),
    {
        let _ = self.tokens.remove(token);
    }
}

impl TokenVerifier for SimpleTokenVerifier {
    fn verify_token(&self, token: &str) -> (r: AuthenticationResult)
        ensures
            if token@.len() == 0 {
                r.failed("Token is empty"@)
            } else if !self.tokens@.dom().contains(token@) {
                r.failed("Invalid token"@)
            } else {
                &&& r.authenticated
                &&& r.error_description is None
                &&& r.context matches Some(c)
                &&& c.client_id matches Some(id)
                &&& id@ == "client-"@ + token@
                &&& c.scopes == Some(self.tokens@[token@])
            },
    {
        if token.is_empty() {
            return AuthenticationResult::failure("Token is empty");
        }
        match self.tokens.get(token) {
            None => AuthenticationResult::failure("Invalid token"),
            Some(scopes) => AuthenticationResult {
                authenticated: true,
                context: Some(
                    AuthContext {
                        client_id: Some(text::cat2("client-", token)),
                        scopes: Some(scopes.clone()),
                    },
                ),
                error_description: None,
            },
        }
    }
}

} // verus!
