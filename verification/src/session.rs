//! The session: who is logged in, and the two tokens that prove it.

use vstd::prelude::*;
use vstd::std_specs::convert::FromSpec;

verus! {

/// The two tokens as plain text.
pub struct JwtView {
    pub access: Seq<char>,
    pub refresh: Seq<char>,
}

/// A session as plain text.
pub struct SessionView {
    pub did: Seq<char>,
    pub handle: Seq<char>,
    pub jwt: JwtView,
}

/// The credential pair of a session. Neither token is ever empty.
#[derive(Debug)]
pub struct Jwt {
    access: String,
    refresh: String,
}

impl View for Jwt {
    type V = JwtView;

    closed spec fn view(&self) -> JwtView {
        JwtView { access: self.access@, refresh: self.refresh@ }
    }
}

impl Jwt {
    #[verifier::type_invariant]
    spec fn tokens_present(self) -> bool {
        self.access@.len() > 0 && self.refresh@.len() > 0
    }

    /// Pairs the two tokens, unless one of them is empty.
    pub fn new(access: String, refresh: String) -> (r: Option<Jwt>)
        ensures
            r is Some <==> access@.len() > 0 && refresh@.len() > 0,
            r matches Some(jwt) ==> jwt@ == (JwtView { access: access@, refresh: refresh@ }),
    {
        if access.as_str().is_empty() || refresh.as_str().is_empty() {
            None
        } else {
            Some(Jwt { access, refresh })
        }
    }

    /// The token that authorises calls.
    pub fn access(&self) -> (r: &str)
        ensures
            r@ == self@.access,
            r@.len() > 0,
    {
        proof {
            use_type_invariant(self);
        }
        self.access.as_str()
    }

    /// The token that buys a new pair.
    pub fn refresh(&self) -> (r: &str)
        ensures
            r@ == self@.refresh,
            r@.len() > 0,
    {
        proof {
            use_type_invariant(self);
        }
        self.refresh.as_str()
    }
}

impl Clone for Jwt {
    fn clone(&self) -> (r: Self)
        ensures
            r == *self,
    {
        proof {
            use_type_invariant(self);
        }
        Jwt { access: self.access.clone(), refresh: self.refresh.clone() }
    }
}

/// The live session of an account.
#[derive(Debug)]
pub struct Session {
    pub did: String,
    pub handle: String,
    pub jwt: Jwt,
}

impl View for Session {
    type V = SessionView;

    open spec fn view(&self) -> SessionView {
        SessionView { did: self.did@, handle: self.handle@, jwt: self.jwt@ }
    }
}

impl Clone for Session {
    fn clone(&self) -> (r: Self)
        ensures
            r == *self,
    {
        Session { did: self.did.clone(), handle: self.handle.clone(), jwt: self.jwt.clone() }
    }
}

/// What the server answers to a login: the account and its first tokens.
#[derive(Debug)]
pub struct CreateSession {
    did: String,
    handle: String,
    jwt: Jwt,
}

impl View for CreateSession {
    type V = SessionView;

    closed spec fn view(&self) -> SessionView {
        SessionView { did: self.did@, handle: self.handle@, jwt: self.jwt@ }
    }
}

impl CreateSession {
    /// Takes the four fields of the answer. An answer with an empty token is
    /// no answer: the result is `None`.
    pub fn new(did: String, handle: String, access_jwt: String, refresh_jwt: String) -> (r: Option<
        CreateSession,
    >)
        ensures
            r is Some <==> access_jwt@.len() > 0 && refresh_jwt@.len() > 0,
            r matches Some(c) ==> c@ == (SessionView {
                did: did@,
                handle: handle@,
                jwt: JwtView { access: access_jwt@, refresh: refresh_jwt@ },
            }),
    {
        match Jwt::new(access_jwt, refresh_jwt) {
            Some(jwt) => Some(CreateSession { did, handle, jwt }),
            None => None,
        }
    }
}

/// What the server answers to a refresh: the account and its new tokens.
#[derive(Debug)]
pub struct RefreshSession {
    did: String,
    handle: String,
    jwt: Jwt,
}

impl View for RefreshSession {
    type V = SessionView;

    closed spec fn view(&self) -> SessionView {
        SessionView { did: self.did@, handle: self.handle@, jwt: self.jwt@ }
    }
}

impl RefreshSession {
    /// Takes the four fields of the answer. An answer with an empty token is
    /// no answer: the result is `None`.
    pub fn new(did: String, handle: String, access_jwt: String, refresh_jwt: String) -> (r: Option<
        RefreshSession,
    >)
        ensures
            r is Some <==> access_jwt@.len() > 0 && refresh_jwt@.len() > 0,
            r matches Some(c) ==> c@ == (SessionView {
                did: did@,
                handle: handle@,
                jwt: JwtView { access: access_jwt@, refresh: refresh_jwt@ },
            }),
    {
        match Jwt::new(access_jwt, refresh_jwt) {
            Some(jwt) => Some(RefreshSession { did, handle, jwt }),
            None => None,
        }
    }
}

impl From<CreateSession> for Session {
    fn from(create: CreateSession) -> (session: Session)
        ensures
            session@ == create@,
    {
        Session { did: create.did, handle: create.handle, jwt: create.jwt }
    }
}

impl vstd::std_specs::convert::FromSpecImpl<CreateSession> for Session {
    open spec fn obeys_from_spec() -> bool {
        true
    }

    closed spec fn from_spec(create: CreateSession) -> Session {
        Session { did: create.did, handle: create.handle, jwt: create.jwt }
    }
}

impl From<RefreshSession> for Session {
    fn from(refresh: RefreshSession) -> (session: Session)
        ensures
            session@ == refresh@,
    {
        Session { did: refresh.did, handle: refresh.handle, jwt: refresh.jwt }
    }
}

impl vstd::std_specs::convert::FromSpecImpl<RefreshSession> for Session {
    open spec fn obeys_from_spec() -> bool {
        true
    }

    closed spec fn from_spec(refresh: RefreshSession) -> Session {
        Session { did: refresh.did, handle: refresh.handle, jwt: refresh.jwt }
    }
}

impl PartialEq for Jwt {
    fn eq(&self, other: &Jwt) -> (r: bool) {
        self.access == other.access && self.refresh == other.refresh
    }
}

impl vstd::std_specs::cmp::PartialEqSpecImpl for Jwt {
    open spec fn obeys_eq_spec() -> bool {
        true
    }

    open spec fn eq_spec(&self, other: &Jwt) -> bool {
        self@ == other@
    }
}

impl PartialEq for Session {
    fn eq(&self, other: &Session) -> (r: bool) {
        self.did == other.did && self.handle == other.handle && self.jwt == other.jwt
    }
}

impl vstd::std_specs::cmp::PartialEqSpecImpl for Session {
    open spec fn obeys_eq_spec() -> bool {
        true
    }

    open spec fn eq_spec(&self, other: &Session) -> bool {
        self@ == other@
    }
}

/// A session is made from a login answer and from a refresh answer in the
/// same way: it holds the account and the tokens of the answer, whichever of
/// the two it was.
pub proof fn session_holds_what_the_answer_held(create: CreateSession, refresh: RefreshSession)
    ensures
        Session::from_spec(create)@ == create@,
        Session::from_spec(refresh)@ == refresh@,
        create@ == refresh@ ==> Session::from_spec(create)@ == Session::from_spec(refresh)@,
{
}

} // verus!
