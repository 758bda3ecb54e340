//! Refresh: trading the refresh token for a new session.

use crate::client::Client;
use crate::client::ClientView;
use crate::error::RefreshError;
use crate::session::RefreshSession;
use crate::session::Session;
use crate::storage::Storage;
use crate::session::SessionView;
use crate::wire::api_failure;
use crate::wire::bearer;
use crate::wire::bearer_header;
use crate::wire::endpoint;
use crate::wire::endpoint_url;
use crate::wire::is_success;
use crate::wire::request_of;
use crate::wire::success;
use crate::wire::Method;
use crate::wire::Reply;
use crate::wire::Request;
use crate::wire::RequestView;
use vstd::prelude::*;
use vstd::std_specs::convert::FromSpec;

verus! {

/// The procedure that trades the refresh token for new tokens.
pub const REFRESH_SESSION: &'static str = "com.atproto.server.refreshSession";

/// The refresh request of a client: a POST to the procedure that renews a
/// session, under the refresh token, with nothing else. `None` where the
/// service and the procedure make no URL.
pub open spec fn refresh_call<T>(client: ClientView<T>) -> Option<RequestView> {
    match endpoint(client.service, REFRESH_SESSION@) {
        Some(url) => Some(
            RequestView {
                method: Method::Post,
                url,
                authorization: Some(bearer(client.session.jwt.refresh)),
                query: Seq::empty(),
                body: None,
            },
        ),
        None => None,
    }
}

/// What a refresh makes of an answer: `outcome` is the result, and `before`
/// and `after` are the client before and after it.
///
/// No response is the transport's error. A status outside the success range
/// is the error that the transport makes of it; where the transport makes
/// none, it is an API error. A status in the success range with no session in
/// the body is the reason why the body was none. In all of these the client
/// stays as it was. The client changes only where the answer holds a session:
/// then the session is handed to the storage, and it becomes the client's
/// session if and only if it was saved.
pub open spec fn refreshed<T: Storage>(
    before: ClientView<T>,
    answer: Result<Reply<RefreshSession>, reqwest::Error>,
    after: ClientView<T>,
    outcome: Result<(), RefreshError<T>>,
) -> bool {
    match answer {
        Err(e) => outcome == Err::<(), RefreshError<T>>(RefreshError::Reqwest(e)) && after
            == before,
        Ok(reply) => if !success(reply.status) {
            after == before && match reply.refused {
                Some(e) => outcome == Err::<(), RefreshError<T>>(RefreshError::Reqwest(e)),
                None => outcome matches Err(RefreshError::Api(error)) && error@ == api_failure(
                    reply,
                ),
            }
        } else {
            match reply.payload {
                Err(e) => outcome == Err::<(), RefreshError<T>>(RefreshError::Json(e)) && after
                    == before,
                Ok(refresh) => after.service == before.service && match outcome {
                    Ok(_) => after.session == refresh@ && after.storage.stored() == Some(
                        refresh@,
                    ),
                    Err(e) => e is Storage && after.session == before.session,
                },
            }
        },
    }
}

/// What `install` makes of a save: where `session` was saved, it takes the
/// place of the session of the client `held`, and the refresh has succeeded;
/// where it was not, the client stays as it is and the refresh has failed
/// with the storage's error.
pub open spec fn installs<T: Storage>(
    held: ClientView<T>,
    session: SessionView,
    saved: Result<(), T::Error>,
    after: ClientView<T>,
    outcome: Result<(), RefreshError<T>>,
) -> bool {
    match saved {
        Ok(_) => outcome is Ok && after == (ClientView {
            service: held.service,
            storage: held.storage,
            session: session,
        }),
        Err(e) => outcome == Err::<(), RefreshError<T>>(RefreshError::Storage(e)) && after
            == held,
    }
}

/// A refresh that fails leaves the client's session as it was. This holds
/// in particular where the server gave a new session and the storage did not
/// take it: the client then goes on with the old session. Where the storage
/// was not asked, it too is as it was.
pub proof fn failed_refresh_keeps_session<T: Storage>(
    before: ClientView<T>,
    answer: Result<Reply<RefreshSession>, reqwest::Error>,
    after: ClientView<T>,
    outcome: Result<(), RefreshError<T>>,
)
    requires
        refreshed(before, answer, after, outcome),
        outcome is Err,
    ensures
        after.session == before.session,
        after.service == before.service,
        !(outcome->Err_0 is Storage) ==> after == before,
{
}

/// A refresh keeps the client in step with its storage. Where the client's
/// session was the one that its storage held, it still is after a refresh,
/// unless the storage failed: of a storage that has failed nothing is known.
pub proof fn refresh_keeps_client_in_step<T: Storage>(
    before: ClientView<T>,
    answer: Result<Reply<RefreshSession>, reqwest::Error>,
    after: ClientView<T>,
    outcome: Result<(), RefreshError<T>>,
)
    requires
        refreshed(before, answer, after, outcome),
        before.in_step(),
        !(outcome matches Err(RefreshError::Storage(_))),
    ensures
        after.in_step(),
{
}

impl<T: Storage> Client<T> {
    /// The request that asks the service for new tokens. It is authorised by
    /// the refresh token, not by the access token. `None` where the service
    /// and the procedure make no URL.
    pub fn refresh_request(&self) -> (request: Option<Request>)
        ensures
            request_of(request) == refresh_call(self@),
    {
        let url = match endpoint_url(self.service.as_str(), REFRESH_SESSION) {
            Some(url) => url,
            None => {
                return None;
            },
        };
        let request = Request {
            method: Method::Post,
            url,
            authorization: Some(bearer_header(self.session.jwt.refresh())),
            query: Vec::new(),
            body: None,
        };
        proof {
            assert(request@.query =~= Seq::empty());
        }
        Some(request)
    }

    /// Puts `session` in place of the client's session if it was saved, and
    /// leaves the client as it is if it was not.
    pub fn install(&mut self, session: Session, saved: Result<(), T::Error>) -> (outcome: Result<
        (),
        RefreshError<T>,
    >)
        ensures
            installs(old(self)@, session@, saved, final(self)@, outcome),
    {
        match saved {
            Ok(_) => {
                self.session = session;
                Ok(())
            },
            Err(e) => Err(RefreshError::Storage(e)),
        }
    }

    /// Ends a refresh: takes what came back for the refresh request, stores
    /// the new session, and only then makes it the client's own. The storage
    /// is asked once, to save that session, and the refresh ends as
    /// `install` makes of that save.
    pub(crate) fn xrpc_refresh_token(
        &mut self,
        answer: Result<Reply<RefreshSession>, reqwest::Error>,
    ) -> (outcome: Result<(), RefreshError<T>>)
        ensures
            refreshed(old(self)@, answer, final(self)@, outcome),
            answer matches Ok(reply) ==> (success(reply.status) ==> (reply.payload matches Ok(
                refresh,
            ) ==> exists|borrowed: &mut T, saved: Result<(), T::Error>|
                {
                    &&& *borrowed == old(self)@.storage
                    &&& call_ensures(T::save, (borrowed, &Session::from_spec(refresh)), saved)
                    &&& installs(
                        ClientView {
                            service: old(self)@.service,
                            storage: *final(borrowed),
                            session: old(self)@.session,
                        },
                        refresh@,
                        saved,
                        final(self)@,
                        outcome,
                    )
                })),
    {
        let reply = match answer {
            Ok(reply) => reply,
            Err(e) => {
                return Err(RefreshError::Reqwest(e));
            },
        };
        if !is_success(reply.status) {
            return match reply.refused {
                Some(e) => Err(RefreshError::Reqwest(e)),
                None => Err(RefreshError::Api(reply.api_error())),
            };
        }
        match reply.payload {
            Ok(refresh) => {
                let ghost before = self@;
                let session = Session::from(refresh);
                // Called as a value, so that the contract can speak of what
                // this call gave.
                let save = T::save;
                let saved = save(&mut self.storage, &session);
                let ghost held = self@;
                let outcome = self.install(session, saved);
                proof {
                    let borrowed = choose|borrowed: &mut T|
                        *borrowed == before.storage && *final(borrowed) == held.storage
                            && call_ensures(T::save, (borrowed, &session), saved);
                    assert(*borrowed == before.storage && call_ensures(
                        T::save,
                        (borrowed, &Session::from_spec(refresh)),
                        saved,
                    ) && installs(
                        ClientView {
                            service: before.service,
                            storage: *final(borrowed),
                            session: before.session,
                        },
                        refresh@,
                        saved,
                        self@,
                        outcome,
                    ));
                }
                outcome
            },
            Err(e) => Err(RefreshError::Json(e)),
        }
    }
}

} // verus!
