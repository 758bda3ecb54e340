//! One call to the service, from its first request to its result.
//!
//! A call is sent, and what comes back decides how it goes on. A response
//! that reports an expired access token sends the call through one refresh
//! and one more request; whatever comes back then ends it. So a call costs at
//! most two requests to its procedure and one refresh, however often the
//! server reports an expired token.

use crate::client::Client;
use crate::client::ClientView;
use crate::error::GetError;
use crate::error::PostError;
use crate::refresh::installs;
use crate::refresh::refreshed;
use crate::session::RefreshSession;
use crate::session::Session;
use crate::session::SessionView;
use crate::storage::Storage;
use crate::wire::api_failure;
use crate::wire::bearer;
use crate::wire::bearer_header;
use crate::wire::endpoint;
use crate::wire::endpoint_url;
use crate::wire::is_success;
use crate::wire::pairs_of;
use crate::wire::success;
use crate::wire::text_of;
use crate::wire::Method;
use crate::wire::Reply;
use crate::wire::Request;
use crate::wire::RequestView;
use crate::wire::BAD_REQUEST;
use vstd::prelude::*;
use vstd::std_specs::convert::FromSpec;

verus! {

/// A call whose request is out: the request, and whether this is the second
/// time that it goes out.
pub struct PendingView {
    pub request: RequestView,
    pub retried: bool,
}

impl PendingView {
    /// How many times the request of the call has gone out once this one is
    /// sent.
    pub open spec fn requests(self) -> nat {
        if self.retried {
            2
        } else {
            1
        }
    }

    /// How many times the tokens have been refreshed for the call.
    pub open spec fn refreshes(self) -> nat {
        if self.retried {
            1
        } else {
            0
        }
    }
}

/// A call that waits for the response to its request.
#[derive(Debug)]
pub struct Pending {
    request: Request,
    retried: bool,
}

impl View for Pending {
    type V = PendingView;

    closed spec fn view(&self) -> PendingView {
        PendingView { request: self.request@, retried: self.retried }
    }
}

/// A call that waits for new tokens. Its view is the request that it will
/// send again, as it was sent the first time.
#[derive(Debug)]
pub struct Refreshing {
    request: Request,
}

impl View for Refreshing {
    type V = RequestView;

    closed spec fn view(&self) -> RequestView {
        self.request@
    }
}

/// How a call goes on after a response.
#[derive(Debug)]
pub enum Progress<D, T: Storage> {
    /// The call has ended, with this result.
    Done(Result<D, GetError<T>>),
    /// The access token has run out: the tokens are to be refreshed, and the
    /// call goes on from there.
    Refresh(Refreshing),
}

/// The first request of a call to the procedure `nsid`: where it goes, the
/// access token that it goes under, and what it carries. `None` where the
/// service and the procedure make no URL.
pub open spec fn call_request<T>(
    client: ClientView<T>,
    method: Method,
    nsid: Seq<char>,
    query: Seq<(Seq<char>, Seq<char>)>,
    body: Option<Seq<char>>,
) -> Option<RequestView> {
    match endpoint(client.service, nsid) {
        Some(url) => Some(
            RequestView {
                method,
                url,
                authorization: Some(bearer(client.session.jwt.access)),
                query,
                body,
            },
        ),
        None => None,
    }
}

/// Whether `call` is the call that starts with `request`: there is a call
/// where there is a request, it waits for the response to that request, and
/// it has not been sent before.
pub open spec fn starts(call: Option<Pending>, request: Option<RequestView>) -> bool {
    match call {
        Some(call) => request == Some(call@.request) && !call@.retried,
        None => request is None,
    }
}

/// Whether a response reports that the access token has run out.
pub open spec fn reports_expiry<D>(reply: Reply<D>) -> bool {
    &&& reply.status == BAD_REQUEST
    &&& reply.error matches Ok(error)
    &&& error.expired_token()
}

/// What `receive` makes of an answer: `next` is how `call` goes on after
/// `answer`.
///
/// No response ends the call. A status in the success range ends it with the
/// payload, or with the reason why the body was none. A bad request is read
/// as the server's error: an expired token sends a call that has not been
/// sent twice to the refresh, and every other error ends the call. Any other
/// status ends the call with an API error: the server's own where the body
/// holds one, and else the one that stands for an unexpected status.
pub open spec fn received<D, T: Storage>(
    call: Pending,
    answer: Result<Reply<D>, reqwest::Error>,
    next: Progress<D, T>,
) -> bool {
    match answer {
        Err(e) => next == Progress::<D, T>::Done(Err(GetError::Reqwest(e))),
        Ok(reply) => if success(reply.status) {
            match reply.payload {
                Ok(payload) => next == Progress::<D, T>::Done(Ok(payload)),
                Err(e) => next == Progress::<D, T>::Done(Err(GetError::Json(e))),
            }
        } else if reply.status == BAD_REQUEST {
            match reply.error {
                Ok(error) => if error.expired_token() && !call@.retried {
                    next matches Progress::Refresh(waiting) && waiting@ == call@.request
                } else {
                    next == Progress::<D, T>::Done(Err(GetError::Api(error)))
                },
                Err(e) => next == Progress::<D, T>::Done(Err(GetError::Json(e))),
            }
        } else {
            &&& next matches Progress::Done(Err(GetError::Api(error)))
            &&& error@ == api_failure(reply)
        },
    }
}

/// What resuming makes of a save: the client is what `install` makes of
/// it, the call goes on where the session was saved, and it has failed with
/// the storage's error where it was not.
pub open spec fn resumes<T: Storage>(
    held: ClientView<T>,
    session: SessionView,
    saved: Result<(), T::Error>,
    after: ClientView<T>,
    outcome: Result<Pending, GetError<T>>,
) -> bool {
    match outcome {
        Ok(_) => installs(held, session, saved, after, Ok(())),
        Err(e) => e matches GetError::Refresh(cause) && installs(
            held,
            session,
            saved,
            after,
            Err(cause),
        ),
    }
}

/// What `Client::resume` makes of an answer to a refresh: the call goes out
/// again, as it was but under the new access token, if and only if the
/// refresh succeeded. Where it failed, the call has failed with it.
pub open spec fn resumed<T: Storage>(
    before: ClientView<T>,
    waiting: Refreshing,
    answer: Result<Reply<RefreshSession>, reqwest::Error>,
    after: ClientView<T>,
    outcome: Result<Pending, GetError<T>>,
) -> bool {
    match outcome {
        Ok(call) => refreshed(before, answer, after, Ok(())) && call@ == (PendingView {
            request: RequestView {
                method: waiting@.method,
                url: waiting@.url,
                authorization: Some(bearer(after.session.jwt.access)),
                query: waiting@.query,
                body: waiting@.body,
            },
            retried: true,
        }),
        Err(e) => e matches GetError::Refresh(cause) && refreshed(
            before,
            answer,
            after,
            Err(cause),
        ),
    }
}

impl Pending {
    /// The request that is out, or is to go out.
    pub fn request(&self) -> (request: &Request)
        ensures
            request@ == self@.request,
    {
        &self.request
    }

    /// Whether this is the second time that the request goes out.
    pub fn retried(&self) -> (retried: bool)
        ensures
            retried == self@.retried,
    {
        self.retried
    }

    /// Takes what came back for the request and says how the call goes on.
    pub fn receive<D, T: Storage>(self, answer: Result<Reply<D>, reqwest::Error>) -> (next:
        Progress<D, T>)
        ensures
            received(self, answer, next),
    {
        let reply = match answer {
            Ok(reply) => reply,
            Err(e) => {
                return Progress::Done(Err(GetError::Reqwest(e)));
            },
        };
        if is_success(reply.status) {
            match reply.payload {
                Ok(payload) => Progress::Done(Ok(payload)),
                Err(e) => Progress::Done(Err(GetError::Json(e))),
            }
        } else if reply.status == BAD_REQUEST {
            match reply.error {
                Ok(error) => {
                    if error.is_expired_token() && !self.retried {
                        Progress::Refresh(Refreshing { request: self.request })
                    } else {
                        Progress::Done(Err(GetError::Api(error)))
                    }
                },
                Err(e) => Progress::Done(Err(GetError::Json(e))),
            }
        } else {
            Progress::Done(Err(GetError::Api(reply.api_error())))
        }
    }
}

impl Refreshing {
    /// The request that is to go out again once the tokens are new.
    pub fn request(&self) -> (request: &Request)
        ensures
            request@ == self@,
    {
        &self.request
    }

    /// The call as it goes out the second time: the request as it was, but
    /// for the `authorization` header.
    fn retry(self, authorization: String) -> (call: Pending)
        ensures
            call@ == (PendingView {
                request: RequestView {
                    method: self@.method,
                    url: self@.url,
                    authorization: Some(authorization@),
                    query: self@.query,
                    body: self@.body,
                },
                retried: true,
            }),
    {
        let Refreshing { request } = self;
        let Request { method, url, authorization: _, query, body } = request;
        Pending {
            request: Request { method, url, authorization: Some(authorization), query, body },
            retried: true,
        }
    }
}

impl<T: Storage> Client<T> {
    /// Starts a call, under the client's access token. `None` where the
    /// service and the procedure make no URL.
    fn start(&self, method: Method, nsid: &str, query: Vec<(String, String)>, body: Option<
        String,
    >) -> (call: Option<Pending>)
        ensures
            starts(call, call_request(self@, method, nsid@, pairs_of(query@), text_of(body))),
    {
        match endpoint_url(self.service.as_str(), nsid) {
            Some(url) => Some(
                Pending {
                    request: Request {
                        method,
                        url,
                        authorization: Some(bearer_header(self.session.jwt.access())),
                        query,
                        body,
                    },
                    retried: false,
                },
            ),
            None => None,
        }
    }

    /// Starts a GET call to the procedure `path` with the pairs of `query` as
    /// its query string. `None` where the service and the procedure make no
    /// URL.
    pub fn xrpc_get(&self, path: &str, query: Vec<(String, String)>) -> (call: Option<Pending>)
        ensures
            starts(call, call_request(self@, Method::Get, path@, pairs_of(query@), None)),
    {
        self.start(Method::Get, path, query, None)
    }

    /// Starts a POST call to the procedure `path`. `body` is the body as
    /// JSON, or the reason why it could not be written, which ends the call
    /// before it starts. `Ok(None)` where the service and the procedure make
    /// no URL.
    pub fn xrpc_post(&self, path: &str, body: Result<String, serde_json::Error>) -> (call: Result<
        Option<Pending>,
        PostError<T>,
    >)
        ensures
            match body {
                Ok(body) => call matches Ok(call) && starts(
                    call,
                    call_request(self@, Method::Post, path@, Seq::empty(), Some(body@)),
                ),
                Err(e) => call == Err::<Option<Pending>, PostError<T>>(PostError::Json(e)),
            },
    {
        match body {
            Ok(body) => {
                let query: Vec<(String, String)> = Vec::new();
                proof {
                    assert(pairs_of(query@) =~= Seq::empty());
                }
                Ok(self.start(Method::Post, path, query, Some(body)))
            },
            Err(e) => Err(PostError::Json(e)),
        }
    }

    /// Takes what came back for the refresh request of a call that waits for
    /// new tokens. Where the refresh succeeded the call goes out once more,
    /// under the new access token; where it failed the call has failed.
    /// Where the answer holds a session, the storage is asked once, to save
    /// it, and the client is what `install` makes of that save.
    pub fn resume(
        &mut self,
        waiting: Refreshing,
        answer: Result<Reply<RefreshSession>, reqwest::Error>,
    ) -> (outcome: Result<Pending, GetError<T>>)
        ensures
            resumed(old(self)@, waiting, answer, final(self)@, outcome),
            answer matches Ok(reply) ==> (success(reply.status) ==> (reply.payload matches Ok(
                refresh,
            ) ==> exists|borrowed: &mut T, saved: Result<(), T::Error>|
                {
                    &&& *borrowed == old(self)@.storage
                    &&& call_ensures(T::save, (borrowed, &Session::from_spec(refresh)), saved)
                    &&& resumes(
                        ClientView {
                            service: old(self)@.service,
                            storage: *final(borrowed),
                            session: old(self)@.session,
                        },
                        refresh@,
                        saved,
                        final(self)@,
                        outcome,
                    )
                })),
    {
        let ghost before = self@;
        let ghost given = answer;
        let refreshing = self.xrpc_refresh_token(answer);
        let ghost ended = refreshing;
        let outcome = match refreshing {
            Ok(_) => Ok(waiting.retry(bearer_header(self.session.jwt.access()))),
            Err(e) => Err(GetError::Refresh(e)),
        };
        proof {
            if let Ok(reply) = given {
                if let Ok(refresh) = reply.payload {
                    if success(reply.status) {
                        let (borrowed, saved) = choose|
                            borrowed: &mut T,
                            saved: Result<(), T::Error>,
                        |
                            {
                                &&& *borrowed == before.storage
                                &&& call_ensures(
                                    T::save,
                                    (borrowed, &Session::from_spec(refresh)),
                                    saved,
                                )
                                &&& installs(
                                    ClientView {
                                        service: before.service,
                                        storage: *final(borrowed),
                                        session: before.session,
                                    },
                                    refresh@,
                                    saved,
                                    self@,
                                    ended,
                                )
                            };
                        assert(*borrowed == before.storage && call_ensures(
                            T::save,
                            (borrowed, &Session::from_spec(refresh)),
                            saved,
                        ) && resumes(
                            ClientView {
                                service: before.service,
                                storage: *final(borrowed),
                                session: before.session,
                            },
                            refresh@,
                            saved,
                            self@,
                            outcome,
                        ));
                    }
                }
            }
        }
        outcome
    }
}

/// A call that has gone out twice ends with whatever comes back: it asks for
/// no second refresh, and so for no third request. Where the response
/// reports an expired token once more, the call ends with that error of the
/// server.
pub proof fn retried_call_ends<D, T: Storage>(
    call: Pending,
    answer: Result<Reply<D>, reqwest::Error>,
    next: Progress<D, T>,
)
    requires
        call@.retried,
        received(call, answer, next),
    ensures
        next is Done,
        answer is Ok && reports_expiry(answer->Ok_0) ==> next == Progress::<D, T>::Done(
            Err(GetError::Api(answer->Ok_0.error->Ok_0)),
        ),
{
}

/// Two expired tokens in a row end the call. Where the first response of a
/// call reports an expired token, the call asks for a refresh; where that
/// refresh succeeds and the response to the second request reports an
/// expired token again, the call ends with that error of the server. It has
/// then been sent twice and refreshed once.
pub proof fn second_expiry_ends_call<D, T: Storage>(
    call: Pending,
    first: Reply<D>,
    after_first: Progress<D, T>,
    before: ClientView<T>,
    refresh: Result<Reply<RefreshSession>, reqwest::Error>,
    after: ClientView<T>,
    again: Result<Pending, GetError<T>>,
    second: Reply<D>,
    after_second: Progress<D, T>,
)
    requires
        !call@.retried,
        reports_expiry(first),
        reports_expiry(second),
        received(call, Ok(first), after_first),
        after_first matches Progress::Refresh(waiting) ==> resumed(
            before,
            waiting,
            refresh,
            after,
            again,
        ),
        again matches Ok(retry) ==> received(retry, Ok(second), after_second),
    ensures
        after_first is Refresh,
        again matches Ok(retry) ==> retry@.requests() == 2 && retry@.refreshes() == 1
            && after_second == Progress::<D, T>::Done(Err(GetError::Api(second.error->Ok_0))),
{
}

/// A refresh that succeeds is followed by one more request and no other.
/// Where the first response of a call reports an expired token and the
/// refresh succeeds, the client's session is the one that the server gave, it
/// is the one that the storage holds, the request goes out a second time as
/// it was but under the new access token, and whatever comes back for it ends
/// the call: two requests to the procedure and one refresh.
pub proof fn refresh_is_followed_by_one_retry<D, T: Storage>(
    call: Pending,
    first: Reply<D>,
    after_first: Progress<D, T>,
    before: ClientView<T>,
    refresh: Result<Reply<RefreshSession>, reqwest::Error>,
    after: ClientView<T>,
    again: Result<Pending, GetError<T>>,
    second: Result<Reply<D>, reqwest::Error>,
    after_second: Progress<D, T>,
)
    requires
        !call@.retried,
        reports_expiry(first),
        received(call, Ok(first), after_first),
        after_first matches Progress::Refresh(waiting) ==> resumed(
            before,
            waiting,
            refresh,
            after,
            again,
        ),
        again is Ok,
        again matches Ok(retry) ==> received(retry, second, after_second),
    ensures
        call@.requests() == 1 && call@.refreshes() == 0,
        after_first is Refresh,
        ({
            &&& refresh matches Ok(reply)
            &&& success(reply.status)
            &&& reply.payload matches Ok(session)
            &&& after.session == session@
            &&& after.storage.stored() == Some(session@)
        }),
        again->Ok_0@.requests() == 2 && again->Ok_0@.refreshes() == 1,
        again->Ok_0@.request == (RequestView {
            method: call@.request.method,
            url: call@.request.url,
            authorization: Some(bearer(after.session.jwt.access)),
            query: call@.request.query,
            body: call@.request.body,
        }),
        after_second is Done,
{
}

} // verus!
