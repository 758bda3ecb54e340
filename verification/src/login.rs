//! Login: the request that asks for a session, and what becomes of the
//! answer.

use crate::client::Client;
use crate::error::LoginError;
use crate::session::CreateSession;
use crate::session::Session;
use crate::storage::Storage;
use crate::wire::api_failure;
use crate::wire::endpoint;
use crate::wire::endpoint_url;
use crate::wire::json_string;
use crate::wire::quote_json;
use crate::wire::request_of;
use crate::wire::Method;
use crate::wire::Reply;
use crate::wire::Request;
use crate::wire::RequestView;
use crate::wire::OK;
use crate::wire::UNAUTHORIZED;
use vstd::prelude::*;
use vstd::std_specs::convert::FromSpec;

verus! {

/// The procedure that opens a session.
pub const CREATE_SESSION: &'static str = "com.atproto.server.createSession";

/// The body of a login request: a JSON object of the two credentials.
pub open spec fn login_body(identifier: Seq<char>, password: Seq<char>) -> Seq<char> {
    "{\"identifier\":"@ + json_string(identifier) + ",\"password\":"@ + json_string(password)
        + "}"@
}

/// The login request: a POST to the procedure that opens a session, with the
/// credentials as its body and no token. `None` where the service and the
/// procedure make no URL.
pub open spec fn login_call(
    service: Seq<char>,
    identifier: Seq<char>,
    password: Seq<char>,
) -> Option<RequestView> {
    match endpoint(service, CREATE_SESSION@) {
        Some(url) => Some(
            RequestView {
                method: Method::Post,
                url,
                authorization: None,
                query: Seq::empty(),
                body: Some(login_body(identifier, password)),
            },
        ),
        None => None,
    }
}

/// The request that asks the service at `service` for a session; `None`
/// where `service` and the procedure make no URL.
pub fn login_request(service: &str, identifier: &str, password: &str) -> (request: Option<
    Request,
>)
    ensures
        request_of(request) == login_call(service@, identifier@, password@),
{
    let url = match endpoint_url(service, CREATE_SESSION) {
        Some(url) => url,
        None => {
            return None;
        },
    };
    let mut body = String::from_str("{\"identifier\":");
    body.append(quote_json(identifier).as_str());
    body.append(",\"password\":");
    body.append(quote_json(password).as_str());
    body.append("}");
    let request = Request {
        method: Method::Post,
        url,
        authorization: None,
        query: Vec::new(),
        body: Some(body),
    };
    proof {
        assert(request@.query =~= Seq::empty());
    }
    Some(request)
}

/// What `Client::login` makes of an answer: `outcome` is the result, and
/// `before` and `after` are the storage before and after the call.
///
/// Only the status 200 with a session in the body leads to a save, and only
/// then can the storage change: the login succeeds where the save does, and
/// fails with the storage's error where it does not. The status 401 gives the
/// server's error as it came. Every other status is an API error: the
/// server's own where the body holds one, and else the one that stands for an
/// unexpected status.
pub open spec fn logged_in<T: Storage>(
    before: T,
    answer: Result<Reply<CreateSession>, reqwest::Error>,
    after: T,
    outcome: Result<(), LoginError<T>>,
) -> bool {
    match answer {
        Err(e) => outcome == Err::<(), LoginError<T>>(LoginError::Reqwest(e)) && after == before,
        Ok(reply) => if reply.status == OK {
            match reply.payload {
                Ok(create) => match outcome {
                    Ok(_) => after.stored() == Some(create@),
                    Err(e) => e is Storage,
                },
                Err(e) => outcome == Err::<(), LoginError<T>>(LoginError::Json(e)) && after
                    == before,
            }
        } else if reply.status == UNAUTHORIZED {
            match reply.error {
                Ok(error) => outcome == Err::<(), LoginError<T>>(LoginError::Api(error)) && after
                    == before,
                Err(e) => outcome == Err::<(), LoginError<T>>(LoginError::Json(e)) && after
                    == before,
            }
        } else {
            &&& outcome matches Err(LoginError::Api(error))
            &&& error@ == api_failure(reply)
            &&& after == before
        },
    }
}

/// How a login ends once the session has been handed to the storage: well
/// if it was saved, and with the storage's error if it was not.
pub open spec fn login_ends<T: Storage>(
    saved: Result<(), T::Error>,
    outcome: Result<(), LoginError<T>>,
) -> bool {
    match saved {
        Ok(_) => outcome is Ok,
        Err(e) => outcome == Err::<(), LoginError<T>>(LoginError::Storage(e)),
    }
}

impl<T: Storage> Client<T> {
    /// Ends a login: takes what came back for the login request, and stores
    /// the session if the server gave one. The storage is asked once, to
    /// save that session, and the login ends as that save does.
    pub fn login(answer: Result<Reply<CreateSession>, reqwest::Error>, storage: &mut T) -> (outcome:
        Result<(), LoginError<T>>)
        ensures
            logged_in(*old(storage), answer, *final(storage), outcome),
            answer matches Ok(reply) ==> (reply.status == OK ==> (reply.payload matches Ok(create)
                ==> exists|borrowed: &mut T, saved: Result<(), T::Error>|
                {
                    &&& *borrowed == *old(storage)
                    &&& call_ensures(T::save, (borrowed, &Session::from_spec(create)), saved)
                    &&& *final(storage) == *final(borrowed)
                    &&& login_ends(saved, outcome)
                })),
    {
        let reply = match answer {
            Ok(reply) => reply,
            Err(e) => {
                return Err(LoginError::Reqwest(e));
            },
        };
        if reply.status == OK {
            match reply.payload {
                Ok(create) => {
                    let ghost before = *storage;
                    let session = Session::from(create);
                    // Called as a value, so that the contract can speak of
                    // what this call gave.
                    let save = T::save;
                    let saved = save(storage, &session);
                    let ghost after = *storage;
                    let outcome = Self::login_saved(saved);
                    proof {
                        let borrowed = choose|borrowed: &mut T|
                            *borrowed == before && *final(borrowed) == after && call_ensures(
                                T::save,
                                (borrowed, &session),
                                saved,
                            );
                        assert(*borrowed == before && call_ensures(
                            T::save,
                            (borrowed, &Session::from_spec(create)),
                            saved,
                        ) && after == *final(borrowed) && login_ends(saved, outcome));
                    }
                    outcome
                },
                Err(e) => Err(LoginError::Json(e)),
            }
        } else if reply.status == UNAUTHORIZED {
            match reply.error {
                Ok(error) => Err(LoginError::Api(error)),
                Err(e) => Err(LoginError::Json(e)),
            }
        } else {
            Err(LoginError::Api(reply.api_error()))
        }
    }

    /// How a login ends once the session has been handed to the storage:
    /// well if it was saved, and with the storage's error if it was not.
    pub fn login_saved(saved: Result<(), T::Error>) -> (outcome: Result<(), LoginError<T>>)
        ensures
            login_ends(saved, outcome),
    {
        match saved {
            Ok(_) => Ok(()),
            Err(e) => Err(LoginError::Storage(e)),
        }
    }
}

} // verus!
