//! The client: one service, one storage, and the session that is live.

use crate::session::Session;
use crate::session::SessionView;
use crate::storage::Storage;
use vstd::prelude::*;

verus! {

/// The client's service, storage and session as plain values.
pub struct ClientView<T> {
    pub service: Seq<char>,
    pub storage: T,
    pub session: SessionView,
}

impl<T: Storage> ClientView<T> {
    /// Whether the client's session is the one that its storage holds.
    pub open spec fn in_step(self) -> bool {
        self.storage.stored() == Some(self.session)
    }
}

/// What opening makes of a load: `client` is the client of the service at
/// `service` with the storage `kept` and the session that the load gave, or
/// the error that the load gave.
pub open spec fn opens<T: Storage>(
    service: Seq<char>,
    kept: T,
    loaded: Result<Session, T::Error>,
    client: Result<Client<T>, T::Error>,
) -> bool {
    match loaded {
        Ok(session) => client matches Ok(client) && client@ == (ClientView {
            service: service,
            storage: kept,
            session: session@,
        }),
        Err(e) => client == Err::<Client<T>, T::Error>(e),
    }
}

/// A client of one service, logged in as one account. The session that it
/// holds is a copy of the one that its storage holds, and is replaced as a
/// whole, never in part.
pub struct Client<T: Storage> {
    pub(crate) service: String,
    pub(crate) storage: T,
    pub(crate) session: Session,
}

impl<T: Storage> View for Client<T> {
    type V = ClientView<T>;

    open(crate) spec fn view(&self) -> ClientView<T> {
        ClientView { service: self.service@, storage: self.storage, session: self.session@ }
    }
}

impl<T: Storage> Client<T> {
    /// A client of the service at `service` that is logged in with `session`
    /// and keeps its sessions in `storage`.
    pub fn with_session(service: String, storage: T, session: Session) -> (client: Client<T>)
        ensures
            client@ == (ClientView { service: service@, storage: storage, session: session@ }),
    {
        Client { service, storage, session }
    }

    /// A client of the service at `service` that is logged in with the
    /// session that `storage` holds: what `opened` makes of what the
    /// storage's `load` gives. So it fails where the storage holds no
    /// session, and where it succeeds the client's session is the one that
    /// its storage holds.
    pub fn new(service: String, storage: T) -> (client: Result<Client<T>, T::Error>)
        ensures
            exists|borrowed: &mut T, loaded: Result<Session, T::Error>|
                {
                    &&& *borrowed == storage
                    &&& call_ensures(T::load, (borrowed,), loaded)
                    &&& opens(service@, *final(borrowed), loaded, client)
                },
            storage.stored() is None ==> client is Err,
            client matches Ok(client) ==> {
                &&& client@.service == service@
                &&& client@.storage.stored() == storage.stored()
                &&& client@.in_step()
            },
    {
        let ghost before = storage;
        let mut storage = storage;
        // Called as a value, so that the contract can speak of what this
        // call gave.
        let load = T::load;
        let loaded = load(&mut storage);
        let ghost kept = storage;
        let client = Self::opened(service, storage, loaded);
        proof {
            let borrowed = choose|borrowed: &mut T|
                *borrowed == before && *final(borrowed) == kept && call_ensures(
                    T::load,
                    (borrowed,),
                    loaded,
                );
            assert(*borrowed == before && call_ensures(T::load, (borrowed,), loaded) && opens(
                service@,
                *final(borrowed),
                loaded,
                client,
            ));
        }
        client
    }

    /// How a client is opened once the storage has been asked for its
    /// session: with the session if it gave one, and not at all if it did
    /// not.
    pub fn opened(service: String, storage: T, loaded: Result<Session, T::Error>) -> (client:
        Result<Client<T>, T::Error>)
        ensures
            opens(service@, storage, loaded, client),
    {
        match loaded {
            Ok(session) => Ok(Self::with_session(service, storage, session)),
            Err(e) => Err(e),
        }
    }

    /// The URL of the service.
    pub fn get_service(&self) -> (service: &str)
        ensures
            service@ == self@.service,
    {
        self.service.as_str()
    }

    /// The token that authorises the next call. It is never empty.
    pub fn access_token(&self) -> (token: &str)
        ensures
            token@ == self@.session.jwt.access,
            token@.len() > 0,
    {
        self.session.jwt.access()
    }

    /// The session that the client is logged in with.
    pub fn session(&self) -> (session: &Session)
        ensures
            session@ == self@.session,
    {
        &self.session
    }

    /// The storage that the client keeps its sessions in.
    pub fn storage(&self) -> (storage: &T)
        ensures
            *storage == self@.storage,
    {
        &self.storage
    }
}

} // verus!
