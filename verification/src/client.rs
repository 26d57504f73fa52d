//! The registry of OAuth clients.

use crate::text::{clone_strings, contains_text};
use vstd::hash_map::StringHashMap;
use vstd::prelude::*;

verus! {

/// Whether a client is able to keep a secret.
#[derive(Clone, Copy, Debug, PartialEq, Eq, Structural)]
pub enum ClientType {
    Confidential,
    Public,
}

/// A registered client.
#[derive(Debug)]
pub struct Client {
    pub id: String,
    pub client_type: ClientType,
    pub redirect_uris: Vec<String>,
    pub name: String,
}

/// The mathematical value of a [`Client`].
pub struct ClientView {
    pub id: Seq<char>,
    pub client_type: ClientType,
    pub redirect_uris: Seq<Seq<char>>,
    pub name: Seq<char>,
}

impl View for Client {
    type V = ClientView;

    open spec fn view(&self) -> ClientView {
        ClientView {
            id: self.id@,
            client_type: self.client_type,
            redirect_uris: self.redirect_uris.deep_view(),
            name: self.name@,
        }
    }
}

impl DeepView for Client {
    type V = ClientView;

    open spec fn deep_view(&self) -> ClientView {
        self@
    }
}

/// Read-only lookup of registered clients by their identifier. Identifiers
/// are compared character for character.
///
/// A registry whose type says `modelled()` answers exactly as `registered`
/// says. One that is implemented in unverified code leaves both as they are
/// here, and nothing is known of its answers.
pub trait ClientStore {
    /// Whether `read_client` answers as `registered` says.
    open spec fn modelled() -> bool {
        false
    }

    /// The client registered under `id`, if there is one.
    open spec fn registered(&self, id: Seq<char>) -> Option<ClientView> {
        None
    }

    /// Looks up the client registered under `id`. That there is none is an
    /// answer like any other.
    fn read_client(&self, id: &str) -> (client: Option<Client>)
        ensures
            Self::modelled() ==> client.deep_view() == self.registered(id@),
    ;
}

/// What a registry holds of a client, besides its identifier.
#[derive(Clone, Debug)]
pub struct ClientData {
    pub client_type: ClientType,
    pub redirect_uris: Vec<String>,
    pub name: String,
}

/// The client that is registered under `id` with `data`.
pub open spec fn client_of(id: Seq<char>, data: ClientData) -> ClientView {
    ClientView {
        id,
        client_type: data.client_type,
        redirect_uris: data.redirect_uris.deep_view(),
        name: data.name@,
    }
}

/// A registry that keeps its clients in a map, by identifier.
pub struct MapClientStore {
    data: StringHashMap<ClientData>,
}

impl MapClientStore {
    #[verifier::type_invariant]
    spec fn finite(self) -> bool {
        self.data@.dom().finite()
    }

    /// A registry without clients.
    pub fn new() -> (store: MapClientStore)
        ensures
            forall|id: Seq<char>| store.registered(id) is None,
            store.count() == 0,
    {
        MapClientStore { data: StringHashMap::new() }
    }

    /// Registers a client under `id`, in place of the one that was
    /// registered under it, if any.
    pub fn insert(&mut self, id: String, client: ClientData)
        ensures
            forall|other: Seq<char>|
                #[trigger] final(self).registered(other) == if other == id@ {
                    Some(client_of(id@, client))
                } else {
                    old(self).registered(other)
                },
            final(self).count() == if old(self).registered(id@) is Some {
                old(self).count()
            } else {
                old(self).count() + 1
            },
    {
        proof {
            use_type_invariant(&*self);
        }
        let mut data: StringHashMap<ClientData> = StringHashMap::new();
        std::mem::swap(&mut data, &mut self.data);
        data.insert(id, client);
        self.data = data;
    }

    /// The number of clients in the registry.
    pub closed spec fn count(&self) -> nat {
        self.data@.len()
    }

    /// The number of clients in the registry.
    pub fn len(&self) -> (n: usize)
        ensures
            n == self.count(),
    {
        self.data.len()
    }
}

impl ClientStore for MapClientStore {
    open spec fn modelled() -> bool {
        true
    }

    closed spec fn registered(&self, id: Seq<char>) -> Option<ClientView> {
        if self.data@.contains_key(id) {
            Some(client_of(id, self.data@[id]))
        } else {
            None
        }
    }

    fn read_client(&self, id: &str) -> (client: Option<Client>) {
        match self.data.get(id) {
            Some(data) => Some(
                Client {
                    id: id.to_owned(),
                    client_type: data.client_type,
                    redirect_uris: clone_strings(&data.redirect_uris),
                    name: data.name.clone(),
                },
            ),
            None => None,
        }
    }
}

/// A registry that knows a fixed list of client identifiers; every client in
/// it is public, has no registered redirect URI and is named
/// "Example Client".
#[derive(Clone, Debug)]
pub struct TestClientStore {
    pub client_ids: Vec<String>,
}

impl ClientStore for TestClientStore {
    open spec fn modelled() -> bool {
        true
    }

    open spec fn registered(&self, id: Seq<char>) -> Option<ClientView> {
        if self.client_ids.deep_view().contains(id) {
            Some(
                ClientView {
                    id,
                    client_type: ClientType::Public,
                    redirect_uris: Seq::empty(),
                    name: "Example Client"@,
                },
            )
        } else {
            None
        }
    }

    fn read_client(&self, id: &str) -> (client: Option<Client>) {
        let wanted = id.to_owned();
        let found = contains_text(&self.client_ids, &wanted);
        if found {
            let redirect_uris: Vec<String> = Vec::new();
            assert(redirect_uris.deep_view() =~= Seq::<Seq<char>>::empty());
            Some(
                Client {
                    id: wanted,
                    client_type: ClientType::Public,
                    redirect_uris,
                    name: "Example Client".to_owned(),
                },
            )
        } else {
            None
        }
    }
}

} // verus!
