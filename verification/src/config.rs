//! The startup configuration as plain values, and its conversion into
//! the parts the running proxy holds: the server settings, the
//! outbound client settings, and the mirror registry keyed by each
//! mirror's configured origin.
use vstd::prelude::*;
use crate::policy::exts_view;
use crate::policy::Mirror;
use crate::policy::MirrorModel;
use crate::registry::MirrorRegistry;

verus! {

/// Why loading the configuration failed.
#[derive(Debug)]
pub enum LoadingError {
    /// The configuration file could not be read.
    IoError(std::io::Error),
    /// The configuration text could not be deserialized.
    DeserializationError(String),
}

/// The listening side of the configuration: the socket address and
/// the server credential locations.
pub struct Server {
    pub addr: String,
    pub certs_location: String,
    pub private_key_location: String,
}

/// The model of the server settings.
pub ghost struct ServerModel {
    pub addr: Seq<char>,
    pub certs_location: Seq<char>,
    pub private_key_location: Seq<char>,
}

impl View for Server {
    type V = ServerModel;

    open spec fn view(&self) -> ServerModel {
        ServerModel {
            addr: self.addr@,
            certs_location: self.certs_location@,
            private_key_location: self.private_key_location@,
        }
    }
}

/// The outbound side of the configuration: an optional custom
/// trust-anchor bundle location.
pub struct Client {
    pub ca_location: Option<String>,
}

impl View for Client {
    type V = Option<Seq<char>>;

    open spec fn view(&self) -> Option<Seq<char>> {
        match self.ca_location {
            Some(ref p) => Some(p@),
            None => None,
        }
    }
}

/// One mirror as configured: its origin key, its allow-listed
/// extension tokens, and its local storage root.
pub struct RawMirror {
    pub uri: String,
    pub extensions: Vec<String>,
    pub location: String,
}

/// The model of one configured mirror entry.
pub ghost struct RawMirrorModel {
    pub uri: Seq<char>,
    pub extensions: Seq<Seq<char>>,
    pub location: Seq<char>,
}

impl View for RawMirror {
    type V = RawMirrorModel;

    open spec fn view(&self) -> RawMirrorModel {
        RawMirrorModel {
            uri: self.uri@,
            extensions: exts_view(self.extensions@),
            location: self.location@,
        }
    }
}

/// The whole configuration: server settings, client settings, and the
/// named mirrors in configuration order.
pub struct Config {
    server: Server,
    client: Client,
    raw_mirrors: Vec<(String, RawMirror)>,
}

/// The model of the whole configuration.
pub ghost struct ConfigModel {
    pub server: ServerModel,
    pub client: Option<Seq<char>>,
    pub raw_mirrors: Seq<(Seq<char>, RawMirrorModel)>,
}

/// The views of the named mirror entries.
pub open spec fn raws_view(raws: Seq<(String, RawMirror)>) -> Seq<(Seq<char>, RawMirrorModel)> {
    raws.map_values(|p: (String, RawMirror)| (p.0@, p.1@))
}

impl View for Config {
    type V = ConfigModel;

    closed spec fn view(&self) -> ConfigModel {
        ConfigModel {
            server: self.server@,
            client: self.client@,
            raw_mirrors: raws_view(self.raw_mirrors@),
        }
    }
}

/// The registry entries a configuration gives rise to: each named
/// mirror keyed by its configured origin, in configuration order.
pub open spec fn registry_entries(raws: Seq<(Seq<char>, RawMirrorModel)>) -> Seq<
    (Seq<char>, MirrorModel),
> {
    raws.map_values(
        (|p: (Seq<char>, RawMirrorModel)|
            (
                p.1.uri,
                MirrorModel { name: p.0, extensions: p.1.extensions, location: p.1.location },
            )),
    )
}

impl Config {
    /// Assembles a configuration from its parts.
    pub fn new(server: Server, client: Client, raw_mirrors: Vec<(String, RawMirror)>) -> (c:
        Config)
        ensures
            c@.server == server@,
            c@.client == client@,
            c@.raw_mirrors == raws_view(raw_mirrors@),
    {
        Config { server, client, raw_mirrors }
    }

    /// Takes the configuration apart: the server settings, the client
    /// settings, and the mirror registry, each named mirror keyed by
    /// whatever string was configured as its origin.
    pub fn into_parts(self) -> (r: (Server, Client, MirrorRegistry))
        ensures
            r.0@ == self@.server,
            r.1@ == self@.client,
            r.2@ =~= registry_entries(self@.raw_mirrors),
    {
        let Config { server, client, raw_mirrors } = self;
        let ghost orig = raw_mirrors@;
        let mut rest = raw_mirrors;
        let mut registry = MirrorRegistry::new();
        proof {
            assert(orig.subrange(0, 0).len() == 0);
            assert(registry@ =~= registry_entries(raws_view(orig.subrange(0, 0))));
        }
        while rest.len() > 0
            invariant
                rest@.len() <= orig.len(),
                rest@ =~= orig.subrange(orig.len() - rest@.len(), orig.len() as int),
                registry@ =~= registry_entries(
                    raws_view(orig.subrange(0, orig.len() - rest@.len())),
                ),
            decreases rest@.len(),
        {
            let ghost done = orig.len() - rest@.len();
            let ghost prev = rest@;
            let entry = rest.remove(0);
            proof {
                assert(prev[0] == orig.subrange(done, orig.len() as int)[0]);
                assert(entry == orig[done]);
                assert(rest@ =~= orig.subrange(done + 1, orig.len() as int));
            }
            let (name, raw) = entry;
            let RawMirror { uri, extensions, location } = raw;
            registry.insert(uri, Mirror { name, extensions, location });
            proof {
                assert(registry@ =~= registry_entries(
                    raws_view(orig.subrange(0, done + 1)),
                ));
            }
        }
        proof {
            assert(orig.subrange(0, orig.len() as int) =~= orig);
        }
        (server, client, registry)
    }
}

} // verus!
