use vstd::prelude::*;

use crate::enums::connection::ConnectionType;
use crate::enums::protocol::{protocol_version_of_number, ProtocolVersion};
use crate::socket::query::{add_raw_query, QueryMap};
use crate::strmap::StrMap;
use crate::text::{opt_view, parse_u8_str, parse_u8_text};
use crate::util::proxy::address::{url_accepts, url_host, url_serialization, ParsedUrl};

verus! {

/// The protocol version after reading a query: the version its `EIO` parameter names when that
/// parameter reads as a byte, else the version there was.
pub open spec fn protocol_after_query(
    current: ProtocolVersion,
    query: Map<Seq<char>, Seq<char>>,
) -> ProtocolVersion {
    if query.contains_key("EIO"@) {
        match parse_u8_text(query["EIO"@]) {
            Some(n) => protocol_version_of_number(n),
            None => current,
        }
    } else {
        current
    }
}

/// Builds a socket: the request it connects with, its protocol and connection type, namespace,
/// query parameters, listeners by event name and for every event, whether it shakes hands on
/// connecting, and its proxy settings.
pub struct SocketBuilder<R, L> {
    protocol: ProtocolVersion,
    request: R,
    connection_type: ConnectionType,
    namespace: Option<String>,
    query: QueryMap,
    listeners: StrMap<Vec<L>>,
    wildcard_listener: Option<L>,
    force_handshake: bool,
    proxy: Option<String>,
    ignore_invalid_proxy: bool,
    ignore_proxy_env_vars: bool,
}

/// What a builder holds, its strings and maps taken as characters.
pub struct BuilderView<R, L> {
    pub protocol: ProtocolVersion,
    pub request: R,
    pub connection_type: ConnectionType,
    pub namespace: Option<Seq<char>>,
    pub query: Map<Seq<char>, Seq<char>>,
    pub listeners: Map<Seq<char>, Seq<L>>,
    pub wildcard_listener: Option<L>,
    pub force_handshake: bool,
    pub proxy: Option<Seq<char>>,
    pub ignore_invalid_proxy: bool,
    pub ignore_proxy_env_vars: bool,
}

impl<R, L> View for SocketBuilder<R, L> {
    type V = BuilderView<R, L>;

    closed spec fn view(&self) -> BuilderView<R, L> {
        BuilderView {
            protocol: self.protocol,
            request: self.request,
            connection_type: self.connection_type,
            namespace: opt_view(self.namespace),
            query: self.query@,
            listeners: self.listeners@,
            wildcard_listener: self.wildcard_listener,
            force_handshake: self.force_handshake,
            proxy: opt_view(self.proxy),
            ignore_invalid_proxy: self.ignore_invalid_proxy,
            ignore_proxy_env_vars: self.ignore_proxy_env_vars,
        }
    }
}

/// The listeners of `listeners` with `listener` added after those of `event`.
pub open spec fn listeners_with<L>(
    listeners: Map<Seq<char>, Seq<L>>,
    event: Seq<char>,
    listener: L,
) -> Map<Seq<char>, Seq<L>> {
    listeners.insert(
        event,
        if listeners.contains_key(event) {
            listeners[event]
        } else {
            Seq::<L>::empty()
        }.push(listener),
    )
}

/// A builder's contents after reading a raw query: the query with its parameters added, and
/// the protocol version that the result's `EIO` parameter names.
pub open spec fn after_raw_query<R, L>(b: BuilderView<R, L>, query: Seq<char>) -> BuilderView<R, L> {
    BuilderView {
        query: add_raw_query(b.query, query),
        protocol: protocol_after_query(b.protocol, add_raw_query(b.query, query)),
        ..b
    }
}

/// What a new builder for `request`, whose URI is `request_uri`, holds: the defaults, with the
/// query parameters of the URI and the protocol version its `EIO` parameter names.
pub open spec fn new_builder<R, L>(request: R, request_uri: Seq<char>) -> BuilderView<R, L> {
    after_raw_query(
        BuilderView {
            protocol: ProtocolVersion::V3,
            request,
            connection_type: ConnectionType::WebSocket,
            namespace: None,
            query: Map::empty(),
            listeners: Map::empty(),
            wildcard_listener: None,
            force_handshake: false,
            proxy: None,
            ignore_invalid_proxy: false,
            ignore_proxy_env_vars: false,
        },
        request_uri,
    )
}

impl<R, L> SocketBuilder<R, L> {
    /// A builder for `request`, whose URI is `request_uri`.
    pub fn new_with_request(request: R, request_uri: &str) -> (r: Self)
        ensures
            r@ == new_builder::<R, L>(request, request_uri@),
    {
        let mut instance = SocketBuilder {
            request,
            protocol: ProtocolVersion::default(),
            connection_type: ConnectionType::default(),
            namespace: None,
            wildcard_listener: None,
            force_handshake: false,
            query: StrMap::new(),
            listeners: StrMap::new(),
            proxy: None,
            ignore_invalid_proxy: false,
            ignore_proxy_env_vars: false,
        };
        instance.transform_raw_query(request_uri);
        instance
    }

    /// Adds the parameters of a raw query, then takes the protocol version from `EIO`.
    fn transform_raw_query(&mut self, query: &str)
        ensures
            final(self)@ == after_raw_query(old(self)@, query@),
    {
        self.query.add_raw_query(query);
        proof {
            reveal_strlit("EIO");
        }
        let engine_version = match self.query.get("EIO") {
            Some(v) => parse_u8_str(v.as_str()),
            None => None,
        };
        if let Some(n) = engine_version {
            self.protocol = ProtocolVersion::from_u8(n);
        }
    }

    /// Sets the protocol version.
    pub fn protocol(&mut self, protocol: ProtocolVersion) -> (r: &mut Self)
        ensures
            r@ == (BuilderView { protocol, ..old(self)@ }),
            *final(self) == *final(r),
    {
        self.protocol = protocol;
        self
    }

    /// Sets the connection type.
    pub fn connection_type(&mut self, connection_type: ConnectionType) -> (r: &mut Self)
        ensures
            r@ == (BuilderView { connection_type, ..old(self)@ }),
            *final(self) == *final(r),
    {
        self.connection_type = connection_type;
        self
    }

    /// Sets the namespace.
    pub fn namespace(&mut self, namespace: String) -> (r: &mut Self)
        ensures
            r@ == (BuilderView { namespace: Some(namespace@), ..old(self)@ }),
            *final(self) == *final(r),
    {
        self.namespace = Some(namespace);
        self
    }

    /// Replaces the query parameters.
    pub fn query(&mut self, query: QueryMap) -> (r: &mut Self)
        ensures
            r@ == (BuilderView { query: query@, ..old(self)@ }),
            *final(self) == *final(r),
    {
        self.query = query;
        self
    }

    /// Replaces the listeners by event name.
    pub fn listeners(&mut self, listeners: StrMap<Vec<L>>) -> (r: &mut Self)
        ensures
            r@ == (BuilderView { listeners: listeners@, ..old(self)@ }),
            *final(self) == *final(r),
    {
        self.listeners = listeners;
        self
    }

    /// Replaces the query parameters with those of a raw query, and takes the protocol version
    /// from its `EIO` parameter.
    pub fn raw_query(&mut self, query: &str) -> (r: &mut Self)
        ensures
            r@ == after_raw_query(BuilderView { query: Map::empty(), ..old(self)@ }, query@),
            *final(self) == *final(r),
    {
        self.query.clear();
        self.transform_raw_query(query);
        self
    }

    /// Sets whether connecting shakes hands.
    pub fn force_handshake(&mut self, force: bool) -> (r: &mut Self)
        ensures
            r@ == (BuilderView { force_handshake: force, ..old(self)@ }),
            *final(self) == *final(r),
    {
        self.force_handshake = force;
        self
    }

    /// Adds a listener for `event`, after those it has.
    pub fn on(&mut self, event: &str, listener: L) -> (r: &mut Self)
        ensures
            r@ == (BuilderView {
                listeners: listeners_with(old(self)@.listeners, event@, listener),
                ..old(self)@
            }),
            *final(self) == *final(r),
    {
        self.listeners.push_to(event, listener);
        self
    }

    /// Sets the listener for every event.
    pub fn on_any(&mut self, listener: L) -> (r: &mut Self)
        ensures
            r@ == (BuilderView { wildcard_listener: Some(listener), ..old(self)@ }),
            *final(self) == *final(r),
    {
        self.wildcard_listener = Some(listener);
        self
    }

    /// Sets the proxy to connect through.
    pub fn proxy(self, proxy: String) -> (r: Self)
        ensures
            r@ == (BuilderView { proxy: Some(proxy@), ..self@ }),
    {
        let mut b = self;
        b.proxy = Some(proxy);
        b
    }

    /// Sets whether connecting goes on directly when the proxy fails.
    pub fn ignore_invalid_proxy(&mut self, ignore: bool) -> (r: &mut Self)
        ensures
            r@ == (BuilderView { ignore_invalid_proxy: ignore, ..old(self)@ }),
            *final(self) == *final(r),
    {
        self.ignore_invalid_proxy = ignore;
        self
    }

    /// Sets whether the proxy environment variables are ignored.
    pub fn ignore_proxy_env_vars(&mut self, ignore: bool) -> (r: &mut Self)
        ensures
            r@ == (BuilderView { ignore_proxy_env_vars: ignore, ..old(self)@ }),
            *final(self) == *final(r),
    {
        self.ignore_proxy_env_vars = ignore;
        self
    }

    /// The request the socket connects with.
    pub fn request(&self) -> (r: &R)
        ensures
            *r == self@.request,
    {
        &self.request
    }

    /// The parts of the builder, for connecting.
    pub fn into_parts(self) -> (r: BuilderParts<R, L>)
        ensures
            r.protocol == self@.protocol,
            r.request == self@.request,
            r.connection_type == self@.connection_type,
            opt_view(r.namespace) == self@.namespace,
            r.query@ == self@.query,
            r.listeners@ == self@.listeners,
            r.wildcard_listener == self@.wildcard_listener,
            r.force_handshake == self@.force_handshake,
            opt_view(r.proxy) == self@.proxy,
            r.ignore_invalid_proxy == self@.ignore_invalid_proxy,
            r.ignore_proxy_env_vars == self@.ignore_proxy_env_vars,
    {
        BuilderParts {
            protocol: self.protocol,
            request: self.request,
            connection_type: self.connection_type,
            namespace: self.namespace,
            query: self.query,
            listeners: self.listeners,
            wildcard_listener: self.wildcard_listener,
            force_handshake: self.force_handshake,
            proxy: self.proxy,
            ignore_invalid_proxy: self.ignore_invalid_proxy,
            ignore_proxy_env_vars: self.ignore_proxy_env_vars,
        }
    }
}

/// The parts of a builder that connecting needs.
pub struct BuilderParts<R, L> {
    pub protocol: ProtocolVersion,
    pub request: R,
    pub connection_type: ConnectionType,
    pub namespace: Option<String>,
    pub query: QueryMap,
    pub listeners: StrMap<Vec<L>>,
    pub wildcard_listener: Option<L>,
    pub force_handshake: bool,
    pub proxy: Option<String>,
    pub ignore_invalid_proxy: bool,
    pub ignore_proxy_env_vars: bool,
}

/// The URI and `Host` header of the request for a socket URL: the URL as `url` writes it, and
/// its host, or the whole URL when it has no host; `None` where `url` refuses the text.
pub open spec fn request_target(uri: Seq<char>) -> Option<(Seq<char>, Seq<char>)> {
    if url_accepts(uri) {
        Some(
            (
                url_serialization(uri),
                match url_host(uri) {
                    Some(h) => h,
                    None => url_serialization(uri),
                },
            ),
        )
    } else {
        None
    }
}

/// The URI and `Host` header of the request for a socket URL.
pub fn request_target_of(uri: &str) -> (r: Option<(String, String)>)
    ensures
        match r {
            Some((u, h)) => request_target(uri@) == Some((u@, h@)),
            None => request_target(uri@) is None,
        },
{
    let url = match ParsedUrl::parse(uri) {
        Some(u) => u,
        None => {
            return None;
        },
    };
    let serialized = url.as_string();
    let host = match url.host() {
        Some(h) => h,
        None => url.as_string(),
    };
    Some((serialized, host))
}

} // verus!
