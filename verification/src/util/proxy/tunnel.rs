use vstd::prelude::*;

use crate::text::opt_view;
use crate::util::base64::{base64_encode, base64_text};
use crate::util::proxy::address::{
    url_accepts, url_host, url_host_and_port, url_password, url_port, url_scheme, url_username,
    ParsedUrl,
};
use crate::util::version::{append_decimal, decimal_text};
use vstd::string::StringSliceAdditionalSpecFns;
use vstd::utf8::encode_utf8;

verus! {

/// A proxy that a TCP connection goes through.
#[derive(Debug)]
pub enum TcpProxy {
    /// An HTTP proxy at `url` (host and port), with the `Proxy-Authorization` value to send.
    Http { auth: Option<Vec<u8>>, url: String },
}

/// Why a proxy cannot be used.
#[derive(Debug, Clone, Copy, PartialEq, Eq, Structural)]
pub enum ProxyError {
    /// The proxy's URL does not parse.
    InvalidProxyUrl,
    /// The proxy's URL has a scheme other than `http` or `https`.
    UnknownSchema,
    /// The target's URL does not parse.
    InvalidUri,
    /// The target's URL has no host.
    TargetNotReachable,
    /// No proxy is configured, in the builder or the environment.
    NoProxyProvided,
}

/// Appends bytes.
pub fn append_bytes(out: &mut Vec<u8>, b: &[u8])
    ensures
        final(out)@ == old(out)@ + b@,
{
    let mut i: usize = 0;
    while i < b.len()
        invariant
            i <= b@.len(),
            out@ == old(out)@ + b@.take(i as int),
        decreases b@.len() - i,
    {
        out.push(b[i]);
        assert(b@.take(i + 1) =~= b@.take(i as int).push(b@[i as int]));
        i += 1;
    }
    assert(b@.take(b@.len() as int) =~= b@);
}

/// The `Proxy-Authorization` value for a user and password: `Basic` and the base64 of
/// `user:password`.
pub open spec fn basic_auth(username: Seq<char>, password: Seq<char>) -> Seq<u8> {
    encode_utf8("Basic "@) + base64_text(encode_utf8(username + ":"@ + password))
}

/// Reading a proxy from its URL: `http` and `https` proxies, with credentials when the URL
/// has a password.
pub open spec fn proxy_of_url(input: Seq<char>) -> Result<(Option<Seq<u8>>, Seq<char>), ProxyError> {
    if !url_accepts(input) {
        Err(ProxyError::InvalidProxyUrl)
    } else if url_scheme(input) == "http"@ || url_scheme(input) == "https"@ {
        Ok(
            (
                match url_password(input) {
                    Some(p) => Some(basic_auth(url_username(input), p)),
                    None => None,
                },
                url_host_and_port(input),
            ),
        )
    } else {
        Err(ProxyError::UnknownSchema)
    }
}

/// The view of a proxy: its credentials and address.
pub open spec fn tcp_proxy_view(p: TcpProxy) -> (Option<Seq<u8>>, Seq<char>) {
    match p {
        TcpProxy::Http { auth, url } => (
            match auth {
                Some(a) => Some(a@),
                None => None,
            },
            url@,
        ),
    }
}

/// The address to connect to for a target URL: its host, and its port or 80.
pub open spec fn target_of_url(input: Seq<char>) -> Result<(Seq<char>, u16), ProxyError> {
    if !url_accepts(input) {
        Err(ProxyError::InvalidUri)
    } else {
        match url_host(input) {
            None => Err(ProxyError::TargetNotReachable),
            Some(h) => Ok(
                (
                    h,
                    match url_port(input) {
                        Some(p) => p,
                        None => 80,
                    },
                ),
            ),
        }
    }
}

impl TcpProxy {
    /// Reads a proxy from its URL.
    pub fn from_proxy_str(proxy_str: &str) -> (r: Result<TcpProxy, ProxyError>)
        ensures
            match r {
                Ok(p) => proxy_of_url(proxy_str@) == Ok::<
                    (Option<Seq<u8>>, Seq<char>),
                    ProxyError,
                >(tcp_proxy_view(p)),
                Err(e) => proxy_of_url(proxy_str@) == Err::<
                    (Option<Seq<u8>>, Seq<char>),
                    ProxyError,
                >(e),
            },
    {
        let url = match ParsedUrl::parse(proxy_str) {
            Some(u) => u,
            None => {
                return Err(ProxyError::InvalidProxyUrl);
            },
        };
        let addr = url.host_and_port();
        let scheme = url.scheme();
        if crate::text::str_equals(scheme.as_str(), "http") || crate::text::str_equals(
            scheme.as_str(),
            "https",
        ) {
            let auth = match url.password() {
                Some(password) => {
                    let mut credentials = url.username();
                    credentials.append(":");
                    credentials.append(password.as_str());
                    let mut out: Vec<u8> = Vec::new();
                    append_bytes(&mut out, "Basic ".as_bytes());
                    let encoded = base64_encode(credentials.as_str().as_bytes());
                    append_bytes(&mut out, encoded.as_slice());
                    Some(out)
                },
                None => None,
            };
            Ok(TcpProxy::Http { auth, url: addr })
        } else {
            Err(ProxyError::UnknownSchema)
        }
    }

    /// The view of the proxy.
    pub open spec fn spec_view(self) -> (Option<Seq<u8>>, Seq<char>) {
        tcp_proxy_view(self)
    }
}

/// The host and port to reach a target URL at through a proxy.
pub fn proxy_target(target: &str) -> (r: Result<(String, u16), ProxyError>)
    ensures
        match r {
            Ok((h, p)) => target_of_url(target@) == Ok::<(Seq<char>, u16), ProxyError>((h@, p)),
            Err(e) => target_of_url(target@) == Err::<(Seq<char>, u16), ProxyError>(e),
        },
{
    let url = match ParsedUrl::parse(target) {
        Some(u) => u,
        None => {
            return Err(ProxyError::InvalidUri);
        },
    };
    let host = match url.host() {
        Some(h) => h,
        None => {
            return Err(ProxyError::TargetNotReachable);
        },
    };
    let port = match url.port() {
        Some(p) => p,
        None => 80,
    };
    Ok((host, port))
}

/// The first line and host header of a `CONNECT` request for `host:port`.
pub open spec fn connect_head(host: Seq<char>, port: u16) -> Seq<char> {
    "CONNECT "@ + host + ":"@ + decimal_text(port as nat) + " HTTP/1.1\r\nHost: "@ + host + ":"@
        + decimal_text(port as nat) + "\r\n"@
}

/// The `CONNECT` request that opens a tunnel to `host:port`, with the credentials when there
/// are some, ended by an empty line.
pub open spec fn connect_request(host: Seq<char>, port: u16, auth: Option<Seq<u8>>) -> Seq<u8> {
    encode_utf8(connect_head(host, port)) + match auth {
        Some(a) => encode_utf8("Proxy-Authorization: "@) + a + encode_utf8("\r\n"@),
        None => seq![],
    } + encode_utf8("\r\n"@)
}

/// The `CONNECT` request that opens a tunnel to `host:port`.
pub fn connect_request_bytes(host: &str, port: u16, auth: Option<&Vec<u8>>) -> (r: Vec<u8>)
    ensures
        r@ == connect_request(
            host@,
            port,
            match auth {
                Some(a) => Some(a@),
                None => None,
            },
        ),
{
    let mut head = String::from_str("CONNECT ");
    head.append(host);
    head.append(":");
    append_decimal(&mut head, port as u64);
    head.append(" HTTP/1.1\r\nHost: ");
    head.append(host);
    head.append(":");
    append_decimal(&mut head, port as u64);
    head.append("\r\n");
    assert(head@ =~= connect_head(host@, port));
    let mut out: Vec<u8> = Vec::new();
    append_bytes(&mut out, head.as_str().as_bytes());
    let ghost after_head = out@;
    if let Some(a) = auth {
        append_bytes(&mut out, "Proxy-Authorization: ".as_bytes());
        append_bytes(&mut out, a.as_slice());
        append_bytes(&mut out, "\r\n".as_bytes());
    }
    append_bytes(&mut out, "\r\n".as_bytes());
    assert(out@ =~= connect_request(
        host@,
        port,
        match auth {
            Some(a) => Some(a@),
            None => None,
        },
    ));
    out
}

/// How a proxy answered a `CONNECT` request so far.
#[derive(Debug, Clone, Copy, PartialEq, Eq, Structural)]
pub enum TunnelStatus {
    /// The tunnel is open.
    Established,
    /// The answer is good so far; read more.
    NeedMore,
    /// The headers do not fit in the buffer.
    HeadersTooLong,
    /// The proxy wants credentials.
    AuthRequired,
    /// The proxy refused.
    ProxyFailed,
}

/// `b` starts with `p`.
pub open spec fn bytes_start_with(b: Seq<u8>, p: Seq<u8>) -> bool {
    p.len() <= b.len() && b.take(p.len() as int) == p
}

/// `b` ends with `p`.
pub open spec fn bytes_end_with(b: Seq<u8>, p: Seq<u8>) -> bool {
    p.len() <= b.len() && b.skip(b.len() - p.len()) == p
}

/// How the bytes received so far answer a `CONNECT` request, where `full` tells that the
/// buffer is full: a `200` status of HTTP/1.1 or 1.0 opens the tunnel once the headers end,
/// a `407` of HTTP/1.1 asks for credentials, and anything else is a refusal.
pub open spec fn tunnel_status(received: Seq<u8>, full: bool) -> TunnelStatus {
    if bytes_start_with(received, encode_utf8("HTTP/1.1 200"@)) || bytes_start_with(
        received,
        encode_utf8("HTTP/1.0 200"@),
    ) {
        if bytes_end_with(received, encode_utf8("\r\n\r\n"@)) {
            TunnelStatus::Established
        } else if full {
            TunnelStatus::HeadersTooLong
        } else {
            TunnelStatus::NeedMore
        }
    } else if bytes_start_with(received, encode_utf8("HTTP/1.1 407"@)) {
        TunnelStatus::AuthRequired
    } else {
        TunnelStatus::ProxyFailed
    }
}

fn starts_with_bytes(b: &[u8], p: &[u8]) -> (r: bool)
    ensures
        r == bytes_start_with(b@, p@),
{
    if p.len() > b.len() {
        return false;
    }
    let mut i: usize = 0;
    while i < p.len()
        invariant
            p@.len() <= b@.len(),
            i <= p@.len(),
            forall|j: int| 0 <= j < i ==> b@[j] == p@[j],
        decreases p@.len() - i,
    {
        if b[i] != p[i] {
            assert(b@.take(p@.len() as int)[i as int] != p@[i as int]);
            return false;
        }
        i += 1;
    }
    assert(b@.take(p@.len() as int) =~= p@);
    true
}

fn ends_with_bytes(b: &[u8], p: &[u8]) -> (r: bool)
    ensures
        r == bytes_end_with(b@, p@),
{
    if p.len() > b.len() {
        return false;
    }
    let off = b.len() - p.len();
    let mut i: usize = 0;
    while i < p.len()
        invariant
            p@.len() <= b@.len(),
            off == b@.len() - p@.len(),
            off + p@.len() == b.len(),
            i <= p@.len(),
            forall|j: int| 0 <= j < i ==> b@[off + j] == p@[j],
        decreases p@.len() - i,
    {
        if b[off + i] != p[i] {
            assert(b@.skip(off as int)[i as int] != p@[i as int]);
            return false;
        }
        i += 1;
    }
    assert(b@.skip(off as int) =~= p@);
    true
}

/// How the bytes received so far answer a `CONNECT` request.
pub fn tunnel_status_of(received: &[u8], full: bool) -> (r: TunnelStatus)
    ensures
        r == tunnel_status(received@, full),
{
    if starts_with_bytes(received, "HTTP/1.1 200".as_bytes()) || starts_with_bytes(
        received,
        "HTTP/1.0 200".as_bytes(),
    ) {
        if ends_with_bytes(received, "\r\n\r\n".as_bytes()) {
            TunnelStatus::Established
        } else if full {
            TunnelStatus::HeadersTooLong
        } else {
            TunnelStatus::NeedMore
        }
    } else if starts_with_bytes(received, "HTTP/1.1 407".as_bytes()) {
        TunnelStatus::AuthRequired
    } else {
        TunnelStatus::ProxyFailed
    }
}

/// The proxy to use: the configured one, else `HTTP_PROXY`, else `HTTPS_PROXY`; an empty
/// choice is no proxy.
pub open spec fn proxy_choice(
    configured: Option<Seq<char>>,
    http_env: Option<Seq<char>>,
    https_env: Option<Seq<char>>,
) -> Result<Seq<char>, ProxyError> {
    let chosen = match configured {
        Some(c) => c,
        None => match http_env {
            Some(h) => h,
            None => match https_env {
                Some(s) => s,
                None => seq![],
            },
        },
    };
    if chosen.len() == 0 {
        Err(ProxyError::NoProxyProvided)
    } else {
        Ok(chosen)
    }
}

/// The proxy to use, given the configured one and the values of `HTTP_PROXY` and
/// `HTTPS_PROXY`.
pub fn select_proxy(
    configured: Option<String>,
    http_env: Option<String>,
    https_env: Option<String>,
) -> (r: Result<String, ProxyError>)
    ensures
        match r {
            Ok(s) => proxy_choice(opt_view(configured), opt_view(http_env), opt_view(https_env))
                == Ok::<Seq<char>, ProxyError>(s@),
            Err(e) => proxy_choice(opt_view(configured), opt_view(http_env), opt_view(https_env))
                == Err::<Seq<char>, ProxyError>(e),
        },
{
    let chosen = match configured {
        Some(c) => c,
        None => match http_env {
            Some(h) => h,
            None => match https_env {
                Some(s) => s,
                None => String::new(),
            },
        },
    };
    if chosen.as_str().is_empty() {
        Err(ProxyError::NoProxyProvided)
    } else {
        Ok(chosen)
    }
}

/// How a socket connects once the proxy was tried.
#[derive(Debug, Clone, Copy, PartialEq, Eq, Structural)]
pub enum ConnectRoute {
    /// Through the tunnel.
    Tunnel,
    /// Directly to the server.
    Direct,
    /// Not at all: the proxy's error is the answer.
    Fail,
}

/// Through the tunnel when it opened; otherwise directly when invalid proxies are ignored, and
/// not at all when they are not.
pub fn route_after_tunnel(tunnel_opened: bool, ignore_invalid_proxy: bool) -> (r: ConnectRoute)
    ensures
        r == if tunnel_opened {
            ConnectRoute::Tunnel
        } else if ignore_invalid_proxy {
            ConnectRoute::Direct
        } else {
            ConnectRoute::Fail
        },
{
    if tunnel_opened {
        ConnectRoute::Tunnel
    } else if ignore_invalid_proxy {
        ConnectRoute::Direct
    } else {
        ConnectRoute::Fail
    }
}

/// The `host:port` address of a server, with port 80 when the URI gives none.
pub fn tcp_connect_address(host: &str, port: Option<u16>) -> (r: String)
    ensures
        r@ == host@ + ":"@ + decimal_text(
            match port {
                Some(p) => p as nat,
                None => 80,
            },
        ),
{
    let mut out = String::from_str(host);
    out.append(":");
    let p: u16 = match port {
        Some(p) => p,
        None => 80,
    };
    append_decimal(&mut out, p as u64);
    out
}

/// An answer that starts with a `200` status line of HTTP/1.0 or HTTP/1.1 and ends with an empty
/// line opens the tunnel; one of those that has not ended yet asks for more while the buffer has
/// room; an HTTP/1.1 `407` asks for credentials.
pub proof fn law_tunnel_answers(received: Seq<u8>, full: bool)
    ensures
        (bytes_start_with(received, encode_utf8("HTTP/1.0 200"@)) || bytes_start_with(
            received,
            encode_utf8("HTTP/1.1 200"@),
        )) && bytes_end_with(received, encode_utf8("\r\n\r\n"@)) ==> tunnel_status(received, full)
            == TunnelStatus::Established,
        (bytes_start_with(received, encode_utf8("HTTP/1.0 200"@)) || bytes_start_with(
            received,
            encode_utf8("HTTP/1.1 200"@),
        )) && !bytes_end_with(received, encode_utf8("\r\n\r\n"@)) && !full ==> tunnel_status(
            received,
            full,
        ) == TunnelStatus::NeedMore,
        bytes_start_with(received, encode_utf8("HTTP/1.1 407"@)) ==> tunnel_status(received, full)
            == TunnelStatus::AuthRequired,
{
    reveal_strlit("HTTP/1.1 407");
    reveal_strlit("HTTP/1.1 200");
    reveal_strlit("HTTP/1.0 200");
    vstd::utf8::is_ascii_chars_encode_utf8("HTTP/1.1 407"@);
    vstd::utf8::is_ascii_chars_encode_utf8("HTTP/1.1 200"@);
    vstd::utf8::is_ascii_chars_encode_utf8("HTTP/1.0 200"@);
    if bytes_start_with(received, encode_utf8("HTTP/1.1 407"@)) {
        let p407 = encode_utf8("HTTP/1.1 407"@);
        let p200 = encode_utf8("HTTP/1.1 200"@);
        let p10 = encode_utf8("HTTP/1.0 200"@);
        assert(received[9] == p407[9]);
        assert(p407[9] != p200[9]);
        assert(received[7] == p407[7]);
        assert(p407[7] != p10[7]);
        assert(!bytes_start_with(received, p200)) by {
            if bytes_start_with(received, p200) {
                assert(received.take(12)[9] == p200[9]);
            }
        }
        assert(!bytes_start_with(received, p10)) by {
            if bytes_start_with(received, p10) {
                assert(received.take(12)[7] == p10[7]);
            }
        }
    }
}

} // verus!
