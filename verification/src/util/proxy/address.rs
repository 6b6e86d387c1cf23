use vstd::prelude::*;

verus! {

#[verifier::external_type_specification]
#[verifier::external_body]
pub struct ExUrl(url::Url);

/// `url::Url::parse` accepts `input` as an absolute URL.
pub uninterp spec fn url_accepts(input: Seq<char>) -> bool;

/// `Url::scheme` of the URL that `url::Url::parse` reads from `input`.
pub uninterp spec fn url_scheme(input: Seq<char>) -> Seq<char>;

/// `Url::username` of the URL that `url::Url::parse` reads from `input`.
pub uninterp spec fn url_username(input: Seq<char>) -> Seq<char>;

/// `Url::password` of the URL that `url::Url::parse` reads from `input`.
pub uninterp spec fn url_password(input: Seq<char>) -> Option<Seq<char>>;

/// The part from the host to the end of the port of the URL that `url::Url::parse` reads
/// from `input`, as indexing it with `Position::BeforeHost..Position::AfterPort` gives it.
pub uninterp spec fn url_host_and_port(input: Seq<char>) -> Seq<char>;

/// `Url::host_str` of the URL that `url::Url::parse` reads from `input`.
pub uninterp spec fn url_host(input: Seq<char>) -> Option<Seq<char>>;

/// `Url::port` of the URL that `url::Url::parse` reads from `input`.
pub uninterp spec fn url_port(input: Seq<char>) -> Option<u16>;

/// `Url::as_str`, the serialization of the URL that `url::Url::parse` reads from `input`.
pub uninterp spec fn url_serialization(input: Seq<char>) -> Seq<char>;

/// A URL that `url::Url::parse` read, with the text it read it from.
pub struct ParsedUrl {
    url: url::Url,
    source: String,
}

impl ParsedUrl {
    /// The text the URL was read from.
    pub closed spec fn source(&self) -> Seq<char> {
        self.source@
    }

    /// Calls `url::Url::parse`: `None` where it refuses the text. Which texts it accepts is
    /// not stated beyond the name `url_accepts`.
    #[verifier::external_body]
    pub fn parse(input: &str) -> (r: Option<ParsedUrl>)
        ensures
            r is Some <==> url_accepts(input@),
            r matches Some(u) ==> u.source() == input@,
    {
        match url::Url::parse(input) {
            Ok(url) => Some(ParsedUrl { url, source: input.to_owned() }),
            Err(_) => None,
        }
    }

    /// Calls `Url::as_str`; the result is the name `url_serialization` of the source text.
    #[verifier::external_body]
    pub fn as_string(&self) -> (r: String)
        ensures
            r@ == url_serialization(self.source()),
    {
        self.url.as_str().to_owned()
    }

    /// Calls `Url::scheme`; the result is the name `url_scheme` of the source text.
    #[verifier::external_body]
    pub fn scheme(&self) -> (r: String)
        ensures
            r@ == url_scheme(self.source()),
    {
        self.url.scheme().to_owned()
    }

    /// Calls `Url::username`; the result is the name `url_username` of the source text.
    #[verifier::external_body]
    pub fn username(&self) -> (r: String)
        ensures
            r@ == url_username(self.source()),
    {
        self.url.username().to_owned()
    }

    /// Calls `Url::password`; the result is the name `url_password` of the source text.
    #[verifier::external_body]
    pub fn password(&self) -> (r: Option<String>)
        ensures
            crate::text::opt_view(r) == url_password(self.source()),
    {
        match self.url.password() {
            Some(p) => Some(p.to_owned()),
            None => None,
        }
    }

    /// Indexes the URL with `Position::BeforeHost..Position::AfterPort`; the result is the
    /// name `url_host_and_port` of the source text.
    #[verifier::external_body]
    pub fn host_and_port(&self) -> (r: String)
        ensures
            r@ == url_host_and_port(self.source()),
    {
        self.url[url::Position::BeforeHost..url::Position::AfterPort].to_owned()
    }

    /// Calls `Url::host_str`; the result is the name `url_host` of the source text.
    #[verifier::external_body]
    pub fn host(&self) -> (r: Option<String>)
        ensures
            crate::text::opt_view(r) == url_host(self.source()),
    {
        match self.url.host_str() {
            Some(h) => Some(h.to_owned()),
            None => None,
        }
    }

    /// Calls `Url::port`; the result is the name `url_port` of the source text.
    #[verifier::external_body]
    pub fn port(&self) -> (r: Option<u16>)
        ensures
            r == url_port(self.source()),
    {
        self.url.port()
    }
}

} // verus!
