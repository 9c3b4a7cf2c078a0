//! Endpoints: the addresses of local services, as users write them and as the
//! control plane stores them.
use vstd::prelude::*;

use crate::numbers;
use crate::state;
use crate::state::{HostPortError, ProxyState, ProxyStateModel, TcpProxyData, TcpProxyDataModel};
use crate::text;

verus! {

/// The parts of a URL that the library reads.
#[derive(Debug, Clone, PartialEq, Eq)]
pub struct UrlParts {
    pub scheme: String,
    pub host: Option<String>,
    /// The port, where it is written and is not the one that the scheme implies.
    pub port: Option<u16>,
    /// The port, or the one that the scheme implies.
    pub port_or_known_default: Option<u16>,
}

/// The model of a [`UrlParts`].
#[verifier::ext_equal]
pub struct UrlPartsModel {
    pub scheme: Seq<char>,
    pub host: Option<Seq<char>>,
    pub port: Option<u16>,
    pub port_or_known_default: Option<u16>,
}

impl DeepView for UrlParts {
    type V = UrlPartsModel;

    open spec fn deep_view(&self) -> UrlPartsModel {
        UrlPartsModel {
            scheme: self.scheme.deep_view(),
            host: self.host.deep_view(),
            port: self.port.deep_view(),
            port_or_known_default: self.port_or_known_default.deep_view(),
        }
    }
}

/// The port that a scheme implies.
pub open spec fn default_port(scheme: Seq<char>) -> Option<u16> {
    if scheme == "http"@ || scheme == "ws"@ {
        Some(80)
    } else if scheme == "https"@ || scheme == "wss"@ {
        Some(443)
    } else if scheme == "ftp"@ {
        Some(21)
    } else {
        None
    }
}

/// The parts of the URL that a text is, by the URL standard; nothing where
/// the text is no absolute URL.
pub uninterp spec fn url_parts(input: Seq<char>) -> Option<UrlPartsModel>;

/// `url::Url::parse`, read through `scheme`, `host_str`, `port` and
/// `port_or_known_default`. What is claimed: the parts depend on the text
/// alone, and `port_or_known_default` is the port, or else the one that the
/// scheme implies.
#[verifier::external_body]
fn parse_url(input: &str) -> (r: Option<UrlParts>)
    ensures
        r.deep_view() == url_parts(input@),
        r matches Some(parts) ==> parts.port_or_known_default == (match parts.port {
            Some(port) => Some(port),
            None => default_port(parts.scheme@),
        }),
{
    match url::Url::parse(input) {
        Ok(url) => Some(
            UrlParts {
                scheme: url.scheme().to_string(),
                host: url.host_str().map(|host| host.to_string()),
                port: url.port(),
                port_or_known_default: url.port_or_known_default(),
            },
        ),
        Err(_) => None,
    }
}

/// The parts of the URL `input`.
pub fn read_url(input: &str) -> (r: Option<UrlParts>)
    ensures
        r.deep_view() == url_parts(input@),
        r matches Some(parts) ==> parts.port_or_known_default == (match parts.port {
            Some(port) => Some(port),
            None => default_port(parts.scheme@),
        }),
{
    parse_url(input)
}

// ---------------------------------------------------------------------------
// Normal form
// ---------------------------------------------------------------------------
/// The normal form of an endpoint: without white space around it, and with
/// the scheme `http` where none is written.
pub open spec fn normalized(endpoint: Seq<char>) -> Seq<char> {
    let e = text::trimmed(endpoint);
    if e.len() == 0 || text::has_part(e, "://"@) {
        e
    } else {
        "http://"@ + e
    }
}

/// The normal form of an endpoint.
pub fn normalize_endpoint(endpoint: &str) -> (r: String)
    ensures
        r@ == normalized(endpoint@),
{
    let e = text::trim(endpoint);
    if e.as_str().is_empty() || text::contains_text(&e, "://") {
        e
    } else {
        text::concat2("http://", &e)
    }
}

/// Normalizing an endpoint twice is the same as normalizing it once.
pub proof fn normalizing_is_idempotent(endpoint: Seq<char>)
    ensures
        normalized(normalized(endpoint)) == normalized(endpoint),
{
    let e = text::trimmed(endpoint);
    text::lemma_trimmed_idempotent(endpoint);
    if e.len() > 0 && !text::has_part(e, "://"@) {
        reveal_strlit("http://");
        reveal_strlit("://");
        let n = "http://"@ + e;
        assert(n[0] == 'h');
        assert(n.last() == e.last());
        assert(text::trim_start(n) == n);
        assert(text::trim_end(n) == n);
        assert(n.subrange(4, 7) =~= "://"@);
        assert(text::occurs_at(n, "://"@, 4));
    }
}

/// A normal form that is not empty names a scheme.
pub proof fn normalized_has_scheme(endpoint: Seq<char>)
    ensures
        normalized(endpoint).len() > 0 ==> text::has_part(normalized(endpoint), "://"@),
{
    let e = text::trimmed(endpoint);
    if e.len() > 0 && !text::has_part(e, "://"@) {
        reveal_strlit("http://");
        reveal_strlit("://");
        let n = "http://"@ + e;
        assert(n.subrange(4, 7) =~= "://"@);
        assert(text::occurs_at(n, "://"@, 4));
    }
}

// ---------------------------------------------------------------------------
// Targets
// ---------------------------------------------------------------------------
/// The address that a tunnel delivers to.
#[derive(Debug, Clone, PartialEq, Eq)]
pub struct ParsedTarget {
    pub address: String,
    pub port: u16,
}

/// The model of a [`ParsedTarget`].
#[verifier::ext_equal]
pub struct ParsedTargetModel {
    pub address: Seq<char>,
    pub port: u16,
}

impl DeepView for ParsedTarget {
    type V = ParsedTargetModel;

    open spec fn deep_view(&self) -> ParsedTargetModel {
        ParsedTargetModel {
            address: self.address.deep_view(),
            port: self.port,
        }
    }
}

/// The host and port of an origin.
#[derive(Debug, Clone, PartialEq, Eq)]
pub struct Authority {
    pub host: String,
    pub port: u16,
}

/// The model of a [`Authority`].
#[verifier::ext_equal]
pub struct AuthorityModel {
    pub host: Seq<char>,
    pub port: u16,
}

impl DeepView for Authority {
    type V = AuthorityModel;

    open spec fn deep_view(&self) -> AuthorityModel {
        AuthorityModel {
            host: self.host.deep_view(),
            port: self.port,
        }
    }
}

/// Why a text is no target.
#[derive(Debug, Clone, Copy, PartialEq, Eq, Structural)]
pub enum TargetError {
    MissingHost,
    MissingPort,
    InvalidIpv6,
    InvalidPort,
}

impl TargetError {
    pub open spec fn text(self) -> Seq<char> {
        match self {
            TargetError::MissingHost => "missing host"@,
            TargetError::MissingPort => "missing port"@,
            TargetError::InvalidIpv6 => "invalid IPv6 address"@,
            TargetError::InvalidPort => "invalid port"@,
        }
    }

    /// The message of this error.
    pub fn message(&self) -> (r: &'static str)
        ensures
            r@ == self.text(),
    {
        match self {
            TargetError::MissingHost => "missing host",
            TargetError::MissingPort => "missing port",
            TargetError::InvalidIpv6 => "invalid IPv6 address",
            TargetError::InvalidPort => "invalid port",
        }
    }
}

/// The target `address` at the port that `digits` spell.
pub open spec fn target_at(address: Seq<char>, digits: Seq<char>) -> Result<
    ParsedTargetModel,
    TargetError,
> {
    match numbers::read_number(digits, 0xffff) {
        Some(port) => Ok(ParsedTargetModel { address, port: port as u16 }),
        None => Err(TargetError::InvalidPort),
    }
}

/// The target that a text which is no URL names: `[address]:port`, or what
/// stands before and after the last colon.
pub open spec fn plain_target(t: Seq<char>) -> Result<ParsedTargetModel, TargetError> {
    if t.len() > 0 && t[0] == '[' {
        let end = text::first_where(t, text::exactly(']')) as int;
        if end >= t.len() {
            Err(TargetError::InvalidIpv6)
        } else if end + 1 < t.len() && t[end + 1] == ':' {
            target_at(t.subrange(1, end), t.skip(end + 2))
        } else {
            Err(TargetError::MissingPort)
        }
    } else {
        let i = text::last_index(t, ':');
        if i < 0 {
            Err(TargetError::MissingPort)
        } else {
            target_at(t.take(i), t.skip(i + 1))
        }
    }
}

/// The target that the text `t` names, where `url` is what it means as a URL.
pub open spec fn target_of(url: Option<UrlPartsModel>, t: Seq<char>) -> Result<
    ParsedTargetModel,
    TargetError,
> {
    match url {
        Some(parts) => match (parts.host, parts.port) {
            (None, _) => Err(TargetError::MissingHost),
            (Some(_), None) => Err(TargetError::MissingPort),
            (Some(host), Some(port)) => Ok(ParsedTargetModel { address: host, port }),
        },
        None => plain_target(t),
    }
}

/// The model of a result that holds a target.
pub open spec fn target_result(r: Result<ParsedTarget, TargetError>) -> Result<
    ParsedTargetModel,
    TargetError,
> {
    match r {
        Ok(target) => Ok(target.deep_view()),
        Err(e) => Err(e),
    }
}

fn read_target_at(address: String, digits: &str) -> (r: Result<ParsedTarget, TargetError>)
    ensures
        target_result(r) == target_at(address@, digits@),
{
    match numbers::parse_u16(digits) {
        Some(port) => Ok(ParsedTarget { address, port }),
        None => Err(TargetError::InvalidPort),
    }
}

/// Reads a target that is no URL.
fn parse_plain_target(t: &str) -> (r: Result<ParsedTarget, TargetError>)
    ensures
        target_result(r) == plain_target(t@),
{
    let v = text::chars_of(t);
    proof {
        text::lemma_first_where(t@, text::exactly(']'));
        text::lemma_last_index(t@, ':');
    }
    if v.len() > 0 && v[0] == '[' {
        let end: usize = text::find_char(&v, ']');
        if end >= v.len() {
            return Err(TargetError::InvalidIpv6);
        }
        assert(end > 0) by {
            assert(t@[end as int] == ']');
        }
        if end + 1 < v.len() && v[end + 1] == ':' {
            let host = text::string_between(&v, 1, end);
            let digits = text::string_between(&v, end + 2, v.len());
            assert(digits@ =~= t@.skip(end + 2));
            read_target_at(host, &digits)
        } else {
            Err(TargetError::MissingPort)
        }
    } else {
        match text::rfind_char(&v, ':') {
            None => Err(TargetError::MissingPort),
            Some(i) => {
                let host = text::string_between(&v, 0, i);
                let digits = text::string_between(&v, i + 1, v.len());
                assert(host@ =~= t@.take(i as int));
                assert(digits@ =~= t@.skip(i + 1));
                read_target_at(host, &digits)
            },
        }
    }
}

/// The target that the text `t` names, where `url` is what it means as a URL.
pub fn target_from_url(url: Option<UrlParts>, t: &str) -> (r: Result<ParsedTarget, TargetError>)
    ensures
        target_result(r) == target_of(url.deep_view(), t@),
{
    match url {
        Some(parts) => match (parts.host, parts.port) {
            (None, _) => Err(TargetError::MissingHost),
            (Some(_), None) => Err(TargetError::MissingPort),
            (Some(host), Some(port)) => Ok(ParsedTarget { address: host, port }),
        },
        None => parse_plain_target(t),
    }
}

/// The target that a text names: the host and port of a URL, or else
/// `[address]:port` or `host:port`.
pub open spec fn parsed_target(target: Seq<char>) -> Result<ParsedTargetModel, TargetError> {
    target_of(url_parts(text::trimmed(target)), text::trimmed(target))
}

/// Reads a target.
pub fn parse_target(target: &str) -> (r: Result<ParsedTarget, TargetError>)
    ensures
        target_result(r) == parsed_target(target@),
{
    let t = text::trim(target);
    let url = parse_url(&t);
    target_from_url(url, &t)
}

/// A bracketed address keeps its colons: only the port after the bracket is
/// split off.
pub proof fn bracketed_target(address: Seq<char>, port: u16)
    requires
        !address.contains(']'),
    ensures
        plain_target("["@ + address + "]:"@ + numbers::decimal(port as nat)) == Ok::<
            ParsedTargetModel,
            TargetError,
        >(ParsedTargetModel { address, port }),
{
    reveal_strlit("[");
    reveal_strlit("]:");
    let digits = numbers::decimal(port as nat);
    let t = "["@ + address + "]:"@ + digits;
    let end = address.len() as int + 1;
    assert forall|j: int| 0 <= j < end implies !text::exactly(']')(#[trigger] t[j]) by {
        if j > 0 {
            assert(t[j] == address[j - 1]);
        }
    }
    text::lemma_first_where_is(t, text::exactly(']'), end);
    numbers::lemma_decimal_len(port as nat);
    numbers::lemma_decimal_round_trip(port as nat);
    assert(text::is_digit(digits[0]));
    assert(t.skip(end + 2) =~= digits);
    assert(t.subrange(1, end) =~= address);
}

// ---------------------------------------------------------------------------
// Origins
// ---------------------------------------------------------------------------
/// `host:port` of an endpoint that is a URL with both; any other endpoint as
/// it is.
pub open spec fn stripped(url: Option<UrlPartsModel>, endpoint: Seq<char>) -> Seq<char> {
    match url {
        Some(parts) => match (parts.host, parts.port) {
            (Some(host), Some(port)) => host + ":"@ + numbers::decimal(port as nat),
            _ => endpoint,
        },
        None => endpoint,
    }
}

/// `host:port` of an endpoint, where `url` is what it means as a URL.
pub fn strip_scheme_from(url: Option<UrlParts>, endpoint: &str) -> (r: String)
    ensures
        r@ == stripped(url.deep_view(), endpoint@),
{
    match url {
        Some(parts) => match (parts.host, parts.port) {
            (Some(host), Some(port)) => text::concat3(
                &host,
                ":",
                &numbers::decimal_text(port as u64),
            ),
            _ => endpoint.to_owned(),
        },
        None => endpoint.to_owned(),
    }
}

/// `host:port` of an endpoint.
pub fn strip_scheme(endpoint: &str) -> (r: String)
    ensures
        r@ == stripped(url_parts(endpoint@), endpoint@),
{
    strip_scheme_from(parse_url(endpoint), endpoint)
}

/// The host and port of an endpoint, where they can be told.
pub open spec fn origin_of(endpoint: Seq<char>) -> Result<(Seq<char>, nat), HostPortError> {
    state::host_port(stripped(url_parts(endpoint), endpoint))
}

/// The host and port that the endpoint of a tunnel names.
pub fn origin_authority(endpoint: &str) -> (r: Option<Authority>)
    ensures
        match r {
            Some(authority) => origin_of(endpoint@) == Ok::<(Seq<char>, nat), HostPortError>(
                (authority.deep_view().host, authority.port as nat),
            ),
            None => origin_of(endpoint@) is Err,
        },
{
    let address = strip_scheme(endpoint);
    match state::parse_host_port(&address) {
        Ok((host, port)) => Some(Authority { host, port }),
        Err(_) => None,
    }
}

/// What the device remembers of the tunnel `tunnel_id` with this endpoint.
pub open spec fn proxy_state_of(tunnel_id: Seq<char>, endpoint: Seq<char>, enabled: bool) -> Result<
    ProxyStateModel,
    HostPortError,
> {
    match origin_of(endpoint) {
        Ok((host, port)) => Ok(
            ProxyStateModel {
                info: TcpProxyDataModel { resource_id: tunnel_id, host, port: port as u16 },
                enabled,
            },
        ),
        Err(e) => Err(e),
    }
}

/// What the device remembers of the tunnel `tunnel_id` with this endpoint.
pub fn proxy_state_from_summary(tunnel_id: &str, endpoint: &str, enabled: bool) -> (r: Result<
    ProxyState,
    HostPortError,
>)
    ensures
        match r {
            Ok(proxy) => proxy_state_of(tunnel_id@, endpoint@, enabled) == Ok::<
                ProxyStateModel,
                HostPortError,
            >(proxy.deep_view()),
            Err(e) => proxy_state_of(tunnel_id@, endpoint@, enabled) == Err::<
                ProxyStateModel,
                HostPortError,
            >(e),
        },
{
    let address = strip_scheme(endpoint);
    match TcpProxyData::from_host_port_str(tunnel_id, &address) {
        Ok(info) => Ok(ProxyState { info, enabled }),
        Err(e) => Err(e),
    }
}

} // verus!
