use base64::Engine as Base64Engine;
use vstd::prelude::*;

use crate::dns::{eq_ignore_ascii_case, chars_of, chars_eq_ignore_ascii_case, EchOptions};
use crate::error::Error as CronetError;
use crate::model::{header_view, Header};
use crate::naive::{NaiveConnectOptions, DEFAULT_READ_BUFFER_SIZE};
use crate::json::{json_bool, json_object};
use crate::params::{
    async_dns_value, dns_server_override_value, http2_entries, merge_text, quic_value, single_entry,
    socket_pool_entries, EngineParams,
};
use crate::text::{concat_str, decimal, string_views, u64_to_decimal};

verus! {

/// Failure while configuring or starting a [`NaiveClient`].
#[derive(Debug)]
pub enum NaiveClientStartError {
    /// Cronet rejected engine startup.
    Cronet(CronetError),
    /// Existing experimental-options JSON was malformed; the JSON error's message.
    ExperimentalOptions(String),
    /// The proxy URL could not be parsed; the URL error's message.
    InvalidProxyUrl(String),
    /// The proxy URL has no DNS host and no explicit `server_name`.
    MissingServerName,
    /// Multiple independent pools are unsupported by upstream in QUIC mode.
    InsecureConcurrencyWithQuic,
}

/// Configuration shared by all tunnels opened by a [`NaiveClient`].
#[derive(Clone, Debug)]
pub struct NaiveClientOptions {
    /// HTTPS URL of the NaiveProxy server.
    pub proxy_url: String,
    /// Username used to create a Basic proxy authorization value.
    pub username: Option<String>,
    /// Password used with `username`.
    pub password: Option<String>,
    /// Precomputed `Proxy-Authorization` value. This takes precedence over
    /// `username` and `password`.
    pub proxy_authorization: Option<String>,
    /// Number of independent Chromium connection pools.
    pub insecure_concurrency: usize,
    /// Headers included with every CONNECT stream.
    pub extra_headers: Vec<Header>,
    /// Enables the SagerNet Cronet HTTP/3 path.
    pub quic: bool,
    /// Enables HTTPS/SVCB DNS processing required for ECH.
    pub ech_enabled: bool,
    /// TLS server name used for HTTPS/SVCB matching. By default this is
    /// derived from `proxy_url`.
    pub server_name: Option<String>,
    /// Network address resolved for `server_name`. This may be an IP literal
    /// or a different DNS name.
    pub server_address: Option<String>,
    /// Fixed binary ECHConfigList injected into matching HTTPS answers.
    pub ech_config_list: Vec<u8>,
    /// Optional alternate name queried for HTTPS records before answers are
    /// rewritten to `server_name`.
    pub ech_query_server_name: Option<String>,
    /// QUIC connection option, for example `TBBR`, `B2ON`, `QBIC` or `RENO`.
    pub quic_congestion_control: String,
    /// Initial per-stream receive window. Zero selects the upstream default.
    pub receive_window: u64,
    /// Initial QUIC session receive window. Zero selects the upstream default.
    pub quic_session_receive_window: u64,
    /// Buffer size used by each asynchronous native stream read.
    pub read_buffer_size: usize,
    /// Native bidirectional-stream priority.
    pub priority: i32,
}

impl NaiveClientOptions {
    /// Creates options for a NaiveProxy server URL.
    pub fn new(proxy_url: String) -> (r: NaiveClientOptions)
        ensures
            r.proxy_url@ == proxy_url@,
            r.username is None,
            r.password is None,
            r.proxy_authorization is None,
            r.insecure_concurrency == 1,
            r.extra_headers@.len() == 0,
            !r.quic,
            !r.ech_enabled,
            r.server_name is None,
            r.server_address is None,
            r.ech_config_list@.len() == 0,
            r.ech_query_server_name is None,
            r.quic_congestion_control@.len() == 0,
            r.receive_window == 0,
            r.quic_session_receive_window == 0,
            r.read_buffer_size == DEFAULT_READ_BUFFER_SIZE,
            r.priority == 0,
    {
        NaiveClientOptions {
            proxy_url,
            username: None,
            password: None,
            proxy_authorization: None,
            insecure_concurrency: 1,
            extra_headers: Vec::new(),
            quic: false,
            ech_enabled: false,
            server_name: None,
            server_address: None,
            ech_config_list: Vec::new(),
            ech_query_server_name: None,
            quic_congestion_control: String::new(),
            receive_window: 0,
            quic_session_receive_window: 0,
            read_buffer_size: DEFAULT_READ_BUFFER_SIZE,
            priority: 0,
        }
    }
}

/// `value`, or `fallback` when `value` is zero.
pub open spec fn nonzero_or_spec(value: u64, fallback: u64) -> u64 {
    if value == 0 {
        fallback
    } else {
        value
    }
}

/// `value`, or `fallback` when `value` is zero.
pub fn nonzero_or(value: u64, fallback: u64) -> (r: u64)
    ensures
        r == nonzero_or_spec(value, fallback),
{
    if value == 0 {
        fallback
    } else {
        value
    }
}

/// Default QUIC per-stream receive window.
pub const QUIC_STREAM_WINDOW: u64 = 6291456;

/// Default QUIC session receive window.
pub const QUIC_SESSION_WINDOW: u64 = 15728640;

/// Default HTTP/2 per-stream receive window.
pub const HTTP2_STREAM_WINDOW: u64 = 67108864;

/// The HTTP/2 session receive window for a per-stream window: twice the
/// stream window, as in the upstream defaults, saturating at `u64::MAX`.
pub open spec fn http2_session_window_spec(stream_window: u64) -> u64 {
    if stream_window <= u64::MAX / 2 {
        (stream_window * 2) as u64
    } else {
        u64::MAX
    }
}

/// Twice a per-stream window, saturating at `u64::MAX`.
pub fn http2_session_window(stream_window: u64) -> (r: u64)
    ensures
        r == http2_session_window_spec(stream_window),
{
    if stream_window <= u64::MAX / 2 {
        stream_window * 2
    } else {
        u64::MAX
    }
}

/// The DNS server address that intercepted resolution uses.
pub open spec fn loopback_dns() -> Seq<char> {
    "127.0.0.1:53"@
}

/// Merges one more option into experimental-options text, unless an
/// earlier merge already failed.
pub open spec fn then_merge(text: Option<Seq<char>>, key: Seq<char>, value: Option<serde_json::Value>) -> Option<Seq<char>> {
    match text {
        Some(t) => merge_text(t, key, value),
        None => None,
    }
}

/// The experimental options of a Naive client's engine: raised socket-pool
/// limits; with a DNS resolver, asynchronous DNS, the loopback nameserver
/// and HTTPS/SVCB queries as ECH requires; then QUIC windows and
/// congestion control, or HTTP/2 windows in which `receive_window` is each
/// stream's initial window and the session window twice that. `None` when
/// a merge fails.
pub open spec fn naive_options_text(options: NaiveClientOptions, has_dns_resolver: bool) -> Option<Seq<char>> {
    let pools = merge_text(
        Seq::empty(),
        "SocketPoolOptions"@,
        Some(json_object(socket_pool_entries(2048, 2048, 2040))),
    );
    let dns = if has_dns_resolver {
        then_merge(
            then_merge(
                then_merge(pools, "AsyncDNS"@, async_dns_value(true)),
                "DnsServerOverride"@,
                dns_server_override_value(seq![loopback_dns()]),
            ),
            "UseDnsHttpsSvcb"@,
            Some(single_entry("enable"@, json_bool(options.ech_enabled))),
        )
    } else {
        pools
    };
    if options.quic {
        then_merge(
            dns,
            "QUIC"@,
            quic_value(
                options.quic_congestion_control@,
                nonzero_or_spec(options.receive_window, QUIC_STREAM_WINDOW),
                nonzero_or_spec(options.quic_session_receive_window, QUIC_SESSION_WINDOW),
            ),
        )
    } else {
        let window = nonzero_or_spec(options.receive_window, HTTP2_STREAM_WINDOW);
        then_merge(dns, "HTTP2Options"@, Some(json_object(http2_entries(http2_session_window_spec(window), window))))
    }
}

/// The engine parameters of a Naive client, given the text of its
/// experimental options.
pub open spec fn naive_params(options: NaiveClientOptions, p: EngineParams, text: Seq<char>) -> bool {
    &&& p.user_agent is None
    &&& p.accept_language is None
    &&& p.storage_path is None
    &&& p.enable_quic == Some(options.quic)
    &&& p.enable_http2 == if options.quic { None } else { Some(true) }
    &&& p.enable_brotli == Some(true)
    &&& p.cache is None
    &&& p.experimental_options matches Some(t) && t@ == text
    &&& p.enable_check_result == Some(true)
    &&& p.bypass_pinning_for_local_trust_anchors is None
    &&& p.quic_hints@.len() == 0
    &&& p.public_key_pins@.len() == 0
}

/// Maps a failure to merge an experimental option.
fn options_error(r: Result<(), String>) -> (e: Result<(), NaiveClientStartError>)
    ensures
        r is Ok <==> e is Ok,
        e is Err ==> e matches Err(NaiveClientStartError::ExperimentalOptions(_)),
{
    match r {
        Ok(()) => Ok(()),
        Err(m) => Err(NaiveClientStartError::ExperimentalOptions(m)),
    }
}

impl NaiveClient {
    /// The engine parameters with the H2/H3 window and pool defaults used by
    /// `cronet-go`: result checking and Brotli on, raised socket-pool
    /// limits, intercepted DNS settings when a DNS resolver is installed,
    /// and QUIC or HTTP/2 windows.
    pub fn engine_params(options: &NaiveClientOptions, has_dns_resolver: bool) -> (r: Result<EngineParams, NaiveClientStartError>)
        ensures
            match naive_options_text(*options, has_dns_resolver) {
                Some(text) => r matches Ok(p) && naive_params(*options, p, text),
                None => r matches Err(NaiveClientStartError::ExperimentalOptions(_)),
            },
    {
        let mut params = EngineParams::new();
        params.enable_check_result(true);
        params.enable_brotli(true);
        options_error(params.socket_pool_limits(2048, 2048, 2040))?;
        let ghost text = crate::params::options_text(params);
        if has_dns_resolver {
            options_error(params.async_dns(true))?;
            let mut servers: Vec<String> = Vec::new();
            servers.push(String::from_str("127.0.0.1:53"));
            proof {
                assert(crate::text::string_views(servers@) =~= seq![loopback_dns()]);
            }
            options_error(params.dns_server_override(servers))?;
            options_error(params.use_dns_https_svcb(options.ech_enabled))?;
        }
        if options.quic {
            params.enable_quic(true);
            let stream_window = nonzero_or(options.receive_window, QUIC_STREAM_WINDOW);
            let session_window = nonzero_or(options.quic_session_receive_window, QUIC_SESSION_WINDOW);
            options_error(params.quic_options(options.quic_congestion_control.as_str(), stream_window, session_window))?;
        } else {
            params.enable_quic(false);
            params.enable_http2(true);
            let stream_window = nonzero_or(options.receive_window, HTTP2_STREAM_WINDOW);
            options_error(params.http2_windows(http2_session_window(stream_window), stream_window))?;
        }
        Ok(params)
    }
}

/// The host of a URL as `url::Url::parse` and `host_str` read it: `None`
/// when the URL does not parse, `Some(None)` when it has no host.
pub uninterp spec fn url_host(text: Seq<char>) -> Option<Option<Seq<char>>>;

/// Parses a URL with `url::Url::parse` and reads `host_str`; a parse
/// failure is reported by the error's message.
#[verifier::external_body]
fn proxy_host(text: &str) -> (r: Result<Option<String>, String>)
    ensures
        r is Ok <==> url_host(text@) is Some,
        r matches Ok(h) ==> url_host(text@) == Some(match h {
            Some(s) => Some(s@),
            None => None::<Seq<char>>,
        }),
{
    url::Url::parse(text).map(|u| u.host_str().map(|h| h.to_owned())).map_err(|e| e.to_string())
}

/// The standard base64 encoding, with padding, of the UTF-8 bytes of a text.
pub uninterp spec fn base64_of_text(text: Seq<char>) -> Seq<char>;

/// Encodes the UTF-8 bytes of a text with base64's `STANDARD` engine.
#[verifier::external_body]
fn base64_standard(text: &str) -> (r: String)
    ensures
        r@ == base64_of_text(text@),
{
    base64::engine::general_purpose::STANDARD.encode(text)
}

/// The `Proxy-Authorization` value of a client: the precomputed value, or
/// Basic credentials built from the username and password (empty when
/// missing).
pub open spec fn authorization_for(options: NaiveClientOptions) -> Option<Seq<char>> {
    match options.proxy_authorization {
        Some(a) => Some(a@),
        None => match options.username {
            Some(u) => Some("Basic "@ + base64_of_text(u@ + ":"@ + match options.password {
                Some(p) => p@,
                None => Seq::empty(),
            })),
            None => None,
        },
    }
}

/// Everything that starting a client decides before the engine starts.
#[derive(Clone, Debug)]
pub struct StartPlan {
    /// The engine parameters to start the engine with.
    pub params: EngineParams,
    /// The options, with at least one connection pool.
    pub options: NaiveClientOptions,
    /// The `Proxy-Authorization` value sent on every tunnel.
    pub authorization: Option<String>,
    /// TLS server name and the address that DNS answers for it, when the
    /// resolver must redirect.
    pub server_redirect: Option<(String, String)>,
    /// ECH configuration for the resolver, when enabled.
    pub ech: Option<EchOptions>,
}

/// The server name and address: explicit values, or the proxy URL's host.
pub open spec fn server_name_for(options: NaiveClientOptions, host: Seq<char>) -> Seq<char> {
    match options.server_name {
        Some(s) => s@,
        None => host,
    }
}

/// The server address: an explicit value, or the proxy URL's host.
pub open spec fn server_address_for(options: NaiveClientOptions, host: Seq<char>) -> Seq<char> {
    match options.server_address {
        Some(s) => s@,
        None => host,
    }
}

/// A started client's engine, options and tunnel counter.
pub struct NaiveClient {
    /// The options the client was started with.
    pub options: NaiveClientOptions,
    /// The `Proxy-Authorization` value sent on every tunnel.
    pub authorization: Option<String>,
    /// Tunnels dialed so far.
    pub counter: u64,
}

fn copy_string(s: &String) -> (r: String)
    ensures
        r@ == s@,
{
    s.clone()
}

/// The host that server name and address default to: the proxy URL's
/// host, or the explicit server name when the URL has none.
pub open spec fn default_host(url: Option<Seq<char>>, server_name: Option<String>) -> Option<Seq<char>> {
    match url {
        Some(h) => Some(h),
        None => match server_name {
            Some(s) => Some(s@),
            None => None,
        },
    }
}

/// What starting a client with `options` decides, the engine parameters
/// aside: QUIC with several pools is refused; the proxy URL must parse and
/// have a host unless the server name is explicit; the options keep at least one pool; the resolver redirects
/// the server name when it differs (ignoring ASCII case) from the server
/// address and a DNS resolver is installed; ECH is configured when enabled
/// with a DNS resolver; the authorization value is the precomputed one or
/// Basic credentials.
pub open spec fn plan_outcome(options: NaiveClientOptions, has_dns_resolver: bool, r: Result<StartPlan, NaiveClientStartError>) -> bool {
    if options.quic && options.insecure_concurrency > 1 {
        r matches Err(NaiveClientStartError::InsecureConcurrencyWithQuic)
    } else {
        match url_host(options.proxy_url@) {
            None => r matches Err(NaiveClientStartError::InvalidProxyUrl(_)),
            Some(url) => match default_host(url, options.server_name) {
            None => r matches Err(NaiveClientStartError::MissingServerName),
            Some(host) => r matches Ok(plan) && {
                let name = server_name_for(options, host);
                let address = server_address_for(options, host);
                &&& plan.options == (NaiveClientOptions {
                    insecure_concurrency: if options.insecure_concurrency == 0 {
                        1
                    } else {
                        options.insecure_concurrency
                    },
                    ..options
                })
                &&& match plan.authorization {
                    Some(a) => authorization_for(options) == Some(a@),
                    None => authorization_for(options) is None,
                }
                &&& (has_dns_resolver && !eq_ignore_ascii_case(name, address)) <==> plan.server_redirect is Some
                &&& plan.server_redirect matches Some(p) ==> p.0@ == name && p.1@ == address
                &&& (options.ech_enabled && has_dns_resolver) <==> plan.ech is Some
                &&& plan.ech matches Some(e) ==> e.server_name@ == name && e.query_server_name@ == match options.ech_query_server_name {
                    Some(q) => q@,
                    None => name,
                } && e.config_list@ == options.ech_config_list@ && e.quic == options.quic
            },
            },
        }
    }
}

impl NaiveClient {
    /// Plans starting a client with caller-supplied engine parameters; see
    /// [`plan_outcome`].
    pub fn start_with_params(options: NaiveClientOptions, has_dns_resolver: bool, params: EngineParams) -> (r: Result<StartPlan, NaiveClientStartError>)
        ensures
            plan_outcome(options, has_dns_resolver, r),
            r matches Ok(plan) ==> plan.params == params,
    {
        let mut options = options;
        if options.insecure_concurrency == 0 {
            options.insecure_concurrency = 1;
        }
        if options.quic && options.insecure_concurrency > 1 {
            return Err(NaiveClientStartError::InsecureConcurrencyWithQuic);
        }
        let host = match proxy_host(options.proxy_url.as_str()) {
            Err(m) => return Err(NaiveClientStartError::InvalidProxyUrl(m)),
            Ok(None) => match &options.server_name {
                Some(s) => copy_string(s),
                None => return Err(NaiveClientStartError::MissingServerName),
            },
            Ok(Some(h)) => h,
        };
        let server_name = match &options.server_name {
            Some(s) => copy_string(s),
            None => copy_string(&host),
        };
        let server_address = match &options.server_address {
            Some(s) => copy_string(s),
            None => copy_string(&host),
        };
        let same = chars_eq_ignore_ascii_case(&chars_of(server_name.as_str()), &chars_of(server_address.as_str()));
        let server_redirect = if has_dns_resolver && !same {
            Some((copy_string(&server_name), copy_string(&server_address)))
        } else {
            None
        };
        let ech = if options.ech_enabled && has_dns_resolver {
            let query_server_name = match &options.ech_query_server_name {
                Some(q) => copy_string(q),
                None => copy_string(&server_name),
            };
            Some(EchOptions {
                server_name: copy_string(&server_name),
                query_server_name,
                config_list: options.ech_config_list.clone(),
                quic: options.quic,
            })
        } else {
            None
        };
        let authorization = match &options.proxy_authorization {
            Some(a) => Some(copy_string(a)),
            None => match &options.username {
                Some(u) => {
                    let password = match &options.password {
                        Some(p) => copy_string(p),
                        None => String::new(),
                    };
                    let credentials = concat_str(concat_str(u.as_str(), ":").as_str(), password.as_str());
                    let encoded = base64_standard(credentials.as_str());
                    Some(concat_str("Basic ", encoded.as_str()))
                },
                None => None,
            },
        };
        Ok(StartPlan { params, options, authorization, server_redirect, ech })
    }
}

impl NaiveClient {
    /// Plans starting a client with the same H2/H3 window and pool
    /// defaults as `cronet-go`: the engine parameters of
    /// [`NaiveClient::engine_params`], then what [`plan_outcome`] decides.
    pub fn start(options: NaiveClientOptions, has_dns_resolver: bool) -> (r: Result<StartPlan, NaiveClientStartError>)
        ensures
            match naive_options_text(options, has_dns_resolver) {
                Some(text) => plan_outcome(options, has_dns_resolver, r) && (r matches Ok(plan) ==> naive_params(
                    options,
                    plan.params,
                    text,
                )),
                None => r matches Err(NaiveClientStartError::ExperimentalOptions(_)),
            },
    {
        let params = Self::engine_params(&options, has_dns_resolver)?;
        Self::start_with_params(options, has_dns_resolver, params)
    }
}

/// The connection pool that the `counter`-th tunnel of a client with
/// `pools` pools uses: `https://pool-<index>:443` when there are several.
pub open spec fn pool_key(counter: u64, pools: usize) -> Option<Seq<char>> {
    if pools > 1 {
        Some("https://pool-"@ + decimal((counter % (pools as u64)) as nat) + ":443"@)
    } else {
        None
    }
}

impl NaiveClient {
    /// A client started with `plan`, before any tunnel.
    pub fn new(plan: StartPlan) -> (r: NaiveClient)
        requires
            plan.options.insecure_concurrency >= 1,
        ensures
            r.options == plan.options,
            r.authorization == plan.authorization,
            r.counter == 0,
            r.wf(),
    {
        NaiveClient { options: plan.options, authorization: plan.authorization, counter: 0 }
    }

    /// Invariant: at least one connection pool.
    pub open spec fn wf(&self) -> bool {
        self.options.insecure_concurrency >= 1
    }

    /// Options for the next CONNECT stream to `destination`: the client's
    /// proxy, authorization, extra headers, QUIC flag, priority and buffer
    /// size, and with several pools the pool chosen round-robin. Counts the
    /// tunnel.
    pub fn dial_early(&mut self, destination: String) -> (r: NaiveConnectOptions)
        requires
            old(self).wf(),
        ensures
            final(self).wf(),
            final(self).counter == if old(self).options.insecure_concurrency <= 1 {
                old(self).counter
            } else if old(self).counter == u64::MAX {
                0
            } else {
                (old(self).counter + 1) as u64
            },
            final(self).options == old(self).options,
            final(self).authorization == old(self).authorization,
            r.proxy_url@ == old(self).options.proxy_url@,
            r.destination@ == destination@,
            match r.proxy_authorization {
                Some(a) => old(self).authorization matches Some(b) && a@ == b@,
                None => old(self).authorization is None,
            },
            r.extra_headers@.map_values(|h: Header| header_view(h)) == old(self).options.extra_headers@.map_values(|h: Header| header_view(h)),
            r.force_quic == old(self).options.quic,
            match r.network_isolation_key {
                Some(k) => pool_key(old(self).counter, old(self).options.insecure_concurrency) == Some(k@),
                None => pool_key(old(self).counter, old(self).options.insecure_concurrency) is None,
            },
            r.priority == old(self).options.priority,
            r.read_buffer_size == old(self).options.read_buffer_size,
    {
        let pools = self.options.insecure_concurrency;
        let pool = if pools > 1 {
            let index = self.counter % (pools as u64);
            self.counter = if self.counter < u64::MAX {
                self.counter + 1
            } else {
                0
            };
            let digits = u64_to_decimal(index);
            let prefix = concat_str("https://pool-", digits.as_str());
            Some(concat_str(prefix.as_str(), ":443"))
        } else {
            None
        };
        NaiveConnectOptions {
            proxy_url: copy_string(&self.options.proxy_url),
            destination,
            proxy_authorization: match &self.authorization {
                Some(a) => Some(copy_string(a)),
                None => None,
            },
            extra_headers: crate::bidirectional_conn::copy_headers(&self.options.extra_headers),
            force_quic: self.options.quic,
            network_isolation_key: pool,
            priority: self.options.priority,
            read_buffer_size: self.options.read_buffer_size,
        }
    }
}


/// With a DNS resolver installed, the engine's experimental options set
/// `UseDnsHttpsSvcb` to `{"enable": ech_enabled}`: that option is merged
/// with ECH's setting, and the only option merged after it is a different
/// one (the protocol windows), so it stays as merged.
pub proof fn lemma_https_svcb_follows_ech(options: NaiveClientOptions)
    requires
        naive_options_text(options, true) is Some,
    ensures
        exists|before: Seq<char>, key: Seq<char>, value: Option<serde_json::Value>|
            key != "UseDnsHttpsSvcb"@ && then_merge(
                merge_text(before, "UseDnsHttpsSvcb"@, Some(single_entry("enable"@, json_bool(options.ech_enabled)))),
                key,
                value,
            ) == naive_options_text(options, true),
{
    reveal_strlit("UseDnsHttpsSvcb");
    reveal_strlit("QUIC");
    reveal_strlit("HTTP2Options");
    let pools = merge_text(
        Seq::empty(),
        "SocketPoolOptions"@,
        Some(json_object(socket_pool_entries(2048, 2048, 2040))),
    );
    let before = then_merge(
        then_merge(pools, "AsyncDNS"@, async_dns_value(true)),
        "DnsServerOverride"@,
        dns_server_override_value(seq![loopback_dns()]),
    );
    let svcb = Some(single_entry("enable"@, json_bool(options.ech_enabled)));
    if options.quic {
        let value = quic_value(
            options.quic_congestion_control@,
            nonzero_or_spec(options.receive_window, QUIC_STREAM_WINDOW),
            nonzero_or_spec(options.quic_session_receive_window, QUIC_SESSION_WINDOW),
        );
        assert("QUIC"@.len() != "UseDnsHttpsSvcb"@.len());
        assert(before is Some);
        assert(then_merge(merge_text(before.unwrap(), "UseDnsHttpsSvcb"@, svcb), "QUIC"@, value) == naive_options_text(options, true));
    } else {
        let window = nonzero_or_spec(options.receive_window, HTTP2_STREAM_WINDOW);
        let value = Some(json_object(http2_entries(http2_session_window_spec(window), window)));
        assert("HTTP2Options"@.len() != "UseDnsHttpsSvcb"@.len());
        assert(before is Some);
        assert(then_merge(merge_text(before.unwrap(), "UseDnsHttpsSvcb"@, svcb), "HTTP2Options"@, value) == naive_options_text(options, true));
    }
}

/// When ECH is enabled with a DNS resolver, a started client's ECH
/// configuration asks for HTTPS records under the configured alternate
/// query name when one is given, and under the server name otherwise; it
/// carries the configured ECHConfigList and QUIC setting.
pub proof fn lemma_ech_query_name_is_the_configured_one(
    options: NaiveClientOptions,
    r: Result<StartPlan, NaiveClientStartError>,
)
    requires
        plan_outcome(options, true, r),
        options.ech_enabled,
        r is Ok,
    ensures
        r->Ok_0.ech matches Some(e) && (match options.ech_query_server_name {
            Some(q) => e.query_server_name@ == q@,
            None => e.query_server_name@ == e.server_name@,
        }) && e.config_list@ == options.ech_config_list@ && e.quic == options.quic,
        options.server_name matches Some(s) ==> r->Ok_0.ech->Some_0.server_name@ == s@,
{
}

} // verus!
