use vstd::prelude::*;

use crate::text::string_views;

use crate::json::{
    json_bool, json_bool_value, json_entries, json_map_from_str, json_map_insert, json_map_new,
    json_map_remove, json_map_to_string, json_object, json_object_of_text, json_object_value,
    json_string, json_string_array, json_string_array_value, json_string_value, json_text_of,
    json_u64, json_u64_value, no_entries,
};
use crate::model::Header;

verus! {

/// HTTP cache backend used by an [`EngineParams`] value.
#[derive(Clone, Copy, Debug, PartialEq, Eq, Structural)]
pub enum CacheMode {
    /// Disable the HTTP cache.
    Disabled,
    /// Keep cached responses in memory.
    InMemory,
    /// Use disk storage without caching HTTP response bodies.
    DiskNoHttp,
    /// Use the disk HTTP cache.
    Disk,
}

impl CacheMode {
    /// The native `HTTP_CACHE_MODE` number of this mode.
    pub fn raw(self) -> (r: i32)
        ensures
            r == match self {
                CacheMode::Disabled => 0int,
                CacheMode::InMemory => 1int,
                CacheMode::DiskNoHttp => 2int,
                CacheMode::Disk => 3int,
            },
    {
        match self {
            CacheMode::Disabled => 0,
            CacheMode::InMemory => 1,
            CacheMode::DiskNoHttp => 2,
            CacheMode::Disk => 3,
        }
    }
}

/// Scheduling priority for a URL request.
#[derive(Clone, Copy, Debug, PartialEq, Eq, Structural)]
pub enum RequestPriority {
    /// Background work that may be delayed.
    Idle,
    /// Lowest non-idle priority.
    Lowest,
    /// Low priority.
    Low,
    /// Default priority.
    Medium,
    /// Highest priority.
    Highest,
}

impl RequestPriority {
    /// The native `REQUEST_PRIORITY` number of this priority.
    pub fn raw(self) -> (r: i32)
        ensures
            r == match self {
                RequestPriority::Idle => 0int,
                RequestPriority::Lowest => 1int,
                RequestPriority::Low => 2int,
                RequestPriority::Medium => 3int,
                RequestPriority::Highest => 4int,
            },
    {
        match self {
            RequestPriority::Idle => 0,
            RequestPriority::Lowest => 1,
            RequestPriority::Low => 2,
            RequestPriority::Medium => 3,
            RequestPriority::Highest => 4,
        }
    }
}

/// URL request configuration: what the caller set, applied to a native
/// parameters object when the request is initialized.
#[derive(Clone, Debug)]
pub struct RequestParams {
    /// HTTP method, when set.
    pub method: Option<String>,
    /// Whether the request bypasses the HTTP cache, when set.
    pub disable_cache: Option<bool>,
    /// Scheduling priority, when set.
    pub priority: Option<RequestPriority>,
    /// Whether callbacks may run on Cronet's network thread, when set.
    pub allow_direct_executor: Option<bool>,
    /// Request headers in the order they were added.
    pub headers: Vec<Header>,
}

impl RequestParams {
    /// Request parameters with Cronet defaults.
    pub fn new() -> (r: RequestParams)
        ensures
            r.method is None,
            r.disable_cache is None,
            r.priority is None,
            r.allow_direct_executor is None,
            r.headers@.len() == 0,
    {
        RequestParams {
            method: None,
            disable_cache: None,
            priority: None,
            allow_direct_executor: None,
            headers: Vec::new(),
        }
    }

    /// Sets the HTTP method.
    pub fn method(&mut self, method: &str) -> (r: &mut Self)
        ensures
            r.method matches Some(m) && m@ == method@,
            *r == (RequestParams { method: r.method, ..*old(self) }),
            *final(r) == *final(self),
    {
        self.method = Some(String::from_str(method));
        self
    }
}


impl RequestParams {
    /// Controls use of the HTTP cache for this request.
    pub fn disable_cache(&mut self, disabled: bool) -> (r: &mut Self)
        ensures
            *r == (RequestParams { disable_cache: Some(disabled), ..*old(self) }),
            *final(r) == *final(self),
    {
        self.disable_cache = Some(disabled);
        self
    }

    /// Sets request scheduling priority.
    pub fn priority(&mut self, priority: RequestPriority) -> (r: &mut Self)
        ensures
            *r == (RequestParams { priority: Some(priority), ..*old(self) }),
            *final(r) == *final(self),
    {
        self.priority = Some(priority);
        self
    }

    /// Allows callbacks on Cronet's network thread.
    ///
    /// Use this only when every callback is non-blocking and audited.
    pub fn allow_direct_executor(&mut self, allowed: bool) -> (r: &mut Self)
        ensures
            *r == (RequestParams { allow_direct_executor: Some(allowed), ..*old(self) }),
            *final(r) == *final(self),
    {
        self.allow_direct_executor = Some(allowed);
        self
    }

    /// Appends a request header.
    pub fn header(&mut self, header: Header) -> (r: &mut Self)
        ensures
            r.headers@ == old(self).headers@.push(header),
            *r == (RequestParams { headers: r.headers, ..*old(self) }),
            *final(r) == *final(self),
    {
        self.headers.push(header);
        self
    }
}

/// A QUIC alternate-service hint.
#[derive(Clone, Debug)]
pub struct QuicHint {
    pub host: String,
    pub port: i32,
    pub alternate_port: i32,
}

/// A public-key pin set for one host.
#[derive(Clone, Debug)]
pub struct PublicKeyPins {
    pub host: String,
    pub pins_sha256: Vec<String>,
    pub include_subdomains: bool,
    pub expiration_unix_millis: i64,
}

/// Engine configuration: what the caller set, applied to a native
/// parameters object when the engine starts. Unset values keep Cronet's
/// defaults.
#[derive(Clone, Debug)]
pub struct EngineParams {
    pub user_agent: Option<String>,
    pub accept_language: Option<String>,
    pub storage_path: Option<String>,
    pub enable_quic: Option<bool>,
    pub enable_http2: Option<bool>,
    pub enable_brotli: Option<bool>,
    pub cache: Option<(CacheMode, i64)>,
    /// Chromium experimental options as JSON text.
    pub experimental_options: Option<String>,
    pub enable_check_result: Option<bool>,
    pub bypass_pinning_for_local_trust_anchors: Option<bool>,
    pub quic_hints: Vec<QuicHint>,
    pub public_key_pins: Vec<PublicKeyPins>,
}

/// Characters that `str::trim` removes: Unicode `White_Space`.
pub open spec fn is_white_space(c: char) -> bool {
    ||| c == '\t' || c == '\n' || c == '\u{0B}' || c == '\u{0C}' || c == '\r' || c == ' '
    ||| c == '\u{85}' || c == '\u{A0}' || c == '\u{1680}'
    ||| ('\u{2000}' <= c && c <= '\u{200A}')
    ||| c == '\u{2028}' || c == '\u{2029}' || c == '\u{202F}' || c == '\u{205F}' || c == '\u{3000}'
}

/// Text that holds nothing but white space.
pub open spec fn is_blank(s: Seq<char>) -> bool {
    forall|i: int| 0 <= i < s.len() ==> is_white_space(#[trigger] s[i])
}

fn white_space(c: char) -> (r: bool)
    ensures
        r == is_white_space(c),
{
    c == '\t' || c == '\n' || c == '\u{0B}' || c == '\u{0C}' || c == '\r' || c == ' ' || c == '\u{85}'
        || c == '\u{A0}' || c == '\u{1680}' || ('\u{2000}' <= c && c <= '\u{200A}') || c == '\u{2028}'
        || c == '\u{2029}' || c == '\u{202F}' || c == '\u{205F}' || c == '\u{3000}'
}

fn blank(s: &str) -> (r: bool)
    ensures
        r == is_blank(s@),
{
    let n = s.unicode_len();
    let mut i: usize = 0;
    while i < n
        invariant
            n == s@.len(),
            0 <= i <= n,
            forall|j: int| 0 <= j < i ==> is_white_space(#[trigger] s@[j]),
        decreases n - i,
    {
        if !white_space(s.get_char(i)) {
            return false;
        }
        i = i + 1;
    }
    true
}

/// The experimental-options text stored in `p` (empty when unset).
pub open spec fn options_text(p: EngineParams) -> Seq<char> {
    match p.experimental_options {
        Some(t) => t@,
        None => Seq::empty(),
    }
}

/// Entries with `key` set to `value`, or removed when `value` is `None`.
pub open spec fn with_option(
    entries: Map<Seq<char>, serde_json::Value>,
    key: Seq<char>,
    value: Option<serde_json::Value>,
) -> Map<Seq<char>, serde_json::Value> {
    match value {
        Some(v) => entries.insert(key, v),
        None => entries.remove(key),
    }
}

/// `after` differs from `before` at most in its experimental options.
pub open spec fn same_except_options(before: EngineParams, after: EngineParams) -> bool {
    &&& after.user_agent == before.user_agent
    &&& after.accept_language == before.accept_language
    &&& after.storage_path == before.storage_path
    &&& after.enable_quic == before.enable_quic
    &&& after.enable_http2 == before.enable_http2
    &&& after.enable_brotli == before.enable_brotli
    &&& after.cache == before.cache
    &&& after.enable_check_result == before.enable_check_result
    &&& after.bypass_pinning_for_local_trust_anchors == before.bypass_pinning_for_local_trust_anchors
    &&& after.quic_hints == before.quic_hints
    &&& after.public_key_pins == before.public_key_pins
}

/// The experimental-options text after merging one top-level option into
/// `text`: the JSON text of its object with `key` set to `value` (removed
/// for `None`); `None` when `text` is neither blank nor a JSON object.
pub open spec fn merge_text(text: Seq<char>, key: Seq<char>, value: Option<serde_json::Value>) -> Option<Seq<char>> {
    let current = if is_blank(text) {
        Some(no_entries())
    } else {
        json_object_of_text(text)
    };
    match current {
        Some(entries) => Some(json_text_of(with_option(entries, key, value))),
        None => None,
    }
}

/// The effect of merging one top-level experimental option: it succeeds
/// exactly when the stored text is blank or a JSON object; then the stored
/// text becomes the merged text and nothing else changes; on failure
/// nothing changes at all.
pub open spec fn merged_option(
    before: EngineParams,
    after: EngineParams,
    key: Seq<char>,
    value: Option<serde_json::Value>,
    ok: bool,
) -> bool {
    &&& ok <==> merge_text(options_text(before), key, value) is Some
    &&& ok ==> after.experimental_options is Some && Some(options_text(after)) == merge_text(
        options_text(before),
        key,
        value,
    ) && same_except_options(before, after)
    &&& !ok ==> after == before
}

/// A JSON object with one entry.
pub open spec fn single_entry(key: Seq<char>, value: serde_json::Value) -> serde_json::Value {
    json_object(no_entries().insert(key, value))
}

impl EngineParams {
    /// A configuration with Cronet defaults.
    pub fn new() -> (r: EngineParams)
        ensures
            r.user_agent is None,
            r.accept_language is None,
            r.storage_path is None,
            r.enable_quic is None,
            r.enable_http2 is None,
            r.enable_brotli is None,
            r.cache is None,
            r.experimental_options is None,
            r.enable_check_result is None,
            r.bypass_pinning_for_local_trust_anchors is None,
            r.quic_hints@.len() == 0,
            r.public_key_pins@.len() == 0,
    {
        EngineParams {
            user_agent: None,
            accept_language: None,
            storage_path: None,
            enable_quic: None,
            enable_http2: None,
            enable_brotli: None,
            cache: None,
            experimental_options: None,
            enable_check_result: None,
            bypass_pinning_for_local_trust_anchors: None,
            quic_hints: Vec::new(),
            public_key_pins: Vec::new(),
        }
    }

    /// Overrides the HTTP user agent.
    pub fn user_agent(&mut self, value: &str) -> (r: &mut Self)
        ensures
            r.user_agent matches Some(v) && v@ == value@,
            *r == (EngineParams { user_agent: r.user_agent, ..*old(self) }),
            *final(r) == *final(self),
    {
        self.user_agent = Some(String::from_str(value));
        self
    }

    /// Sets the Accept-Language value.
    pub fn accept_language(&mut self, value: &str) -> (r: &mut Self)
        ensures
            r.accept_language matches Some(v) && v@ == value@,
            *r == (EngineParams { accept_language: r.accept_language, ..*old(self) }),
            *final(r) == *final(self),
    {
        self.accept_language = Some(String::from_str(value));
        self
    }

    /// Sets an existing directory used for persistent storage.
    pub fn storage_path(&mut self, value: &str) -> (r: &mut Self)
        ensures
            r.storage_path matches Some(v) && v@ == value@,
            *r == (EngineParams { storage_path: r.storage_path, ..*old(self) }),
            *final(r) == *final(self),
    {
        self.storage_path = Some(String::from_str(value));
        self
    }

    /// Sets Cronet's JSON experimental options.
    pub fn experimental_options(&mut self, json: &str) -> (r: &mut Self)
        ensures
            r.experimental_options matches Some(v) && v@ == json@,
            *r == (EngineParams { experimental_options: r.experimental_options, ..*old(self) }),
            *final(r) == *final(self),
    {
        self.experimental_options = Some(String::from_str(json));
        self
    }

    /// Enables or disables QUIC.
    pub fn enable_quic(&mut self, enabled: bool) -> (r: &mut Self)
        ensures
            *r == (EngineParams { enable_quic: Some(enabled), ..*old(self) }),
            *final(r) == *final(self),
    {
        self.enable_quic = Some(enabled);
        self
    }

    /// Enables or disables HTTP/2.
    pub fn enable_http2(&mut self, enabled: bool) -> (r: &mut Self)
        ensures
            *r == (EngineParams { enable_http2: Some(enabled), ..*old(self) }),
            *final(r) == *final(self),
    {
        self.enable_http2 = Some(enabled);
        self
    }

    /// Enables or disables Brotli content decoding.
    pub fn enable_brotli(&mut self, enabled: bool) -> (r: &mut Self)
        ensures
            *r == (EngineParams { enable_brotli: Some(enabled), ..*old(self) }),
            *final(r) == *final(self),
    {
        self.enable_brotli = Some(enabled);
        self
    }

    /// Configures the cache and maximum byte count.
    pub fn cache(&mut self, mode: CacheMode, max_size: i64) -> (r: &mut Self)
        ensures
            *r == (EngineParams { cache: Some((mode, max_size)), ..*old(self) }),
            *final(r) == *final(self),
    {
        self.cache = Some((mode, max_size));
        self
    }

    /// Enables additional native argument and state validation.
    pub fn enable_check_result(&mut self, enabled: bool) -> (r: &mut Self)
        ensures
            *r == (EngineParams { enable_check_result: Some(enabled), ..*old(self) }),
            *final(r) == *final(self),
    {
        self.enable_check_result = Some(enabled);
        self
    }

    /// Controls pinning bypass for locally trusted certificate authorities.
    pub fn bypass_pinning_for_local_trust_anchors(&mut self, enabled: bool) -> (r: &mut Self)
        ensures
            *r == (EngineParams { bypass_pinning_for_local_trust_anchors: Some(enabled), ..*old(self) }),
            *final(r) == *final(self),
    {
        self.bypass_pinning_for_local_trust_anchors = Some(enabled);
        self
    }

    /// Adds a QUIC alternate-service hint.
    pub fn quic_hint(&mut self, host: &str, port: i32, alternate_port: i32) -> (r: &mut Self)
        ensures
            r.quic_hints@.len() == old(self).quic_hints@.len() + 1,
            forall|i: int| 0 <= i < old(self).quic_hints@.len() ==> r.quic_hints@[i] == old(self).quic_hints@[i],
            r.quic_hints@.last().host@ == host@,
            r.quic_hints@.last().port == port,
            r.quic_hints@.last().alternate_port == alternate_port,
            *r == (EngineParams { quic_hints: r.quic_hints, ..*old(self) }),
            *final(r) == *final(self),
    {
        self.quic_hints.push(QuicHint { host: String::from_str(host), port, alternate_port });
        self
    }

    /// Adds a public-key pin set. Pins are base64-encoded SHA-256 SPKI hashes.
    pub fn public_key_pins(
        &mut self,
        host: &str,
        pins_sha256: Vec<String>,
        include_subdomains: bool,
        expiration_unix_millis: i64,
    ) -> (r: &mut Self)
        ensures
            r.public_key_pins@.len() == old(self).public_key_pins@.len() + 1,
            forall|i: int| 0 <= i < old(self).public_key_pins@.len() ==> r.public_key_pins@[i] == old(self).public_key_pins@[i],
            r.public_key_pins@.last().host@ == host@,
            r.public_key_pins@.last().pins_sha256 == pins_sha256,
            r.public_key_pins@.last().include_subdomains == include_subdomains,
            r.public_key_pins@.last().expiration_unix_millis == expiration_unix_millis,
            *r == (EngineParams { public_key_pins: r.public_key_pins, ..*old(self) }),
            *final(r) == *final(self),
    {
        self.public_key_pins.push(PublicKeyPins {
            host: String::from_str(host),
            pins_sha256,
            include_subdomains,
            expiration_unix_millis,
        });
        self
    }

    /// Merges one top-level Chromium experimental option into the JSON
    /// object of experimental options; `None` removes the option. Fails,
    /// with the JSON error's message, when the stored options are not a
    /// JSON object.
    pub fn experimental_option(&mut self, key: &str, value: Option<serde_json::Value>) -> (r: Result<(), String>)
        ensures
            merged_option(*old(self), *final(self), key@, value, r is Ok),
    {
        let current = match &self.experimental_options {
            Some(t) => t.clone(),
            None => String::new(),
        };
        let mut options = if blank(current.as_str()) {
            json_map_new()
        } else {
            json_map_from_str(current.as_str())?
        };
        let ghost base = json_entries(options);
        match value {
            Some(v) => json_map_insert(&mut options, String::from_str(key), v),
            None => json_map_remove(&mut options, key),
        }
        let encoded = json_map_to_string(&options)?;
        let ghost before = *self;
        self.experimental_options = Some(encoded);
        proof {
            assert(json_entries(options) == with_option(base, key@, value));
            assert(same_except_options(before, *self));
        }
        Ok(())
    }
}

/// A JSON object value with one entry.
pub fn single_entry_object(key: &str, value: serde_json::Value) -> (r: serde_json::Value)
    ensures
        r == single_entry(key@, value),
{
    let mut m = json_map_new();
    json_map_insert(&mut m, String::from_str(key), value);
    json_object_value(m)
}

/// The option value that `async_dns` merges: `{"enable": true}` when
/// enabled, removal otherwise.
pub open spec fn async_dns_value(enabled: bool) -> Option<serde_json::Value> {
    if enabled {
        Some(single_entry("enable"@, json_bool(true)))
    } else {
        None
    }
}

/// The option value that `dns_server_override` merges:
/// `{"nameservers": [...]}`, removal for an empty list.
pub open spec fn dns_server_override_value(nameservers: Seq<Seq<char>>) -> Option<serde_json::Value> {
    if nameservers.len() > 0 {
        Some(single_entry("nameservers"@, json_string_array(nameservers)))
    } else {
        None
    }
}

/// The option value that `host_resolver_rules` merges:
/// `{"host_resolver_rules": rules}`, removal for empty rules.
pub open spec fn host_resolver_rules_value(rules: Seq<char>) -> Option<serde_json::Value> {
    if rules.len() > 0 {
        Some(single_entry("host_resolver_rules"@, json_string(rules)))
    } else {
        None
    }
}

/// The entries of the `HTTP2Options` option.
pub open spec fn http2_entries(session_max_receive_window: u64, initial_window: u64) -> Map<Seq<char>, serde_json::Value> {
    no_entries().insert("session_max_recv_window_size"@, json_u64(session_max_receive_window)).insert(
        "initial_window_size"@,
        json_u64(initial_window),
    )
}

/// The entries of the `QUIC` option: each setting that is given.
pub open spec fn quic_entries(connection_options: Seq<char>, stream_window: u64, session_window: u64) -> Map<Seq<char>, serde_json::Value> {
    let a = if connection_options.len() > 0 {
        no_entries().insert("connection_options"@, json_string(connection_options))
    } else {
        no_entries()
    };
    let b = if stream_window != 0 {
        a.insert("initial_stream_recv_window_size"@, json_u64(stream_window))
    } else {
        a
    };
    if session_window != 0 {
        b.insert("initial_session_recv_window_size"@, json_u64(session_window))
    } else {
        b
    }
}

/// The option value that `quic_options` merges: the given settings, or
/// removal when none is given.
pub open spec fn quic_value(connection_options: Seq<char>, stream_window: u64, session_window: u64) -> Option<serde_json::Value> {
    if connection_options.len() == 0 && stream_window == 0 && session_window == 0 {
        None
    } else {
        Some(json_object(quic_entries(connection_options, stream_window, session_window)))
    }
}

/// The entries of the `SocketPoolOptions` option.
pub open spec fn socket_pool_entries(per_pool: u64, per_proxy_chain: u64, per_group: u64) -> Map<Seq<char>, serde_json::Value> {
    no_entries().insert("max_sockets_per_pool"@, json_u64(per_pool)).insert(
        "max_sockets_per_proxy_chain"@,
        json_u64(per_proxy_chain),
    ).insert("max_sockets_per_group"@, json_u64(per_group))
}

impl EngineParams {
    /// Enables Chromium's asynchronous built-in DNS client.
    pub fn async_dns(&mut self, enabled: bool) -> (r: Result<(), String>)
        ensures
            merged_option(*old(self), *final(self), "AsyncDNS"@, async_dns_value(enabled), r is Ok),
    {
        let value = if enabled {
            Some(single_entry_object("enable", json_bool_value(true)))
        } else {
            None
        };
        self.experimental_option("AsyncDNS", value)
    }

    /// Overrides built-in DNS nameservers using `ip:port` strings.
    pub fn dns_server_override(&mut self, nameservers: Vec<String>) -> (r: Result<(), String>)
        ensures
            merged_option(
                *old(self),
                *final(self),
                "DnsServerOverride"@,
                dns_server_override_value(string_views(nameservers@)),
                r is Ok,
            ),
    {
        let value = if nameservers.len() > 0 {
            Some(single_entry_object("nameservers", json_string_array_value(nameservers)))
        } else {
            None
        };
        self.experimental_option("DnsServerOverride", value)
    }

    /// Sets Chromium mapped-host-resolver rules.
    pub fn host_resolver_rules(&mut self, rules: &str) -> (r: Result<(), String>)
        ensures
            merged_option(*old(self), *final(self), "HostResolverRules"@, host_resolver_rules_value(rules@), r is Ok),
    {
        let value = if rules.unicode_len() > 0 {
            Some(single_entry_object("host_resolver_rules", json_string_value(String::from_str(rules))))
        } else {
            None
        };
        self.experimental_option("HostResolverRules", value)
    }

    /// Enables DNS HTTPS/SVCB queries required for ECH discovery.
    pub fn use_dns_https_svcb(&mut self, enabled: bool) -> (r: Result<(), String>)
        ensures
            merged_option(
                *old(self),
                *final(self),
                "UseDnsHttpsSvcb"@,
                Some(single_entry("enable"@, json_bool(enabled))),
                r is Ok,
            ),
    {
        let value = single_entry_object("enable", json_bool_value(enabled));
        self.experimental_option("UseDnsHttpsSvcb", Some(value))
    }

    /// Configures HTTP/2 flow-control receive windows.
    pub fn http2_windows(&mut self, session_max_receive_window: u64, initial_window: u64) -> (r: Result<(), String>)
        ensures
            merged_option(
                *old(self),
                *final(self),
                "HTTP2Options"@,
                Some(json_object(http2_entries(session_max_receive_window, initial_window))),
                r is Ok,
            ),
    {
        let mut m = json_map_new();
        json_map_insert(&mut m, String::from_str("session_max_recv_window_size"), json_u64_value(session_max_receive_window));
        json_map_insert(&mut m, String::from_str("initial_window_size"), json_u64_value(initial_window));
        let value = json_object_value(m);
        self.experimental_option("HTTP2Options", Some(value))
    }

    /// Configures QUIC connection options and receive windows; the option
    /// is removed when nothing is given.
    pub fn quic_options(
        &mut self,
        connection_options: &str,
        initial_stream_receive_window: u64,
        initial_session_receive_window: u64,
    ) -> (r: Result<(), String>)
        ensures
            merged_option(
                *old(self),
                *final(self),
                "QUIC"@,
                quic_value(connection_options@, initial_stream_receive_window, initial_session_receive_window),
                r is Ok,
            ),
    {
        let mut m = json_map_new();
        let mut any = false;
        if connection_options.unicode_len() > 0 {
            json_map_insert(&mut m, String::from_str("connection_options"), json_string_value(String::from_str(connection_options)));
            any = true;
        }
        if initial_stream_receive_window != 0 {
            json_map_insert(&mut m, String::from_str("initial_stream_recv_window_size"), json_u64_value(initial_stream_receive_window));
            any = true;
        }
        if initial_session_receive_window != 0 {
            json_map_insert(&mut m, String::from_str("initial_session_recv_window_size"), json_u64_value(initial_session_receive_window));
            any = true;
        }
        assert(json_entries(m) == quic_entries(connection_options@, initial_stream_receive_window, initial_session_receive_window));
        let value = if any {
            Some(json_object_value(m))
        } else {
            None
        };
        self.experimental_option("QUIC", value)
    }

    /// Raises Chromium socket-pool limits for proxy multiplexing.
    pub fn socket_pool_limits(&mut self, per_pool: u64, per_proxy_chain: u64, per_group: u64) -> (r: Result<(), String>)
        ensures
            merged_option(
                *old(self),
                *final(self),
                "SocketPoolOptions"@,
                Some(json_object(socket_pool_entries(per_pool, per_proxy_chain, per_group))),
                r is Ok,
            ),
    {
        let mut m = json_map_new();
        json_map_insert(&mut m, String::from_str("max_sockets_per_pool"), json_u64_value(per_pool));
        json_map_insert(&mut m, String::from_str("max_sockets_per_proxy_chain"), json_u64_value(per_proxy_chain));
        json_map_insert(&mut m, String::from_str("max_sockets_per_group"), json_u64_value(per_group));
        let value = json_object_value(m);
        self.experimental_option("SocketPoolOptions", Some(value))
    }
}
} // verus!
