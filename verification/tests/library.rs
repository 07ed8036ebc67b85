use cronet::bidirectional_conn::{timeout_deadline, ReadStep, StreamErrorKind, WaitOperation};
use cronet::client::DEFAULT_BODY_READ_SIZE;
use cronet::dns::{
    https_answer_edit, keeps_svc_param, matches_server_name, parse_https_service_port, plan_ech,
    plan_server_redirect, renames_forwarded_answer, rewrite_https_query_name, same_dns_name,
    EchOptions, EchPlan, IpLiteral, RedirectPlan, SvcParamPlan,
};
use cronet::engine::{claim_close, datagram_step, dial_route, is_dns_endpoint, udp_error, DatagramStep, DialRoute};
use cronet::metrics::finished_reason;
use cronet::bidirectional_conn::{copy_available, ReadState};
use cronet::dns_message::{resolve_with_ech, resolve_with_server_redirect};
use cronet::naive::{padding_header, RawRead, PADDING_CHUNKS};
use hickory_proto::op::{Message, MessageType, Query};
use hickory_proto::rr::rdata::svcb::{SvcParamKey, SvcParamValue};
use hickory_proto::rr::rdata::{A, AAAA, HTTPS};
use hickory_proto::rr::{Name, RData, Record, RecordType};
use cronet::upload::UploadState;
use cronet::{
    BidirectionalConnection, BidirectionalStreamHandle, BidirectionalStreamHandler, CollectingHandler,
    EngineParams, Error, FinishedReason, Header, IoErrorKind, NaiveClient, NaiveClientOptions,
    NaiveClientStartError, NaiveConnectOptions, NaiveConnection, NaivePadding, NetError, NetworkError,
    RequestError, RequestHandle, RequestOptions, RequestStatus, Response, ResponseInfo, SplitDatagram,
    SplitStream, StreamError,
};

fn header(name: &str, value: &str) -> Header {
    Header { name: name.to_string(), value: value.to_string() }
}

fn info(status: i32) -> ResponseInfo {
    ResponseInfo { status_code: status, ..ResponseInfo::default() }
}

#[test]
fn request_options_builders_keep_order() {
    let options = RequestOptions::get("https://example.com/".to_string())
        .header("Accept".to_string(), "text/plain".to_string())
        .header("X-Two".to_string(), "2".to_string())
        .body(b"payload".to_vec());
    assert_eq!(options.url, "https://example.com/");
    assert_eq!(options.method, "GET");
    assert!(!options.disable_cache);
    assert_eq!(options.read_buffer_size, DEFAULT_BODY_READ_SIZE);
    assert_eq!(options.read_buffer_size, 32 * 1024);
    assert_eq!(options.headers, vec![header("Accept", "text/plain"), header("X-Two", "2")]);
    assert_eq!(options.body, Some(b"payload".to_vec()));

    let params = options.params();
    assert_eq!(params.method.as_deref(), Some("GET"));
    assert_eq!(params.disable_cache, Some(false));
    assert_eq!(params.headers, options.headers);
    assert!(params.priority.is_none());
}

#[test]
fn request_error_texts() {
    assert_eq!(
        RequestError::Api(Error::from_result(-100).unwrap_err()).to_string(),
        "Cronet operation failed with result code -100"
    );
    let network = NetworkError {
        code: 2,
        message: "net::ERR_NAME_NOT_RESOLVED".to_string(),
        internal_error_code: -105,
        immediately_retryable: false,
        quic_detailed_error_code: 0,
    };
    assert_eq!(
        RequestError::Network(network).to_string(),
        "Cronet network error: net::ERR_NAME_NOT_RESOLVED"
    );
    assert_eq!(RequestError::Canceled.to_string(), "Cronet request was canceled");
    assert_eq!(RequestError::CallbackDisconnected.to_string(), "Cronet callback channel disconnected");
    let converted: RequestError = Error::from_result(-4).unwrap_err().into();
    assert!(matches!(converted, RequestError::Api(e) if e.code() == -4));
}

#[test]
fn collector_accumulates_body_and_delivers_once() {
    let mut collector = CollectingHandler::new(0);
    assert_eq!(collector.read_buffer_size, 1);
    let mut collector2 = CollectingHandler::new(16);
    assert_eq!(collector2.read_buffer_size, 16);
    assert!(collector2.on_canceled().is_some());

    collector.on_response_started(info(200));
    collector.on_read_completed(info(200), b"hello world", 5);
    collector.on_read_completed(info(200), b", again", 100);
    assert_eq!(collector.body, b"hello, again".to_vec());
    let outcome = collector.on_succeeded(info(200));
    match outcome {
        Some(Ok(Response { info, body })) => {
            assert_eq!(info.status_code, 200);
            assert_eq!(body, b"hello, again".to_vec());
        }
        _ => panic!("expected a response"),
    }
    assert!(collector.delivered);
    assert!(collector.on_canceled().is_none());
    assert!(collector.on_refused(Error::from_result(-5).unwrap_err()).is_none());
}

#[test]
fn collector_reports_the_first_failure() {
    let mut collector = CollectingHandler::new(8);
    let refused = collector.on_refused(Error::from_result(-30).unwrap_err());
    assert!(matches!(refused, Some(Err(RequestError::Api(e))) if e.code() == -30));
    let network = NetworkError {
        code: 1,
        message: "late".to_string(),
        internal_error_code: -1,
        immediately_retryable: true,
        quic_detailed_error_code: 0,
    };
    assert!(collector.on_failed(network).is_none());
}

#[test]
fn upload_reads_in_order_and_rewinds() {
    let mut upload = UploadState::new(b"abcdef".to_vec());
    assert_eq!(upload.length(), 6);
    assert_eq!(upload.read(4), (b"abcd".to_vec(), false));
    assert_eq!(upload.read(4), (b"ef".to_vec(), true));
    assert_eq!(upload.read(4), (Vec::new(), true));
    upload.rewind();
    assert_eq!(upload.position, 0);
    assert_eq!(upload.read(100), (b"abcdef".to_vec(), true));
    upload.close();
    assert!(upload.closed);

    let mut empty = UploadState::new(Vec::new());
    assert_eq!(empty.length(), 0);
    assert_eq!(empty.read(8), (Vec::new(), true));
}

#[test]
fn dns_endpoint_detection() {
    assert!(is_dns_endpoint("127.0.0.1", 53));
    assert!(is_dns_endpoint("[::1]", 53));
    assert!(is_dns_endpoint("[[::1]]", 53));
    assert!(is_dns_endpoint("localhost", 53));
    assert!(!is_dns_endpoint("127.0.0.1", 54));
    assert!(!is_dns_endpoint("8.8.8.8", 53));
    assert!(!is_dns_endpoint("", 53));
    assert_eq!(dial_route("[::1]", 53, true), DialRoute::DnsProxy);
    assert_eq!(dial_route("example.com", 443, true), DialRoute::Previous);
    assert_eq!(dial_route("example.com", 443, false), DialRoute::System);
}

#[test]
fn datagram_steps_and_close_once() {
    assert_eq!(datagram_step(Ok(Some(12)), 64), DatagramStep::Forward(12));
    assert_eq!(datagram_step(Ok(Some(0)), 64), DatagramStep::Stop);
    assert_eq!(datagram_step(Ok(Some(65)), 64), DatagramStep::Stop);
    assert_eq!(datagram_step(Ok(None), 64), DatagramStep::Retry);
    assert_eq!(datagram_step(Err(()), 64), DatagramStep::Stop);
    let mut closed = false;
    assert!(claim_close(&mut closed));
    assert!(!claim_close(&mut closed));
    assert!(closed);
}

#[test]
fn udp_error_reports_the_net_error() {
    let result = udp_error(&std::io::Error::from(std::io::ErrorKind::ConnectionRefused));
    assert_eq!(result.fd, -102);
    assert!(result.local_address.is_empty());
    assert_eq!(result.local_port, 0);
}

#[test]
fn split_transports_keep_their_parts() {
    let datagram = SplitDatagram::new(|n: usize| n + 1, |n: usize| n * 2, "192.0.2.10".to_string(), 12345);
    assert_eq!(datagram.local_address(), "192.0.2.10");
    assert_eq!(datagram.local_port(), 12345);
    let datagram = datagram.on_close(|| 7);
    assert_eq!(datagram.local_port(), 12345);
    let (receive, send, close) = datagram.into_parts();
    assert_eq!(receive(1), 2);
    assert_eq!(send(3), 6);
    assert_eq!(close.map(|c| c()), Some(7));

    let stream = SplitStream::new(1u8, 2u16).on_close("closed");
    assert_eq!(stream.into_parts(), (1u8, 2u16, Some("closed")));
}

#[test]
fn redirect_plans() {
    let v4 = IpLiteral::V4(192, 0, 2, 7);
    assert_eq!(
        plan_server_redirect(Some(("front.example.", 1)), "front.example", Some(v4)),
        RedirectPlan::Synthesize(Some(v4))
    );
    assert_eq!(
        plan_server_redirect(Some(("FRONT.example.", 28)), "front.example", Some(v4)),
        RedirectPlan::Synthesize(None)
    );
    assert_eq!(
        plan_server_redirect(Some(("front.example.", 1)), "front.example", None),
        RedirectPlan::Forward
    );
    assert_eq!(
        plan_server_redirect(Some(("front.example.", 65)), "front.example", None),
        RedirectPlan::PassThrough
    );
    assert_eq!(
        plan_server_redirect(Some(("other.example.", 1)), "front.example", Some(v4)),
        RedirectPlan::PassThrough
    );
    assert_eq!(plan_server_redirect(None, "front.example", Some(v4)), RedirectPlan::PassThrough);
    assert!(renames_forwarded_answer(true, "backend.example.", "backend.example"));
    assert!(!renames_forwarded_answer(false, "backend.example.", "backend.example"));
    assert!(!renames_forwarded_answer(true, "other.example.", "backend.example"));
}

fn ech(config: Vec<u8>, query_server_name: &str, quic: bool) -> EchOptions {
    EchOptions {
        server_name: "proxy.example".to_string(),
        query_server_name: query_server_name.to_string(),
        config_list: config,
        quic,
    }
}

#[test]
fn ech_plans() {
    let inject = plan_ech(Some(("_8443._https.proxy.example.", 65)), &ech(vec![1, 2, 3], "", false));
    assert_eq!(
        inject,
        EchPlan::Inject {
            target: "proxy.example.".to_string(),
            params: vec![
                SvcParamPlan::Alpn("h2".to_string()),
                SvcParamPlan::Port(8443),
                SvcParamPlan::EchConfigList(vec![1, 2, 3]),
            ],
        }
    );
    let inject_quic = plan_ech(Some(("proxy.example.", 65)), &ech(vec![9], "", true));
    assert_eq!(
        inject_quic,
        EchPlan::Inject {
            target: "proxy.example.".to_string(),
            params: vec![SvcParamPlan::Alpn("h3".to_string()), SvcParamPlan::EchConfigList(vec![9])],
        }
    );
    assert_eq!(
        plan_ech(Some(("proxy.example.", 65)), &ech(Vec::new(), "ech.example", false)),
        EchPlan::Redirect { query_name: "ech.example.".to_string(), from: "ech.example".to_string() }
    );
    assert_eq!(plan_ech(Some(("proxy.example.", 65)), &ech(Vec::new(), "", false)), EchPlan::Resolve);
    assert_eq!(plan_ech(Some(("proxy.example.", 1)), &ech(vec![1], "", false)), EchPlan::PassThrough);
    assert_eq!(plan_ech(Some(("other.example.", 65)), &ech(vec![1], "", false)), EchPlan::PassThrough);
    assert_eq!(plan_ech(None, &ech(vec![1], "", false)), EchPlan::PassThrough);
}

#[test]
fn https_answers_are_renamed_and_lose_ip_hints() {
    assert_eq!(
        https_answer_edit("ech.example.", "ech.example.", "ech.example", "proxy.example"),
        (Some("proxy.example.".to_string()), Some("proxy.example".to_string()))
    );
    assert_eq!(
        https_answer_edit("proxy.example.", ".", "ech.example", "proxy.example"),
        (None, None)
    );
    assert!(keeps_svc_param(1));
    assert!(keeps_svc_param(5));
    assert!(!keeps_svc_param(4));
    assert!(!keeps_svc_param(6));
}

#[test]
fn dns_name_rules() {
    assert!(same_dns_name("Proxy.Example.", "proxy.example"));
    assert!(!same_dns_name("proxy.example", "proxy.example.org"));
    assert!(matches_server_name("_443._https.PROXY.example.", "proxy.example"));
    assert!(!matches_server_name("_443._http.proxy.example.", "proxy.example"));
    assert_eq!(
        rewrite_https_query_name("_8443._https.proxy.example.", "proxy.example", "ech.example"),
        "_8443._https.ech.example."
    );
    assert_eq!(rewrite_https_query_name("proxy.example", "proxy.example.", "ech.example"), "ech.example.");
    assert_eq!(rewrite_https_query_name("other.example..", "proxy.example", "ech.example"), "other.example.");
    assert_eq!(parse_https_service_port("_8443._https.proxy.example."), Some(8443));
    assert_eq!(parse_https_service_port("_+443._https.proxy.example"), Some(443));
    assert_eq!(parse_https_service_port("_70000._https.proxy.example"), None);
    assert_eq!(parse_https_service_port("proxy.example"), None);
}

#[test]
fn experimental_options_merge_into_json() {
    let mut params = EngineParams::new();
    assert!(params.async_dns(true).is_ok());
    assert_eq!(params.experimental_options.as_deref(), Some("{\"AsyncDNS\":{\"enable\":true}}"));
    assert!(params.http2_windows(10, 5).is_ok());
    assert_eq!(
        params.experimental_options.as_deref(),
        Some("{\"AsyncDNS\":{\"enable\":true},\"HTTP2Options\":{\"initial_window_size\":5,\"session_max_recv_window_size\":10}}")
    );
    assert!(params.async_dns(false).is_ok());
    assert_eq!(
        params.experimental_options.as_deref(),
        Some("{\"HTTP2Options\":{\"initial_window_size\":5,\"session_max_recv_window_size\":10}}")
    );

    let mut blank = EngineParams::new();
    blank.experimental_options("  \n");
    assert!(blank.use_dns_https_svcb(false).is_ok());
    assert_eq!(blank.experimental_options.as_deref(), Some("{\"UseDnsHttpsSvcb\":{\"enable\":false}}"));

    let mut broken = EngineParams::new();
    broken.experimental_options("not json").user_agent("agent");
    assert!(broken.quic_options("", 0, 0).is_err());
    assert_eq!(broken.experimental_options.as_deref(), Some("not json"));
    assert_eq!(broken.user_agent.as_deref(), Some("agent"));
}

#[test]
fn quic_and_dns_options_texts() {
    let mut params = EngineParams::new();
    assert!(params.quic_options("TBBR", 1, 0).is_ok());
    assert!(params.dns_server_override(vec!["127.0.0.1:53".to_string()]).is_ok());
    assert!(params.host_resolver_rules("MAP * 127.0.0.1").is_ok());
    assert!(params.socket_pool_limits(1, 2, 3).is_ok());
    assert_eq!(
        params.experimental_options.as_deref(),
        Some(
            "{\"DnsServerOverride\":{\"nameservers\":[\"127.0.0.1:53\"]},\"HostResolverRules\":{\"host_resolver_rules\":\"MAP * 127.0.0.1\"},\"QUIC\":{\"connection_options\":\"TBBR\",\"initial_stream_recv_window_size\":1},\"SocketPoolOptions\":{\"max_sockets_per_group\":3,\"max_sockets_per_pool\":1,\"max_sockets_per_proxy_chain\":2}}"
        )
    );
    assert!(params.quic_options("", 0, 0).is_ok());
    assert!(params.dns_server_override(Vec::new()).is_ok());
    assert!(params.host_resolver_rules("").is_ok());
    assert_eq!(
        params.experimental_options.as_deref(),
        Some("{\"SocketPoolOptions\":{\"max_sockets_per_group\":3,\"max_sockets_per_pool\":1,\"max_sockets_per_proxy_chain\":2}}")
    );
}

#[test]
fn naive_engine_params_for_http2() {
    let options = NaiveClientOptions::new("https://proxy.example:443".to_string());
    let params = NaiveClient::engine_params(&options, true).expect("params");
    assert_eq!(params.enable_check_result, Some(true));
    assert_eq!(params.enable_brotli, Some(true));
    assert_eq!(params.enable_quic, Some(false));
    assert_eq!(params.enable_http2, Some(true));
    assert_eq!(
        params.experimental_options.as_deref(),
        Some(
            "{\"AsyncDNS\":{\"enable\":true},\"DnsServerOverride\":{\"nameservers\":[\"127.0.0.1:53\"]},\"HTTP2Options\":{\"initial_window_size\":67108864,\"session_max_recv_window_size\":134217728},\"SocketPoolOptions\":{\"max_sockets_per_group\":2040,\"max_sockets_per_pool\":2048,\"max_sockets_per_proxy_chain\":2048},\"UseDnsHttpsSvcb\":{\"enable\":false}}"
        )
    );
}

#[test]
fn naive_http2_stream_window_is_the_receive_window() {
    let mut options = NaiveClientOptions::new("https://proxy.example:443".to_string());
    options.receive_window = 1000;
    let params = NaiveClient::engine_params(&options, false).expect("params");
    assert_eq!(
        params.experimental_options.as_deref(),
        Some(
            "{\"HTTP2Options\":{\"initial_window_size\":1000,\"session_max_recv_window_size\":2000},\"SocketPoolOptions\":{\"max_sockets_per_group\":2040,\"max_sockets_per_pool\":2048,\"max_sockets_per_proxy_chain\":2048}}"
        )
    );
    options.receive_window = u64::MAX;
    let params = NaiveClient::engine_params(&options, false).expect("params");
    assert!(params.experimental_options.as_deref().unwrap().contains(&format!("\"session_max_recv_window_size\":{}", u64::MAX)));
}

#[test]
fn naive_engine_params_for_quic() {
    let mut options = NaiveClientOptions::new("https://proxy.example:443".to_string());
    options.quic = true;
    options.quic_congestion_control = "BBR".to_string();
    options.receive_window = 100;
    let params = NaiveClient::engine_params(&options, false).expect("params");
    assert_eq!(params.enable_quic, Some(true));
    assert_eq!(params.enable_http2, None);
    assert_eq!(
        params.experimental_options.as_deref(),
        Some(
            "{\"QUIC\":{\"connection_options\":\"BBR\",\"initial_session_recv_window_size\":15728640,\"initial_stream_recv_window_size\":100},\"SocketPoolOptions\":{\"max_sockets_per_group\":2040,\"max_sockets_per_pool\":2048,\"max_sockets_per_proxy_chain\":2048}}"
        )
    );
}

#[test]
fn naive_start_plans() {
    let mut options = NaiveClientOptions::new("https://Proxy.Example:8443/path".to_string());
    options.username = Some("user".to_string());
    options.password = Some("pass".to_string());
    options.insecure_concurrency = 0;
    options.server_address = Some("192.0.2.7".to_string());
    options.ech_enabled = true;
    options.ech_config_list = vec![1, 2];
    let plan = NaiveClient::start(options, true).ok().expect("plan");
    assert_eq!(plan.options.insecure_concurrency, 1);
    assert_eq!(plan.authorization.as_deref(), Some("Basic dXNlcjpwYXNz"));
    assert_eq!(
        plan.server_redirect,
        Some(("proxy.example".to_string(), "192.0.2.7".to_string()))
    );
    let ech = plan.ech.expect("ech");
    assert_eq!(ech.server_name, "proxy.example");
    assert_eq!(ech.query_server_name, "proxy.example");
    assert_eq!(ech.config_list, vec![1, 2]);
    assert_eq!(plan.params.enable_http2, Some(true));

    let mut precomputed = NaiveClientOptions::new("https://proxy.example".to_string());
    precomputed.proxy_authorization = Some("Bearer token".to_string());
    precomputed.username = Some("ignored".to_string());
    let plan = NaiveClient::start(precomputed, false).ok().expect("plan");
    assert_eq!(plan.authorization.as_deref(), Some("Bearer token"));
    assert!(plan.server_redirect.is_none());
    assert!(plan.ech.is_none());
}

#[test]
fn naive_start_errors() {
    let mut quic = NaiveClientOptions::new("https://proxy.example".to_string());
    quic.quic = true;
    quic.insecure_concurrency = 2;
    assert!(matches!(
        NaiveClient::start_with_params(quic, false, EngineParams::new()),
        Err(NaiveClientStartError::InsecureConcurrencyWithQuic)
    ));
    let bad = NaiveClientOptions::new("not a url".to_string());
    assert!(matches!(
        NaiveClient::start_with_params(bad, false, EngineParams::new()),
        Err(NaiveClientStartError::InvalidProxyUrl(_))
    ));
    let hostless = NaiveClientOptions::new("data:text/plain,hello".to_string());
    assert!(matches!(
        NaiveClient::start_with_params(hostless, false, EngineParams::new()),
        Err(NaiveClientStartError::MissingServerName)
    ));
    let mut named = NaiveClientOptions::new("unix:/run/naive.sock".to_string());
    named.server_name = Some("proxy.example".to_string());
    let plan = NaiveClient::start_with_params(named, true, EngineParams::new()).ok().expect("plan");
    assert!(plan.server_redirect.is_none());
    let mut named = NaiveClientOptions::new("unix:/run/naive.sock".to_string());
    named.server_name = Some("proxy.example".to_string());
    named.server_address = Some("192.0.2.7".to_string());
    let plan = NaiveClient::start_with_params(named, true, EngineParams::new()).ok().expect("plan");
    assert_eq!(plan.server_redirect, Some(("proxy.example".to_string(), "192.0.2.7".to_string())));
    let mut params = EngineParams::new();
    params.experimental_options("[1, 2]");
    let mut options = NaiveClientOptions::new("https://proxy.example".to_string());
    options.quic = true;
    assert!(matches!(
        NaiveClient::start_with_params(options, false, params),
        Ok(plan) if plan.params.experimental_options.as_deref() == Some("[1, 2]")
    ));
}

#[test]
fn naive_dials_round_robin_over_pools() {
    let mut options = NaiveClientOptions::new("https://proxy.example".to_string());
    options.insecure_concurrency = 3;
    options.extra_headers = vec![header("x-extra", "1")];
    let plan = NaiveClient::start(options, false).ok().expect("plan");
    let mut client = NaiveClient::new(plan);
    let keys: Vec<Option<String>> =
        (0..4).map(|_| client.dial_early("example.com:443".to_string()).network_isolation_key).collect();
    assert_eq!(
        keys,
        vec![
            Some("https://pool-0:443".to_string()),
            Some("https://pool-1:443".to_string()),
            Some("https://pool-2:443".to_string()),
            Some("https://pool-0:443".to_string()),
        ]
    );
    let dial = client.dial_early("example.org:80".to_string());
    assert_eq!(dial.destination, "example.org:80");
    assert_eq!(dial.proxy_url, "https://proxy.example");
    assert_eq!(dial.extra_headers, vec![header("x-extra", "1")]);
    assert!(!dial.force_quic);

    let single = NaiveClient::start(NaiveClientOptions::new("https://proxy.example".to_string()), false)
        .ok()
        .expect("plan");
    let mut single = NaiveClient::new(single);
    assert_eq!(single.dial_early("a:1".to_string()).network_isolation_key, None);
    assert_eq!(single.counter, 0);
}

#[test]
fn naive_padding_round_trip() {
    let mut writer = NaivePadding::new();
    let mut wire = Vec::new();
    let mut sent = Vec::new();
    for i in 0..10u8 {
        let chunk = vec![i; (i as usize) + 1];
        let (record, taken) = writer.write_record(&chunk);
        assert_eq!(taken, chunk.len());
        if i < PADDING_CHUNKS as u8 {
            assert_eq!(record[0], 0);
            assert_eq!(record[1], (i + 1) as u8);
            assert_eq!(record.len(), 3 + chunk.len() + record[2] as usize);
        } else {
            assert_eq!(record, chunk);
        }
        writer.record_sent();
        wire.extend_from_slice(&record);
        sent.extend_from_slice(&chunk);
    }
    let mut reader = NaivePadding::new();
    assert_eq!(reader.decode(&wire), sent);

    let mut in_pieces = NaivePadding::new();
    let mut pieces = Vec::new();
    for part in wire.chunks(7) {
        pieces.extend(in_pieces.decode(part));
    }
    assert_eq!(pieces, sent);
    assert_eq!(writer.write_record(&[]), (Vec::new(), 0));
}

#[test]
fn naive_padding_large_write_is_split() {
    let writer = NaivePadding::new();
    let input = vec![7u8; 70000];
    let (record, taken) = writer.write_record(&input);
    assert_eq!(taken, 65535);
    assert_eq!(record[0], 0xff);
    assert_eq!(record[1], 0xff);
}

#[test]
fn padding_header_shape() {
    for _ in 0..20 {
        let value = padding_header();
        let chars: Vec<char> = value.chars().collect();
        assert!((30..62).contains(&chars.len()));
        assert!(chars[..16].iter().all(|c| "!#$()+<>?@[]^`{}".contains(*c)));
        assert!(chars[16..].iter().all(|c| *c == '~'));
    }
}

#[test]
fn connect_headers_in_order() {
    let mut options = NaiveConnectOptions::new("https://proxy.example".to_string(), "example.com:443".to_string());
    assert_eq!(options.read_buffer_size, 32 * 1024);
    options.proxy_authorization = Some("Basic abc".to_string());
    options.force_quic = true;
    options.network_isolation_key = Some("https://pool-1:443".to_string());
    options.extra_headers = vec![header("x", "y")];
    let headers = options.connect_headers("pad".to_string());
    assert_eq!(
        headers,
        vec![
            header("-connect-authority", "example.com:443"),
            header("Padding", "pad"),
            header("proxy-authorization", "Basic abc"),
            header("-force-quic", "true"),
            header("-network-isolation-key", "https://pool-1:443"),
            header("x", "y"),
        ]
    );
}

#[test]
fn handshake_checks_status() {
    let ok = vec![header("server", "x"), header(":status", "200"), header(":status", "500")];
    assert_eq!(NaiveConnection::handshake(&ok, "h2".to_string()), Ok("h2".to_string()));
    let refused = vec![header(":status", "403")];
    let error = NaiveConnection::handshake(&refused, "h2".to_string()).unwrap_err();
    assert_eq!(error.message(), "Naive CONNECT returned status 403");
    let missing = NaiveConnection::handshake(&Vec::new(), "h2".to_string()).unwrap_err();
    assert_eq!(missing.message(), "Naive CONNECT returned status missing");
}

#[test]
fn error_codes_and_texts() {
    assert!(Error::from_result(0).is_ok());
    let error = Error::from_result(-100).unwrap_err();
    assert_eq!(error.code(), -100);
    assert_eq!(error.to_string(), "Cronet operation failed with result code -100");
    assert_eq!(NetError::from_kind(IoErrorKind::HostUnreachable).code(), -109);
    assert_eq!(NetError::from_kind(IoErrorKind::Other), NetError::connection_failed());
    assert_eq!(NetError(-3).to_string(), "Chromium network error -3");
    assert_eq!(NetError::aborted().code(), -3);
}

#[test]
fn status_and_finished_reason_codes() {
    assert_eq!(RequestStatus::from_raw(0), RequestStatus::Idle);
    assert_eq!(RequestStatus::from_raw(14), RequestStatus::ReadingResponse);
    assert_eq!(RequestStatus::from_raw(15), RequestStatus::Unknown(15));
    assert_eq!(RequestStatus::from_raw(-1), RequestStatus::Unknown(-1));
    assert_eq!(FinishedReason::from(1), FinishedReason::Failed);
    assert_eq!(finished_reason(2), FinishedReason::Canceled);
    assert_eq!(finished_reason(9), FinishedReason::Unknown(9));
}

#[test]
fn handles_carry_their_address() {
    assert_eq!(RequestHandle::from_raw(42).as_raw(), 42);
    assert_eq!(BidirectionalStreamHandle::from_raw(7).as_raw(), 7);
}

#[test]
fn stream_errors_and_timeouts() {
    assert_eq!(StreamError::Failed(-101).message(), "Chromium net error -101");
    assert_eq!(StreamError::TimedOut(WaitOperation::Reading).message(), "timed out while reading bidirectional stream");
    assert_eq!(StreamError::Completed.kind(), StreamErrorKind::UnexpectedEof);
    assert_eq!(StreamError::Canceled.kind(), StreamErrorKind::Interrupted);
    assert_eq!(timeout_deadline(10, None), Ok(None));
    assert_eq!(timeout_deadline(10, Some(5)), Ok(Some(15)));
    assert_eq!(timeout_deadline(10, Some(0)), Err(StreamError::ZeroTimeout));
    assert_eq!(timeout_deadline(u64::MAX, Some(1)), Err(StreamError::TimeoutTooLarge));
}

#[test]
fn connection_state_machine() {
    let handle = BidirectionalStreamHandle::from_raw(1);
    let mut connection = BidirectionalConnection::new(0);
    assert_eq!(connection.read.buffer.len(), 1);
    let mut connection2 = BidirectionalConnection::new(8);
    assert!(connection2.awaiting_headers());
    connection2.on_response_headers(handle, vec![header(":status", "200")], "h2".to_string());
    assert!(!connection2.awaiting_headers());
    assert_eq!(
        connection2.wait_for_headers(false),
        Ok((vec![header(":status", "200")], "h2".to_string()))
    );
    assert!(connection2.awaiting_ready());
    connection2.on_stream_ready(handle);
    assert_eq!(connection2.wait_ready(false), Ok(()));

    connection2.read.buffer = b"abcdefgh".to_vec();
    connection2.on_read_completed(handle, 8);
    let mut out = [0u8; 5];
    assert_eq!(connection2.read_available(&mut out), ReadStep::Copied(5));
    assert_eq!(&out, b"abcde");
    let mut rest = [0u8; 5];
    assert_eq!(connection2.read_available(&mut rest), ReadStep::Copied(3));
    assert_eq!(&rest[..3], b"fgh");

    connection.on_failed(handle, -7);
    assert_eq!(connection.terminal_error(), Some(StreamError::Failed(-7)));
    assert_eq!(connection.wait_ready(false), Err(StreamError::Failed(-7)));
    assert!(BidirectionalConnection::start(false).is_err());
    assert!(BidirectionalConnection::start(true).is_ok());

    let mut timed = BidirectionalConnection::new(4);
    assert_eq!(timed.set_read_timeout(100, Some(0)), Err(StreamError::ZeroTimeout));
    assert_eq!(timed.set_read_timeout(100, Some(50)), Ok(()));
    assert_eq!(timed.read_deadline, Some(150));
    timed.set_deadline(None);
    assert_eq!(timed.read_deadline, None);
    assert_eq!(timed.write_deadline, None);
}

#[test]
fn rewriting_there_and_back_restores_the_query() {
    let there = rewrite_https_query_name("_443._https.Proxy.Example.", "proxy.example", "ech.example");
    assert_eq!(there, "_443._https.ech.example.");
    let back = rewrite_https_query_name(&there, "ech.example", "proxy.example");
    assert_eq!(back, "_443._https.proxy.example.");
    assert!(same_dns_name(&back, "_443._https.Proxy.Example."));
    let plain = rewrite_https_query_name(&rewrite_https_query_name("proxy.example", "proxy.example", "b"), "b", "proxy.example");
    assert_eq!(plain, "proxy.example.");
}

#[test]
fn engine_params_setters() {
    let mut params = EngineParams::new();
    params
        .user_agent("agent/1")
        .accept_language("en")
        .storage_path("/tmp/cronet")
        .enable_quic(true)
        .enable_http2(false)
        .enable_brotli(true)
        .cache(cronet::CacheMode::Disk, 1024)
        .enable_check_result(true)
        .bypass_pinning_for_local_trust_anchors(false)
        .quic_hint("example.com", 443, 8443)
        .public_key_pins("example.com", vec!["pin".to_string()], true, 99);
    assert_eq!(params.user_agent.as_deref(), Some("agent/1"));
    assert_eq!(params.accept_language.as_deref(), Some("en"));
    assert_eq!(params.storage_path.as_deref(), Some("/tmp/cronet"));
    assert_eq!(params.enable_quic, Some(true));
    assert_eq!(params.enable_http2, Some(false));
    assert_eq!(params.enable_brotli, Some(true));
    assert_eq!(params.cache, Some((cronet::CacheMode::Disk, 1024)));
    assert_eq!(params.enable_check_result, Some(true));
    assert_eq!(params.bypass_pinning_for_local_trust_anchors, Some(false));
    assert_eq!(params.quic_hints.len(), 1);
    assert_eq!(params.quic_hints[0].host, "example.com");
    assert_eq!(params.quic_hints[0].alternate_port, 8443);
    assert_eq!(params.public_key_pins[0].pins_sha256, vec!["pin".to_string()]);
    assert_eq!(params.public_key_pins[0].expiration_unix_millis, 99);
    assert_eq!(cronet::CacheMode::Disk.raw(), 3);
    assert_eq!(cronet::RequestPriority::Highest.raw(), 4);
}

#[test]
fn request_params_setters() {
    let mut params = cronet::RequestParams::new();
    params
        .method("POST")
        .disable_cache(true)
        .priority(cronet::RequestPriority::Low)
        .allow_direct_executor(true)
        .header(header("a", "1"));
    assert_eq!(params.method.as_deref(), Some("POST"));
    assert_eq!(params.disable_cache, Some(true));
    assert_eq!(params.priority, Some(cronet::RequestPriority::Low));
    assert_eq!(params.allow_direct_executor, Some(true));
    assert_eq!(params.headers, vec![header("a", "1")]);
}

#[test]
fn net_error_constants() {
    assert_eq!(NetError::connection_closed().code(), -100);
    assert_eq!(NetError::connection_reset().code(), -101);
    assert_eq!(NetError::connection_refused().code(), -102);
    assert_eq!(NetError::connection_aborted().code(), -103);
    assert_eq!(NetError::connection_failed().code(), -104);
    assert_eq!(NetError::address_unreachable().code(), -109);
    assert_eq!(NetError::connection_timed_out().code(), -118);
    assert_eq!(NetError::timed_out().code(), -7);
}

#[test]
fn padded_reads_never_take_more_payload_than_wanted() {
    let mut reader = NaivePadding::new();
    assert_eq!(reader.next_raw_read(10), RawRead::Exact(3));
    reader.decode(&[0, 5, 2]);
    assert_eq!(reader.next_raw_read(3), RawRead::Once(3));
    assert_eq!(reader.decode(b"abc"), b"abc".to_vec());
    assert_eq!(reader.next_raw_read(10), RawRead::Once(2));
    assert_eq!(reader.decode(b"de"), b"de".to_vec());
    assert_eq!(reader.next_raw_read(10), RawRead::Exact(2));
    assert!(reader.decode(&[0, 0]).is_empty());
    assert_eq!(reader.next_raw_read(10), RawRead::Exact(3));
}

#[test]
fn forwarded_address_queries_are_renamed_back() {
    let upstream = |wire: &[u8]| -> std::io::Result<Vec<u8>> {
        let request = Message::from_vec(wire).expect("decode forwarded query");
        assert_eq!(request.queries[0].name().to_ascii(), "backend.example.");
        let owner = request.queries[0].name().clone();
        let mut response = request.into_response();
        response.add_answer(Record::from_rdata(owner, 60, RData::A(A::new(198, 51, 100, 4))));
        Ok(response.to_vec().expect("encode"))
    };
    let mut query = Message::query();
    query.add_query(Query::query(Name::from_ascii("front.example.").expect("name"), RecordType::A));
    let wire = resolve_with_server_redirect(&upstream, "front.example.", "backend.example", &query.to_vec().unwrap())
        .expect("resolve");
    let response = Message::from_vec(&wire).expect("decode");
    assert_eq!(response.queries[0].name().to_ascii(), "front.example.");
    assert_eq!(response.answers[0].name.to_ascii(), "front.example.");

    let passthrough = |wire: &[u8]| -> std::io::Result<Vec<u8>> { Ok(wire.to_vec()) };
    let mut other = Message::query();
    other.add_query(Query::query(Name::from_ascii("other.example.").expect("name"), RecordType::A));
    let other_wire = other.to_vec().unwrap();
    assert_eq!(
        resolve_with_server_redirect(&passthrough, "front.example", "192.0.2.7", &other_wire)
            .unwrap(),
        other_wire
    );
    assert!(resolve_with_server_redirect(&passthrough, "front.example", "192.0.2.7", &[1, 2]).is_err());
}

#[test]
fn tcp_dns_framing() {
    let framed = cronet::dns::tcp_framed(&[1, 2, 3]).expect("short response");
    assert_eq!(framed, vec![0, 3, 1, 2, 3]);
    assert_eq!(cronet::dns::tcp_message_length(framed[0], framed[1]), 3);
    assert_eq!(cronet::dns::tcp_message_length(1, 2), 258);
    assert!(cronet::dns::tcp_framed(&vec![0u8; 65536]).is_none());
    assert_eq!(cronet::dns::tcp_framed(&vec![7u8; 65535]).expect("longest")[..2], [0xff, 0xff]);
}

#[test]
fn partial_copy_keeps_the_completed_read() {
    let mut read = ReadState { buffer: b"abcdefgh".to_vec(), pending: false, completed: Some(8), offset: 0, eof: false };
    let mut first = [0_u8; 3];
    assert_eq!(copy_available(&mut read, &mut first), Some(3));
    assert_eq!(read.completed, Some(8));
    assert_eq!(read.offset, 3);
    assert_eq!(read.buffer, b"abcdefgh".to_vec());
    let mut rest = [9_u8; 10];
    assert_eq!(copy_available(&mut read, &mut rest), Some(5));
    assert_eq!(&rest, b"defgh\x09\x09\x09\x09\x09");
    assert_eq!(read.completed, None);
    assert_eq!(read.offset, 0);
}

#[test]
fn padding_bytes_of_any_value_are_dropped() {
    let mut padding = NaivePadding::new();
    let out = padding.decode(&[0, 2, 3, b'h', b'i', 0xff, 0x17, 0x80, 0, 1, 0, b'!']);
    assert_eq!(out, b"hi!".to_vec());
}

#[test]
fn injected_ech_answer_carries_its_values() {
    let options = EchOptions {
        server_name: "proxy.example".into(),
        query_server_name: "proxy.example".into(),
        config_list: vec![1, 2, 3, 4],
        quic: true,
    };
    let upstream = |_: &[u8]| -> std::io::Result<Vec<u8>> { panic!("not asked") };
    let mut query = Message::query();
    query.add_query(Query::query(Name::from_ascii("_8443._https.proxy.example.").unwrap(), RecordType::HTTPS));
    let response = Message::from_vec(&resolve_with_ech(&upstream, &options, &query.to_vec().unwrap()).unwrap()).unwrap();
    assert_eq!(response.metadata.message_type, MessageType::Response);
    assert_eq!(response.answers.len(), 1);
    assert_eq!(response.answers[0].ttl, 300);
    assert_eq!(response.answers[0].name.to_ascii(), "_8443._https.proxy.example.");
    let RData::HTTPS(HTTPS(svcb)) = &response.answers[0].data else { panic!("expected HTTPS answer") };
    assert_eq!(svcb.svc_priority, 1);
    assert_eq!(svcb.svc_params[0].0, SvcParamKey::Alpn);
    assert!(matches!(&svcb.svc_params[0].1, SvcParamValue::Alpn(alpn) if alpn.0 == vec!["h3".to_string()]));
    assert!(matches!(&svcb.svc_params[1].1, SvcParamValue::Port(8443)));
}

#[test]
fn synthesized_answers_carry_address_and_ttl() {
    let upstream = |_: &[u8]| -> std::io::Result<Vec<u8>> { panic!("not asked") };
    let mut query = Message::query();
    query.add_query(Query::query(Name::from_ascii("front.example.").unwrap(), RecordType::AAAA));
    let wire = resolve_with_server_redirect(
        &upstream,
        "front.example",
        "[2001:db8::7]",
        &query.to_vec().unwrap(),
    )
    .unwrap();
    let response = Message::from_vec(&wire).unwrap();
    assert_eq!(response.metadata.message_type, MessageType::Response);
    assert_eq!(response.answers[0].ttl, 300);
    assert!(matches!(
        response.answers[0].data,
        RData::AAAA(AAAA(address)) if address.octets() == [0x20, 0x01, 0x0d, 0xb8, 0, 0, 0, 0, 0, 0, 0, 0, 0, 0, 0, 7]
    ));
    let mut query = Message::query();
    query.add_query(Query::query(Name::from_ascii("front.example.").unwrap(), RecordType::A));
    let wire = resolve_with_server_redirect(
        &upstream,
        "front.example",
        "[2001:db8::7]",
        &query.to_vec().unwrap(),
    )
    .unwrap();
    let response = Message::from_vec(&wire).unwrap();
    assert_eq!(response.metadata.message_type, MessageType::Response);
    assert!(response.answers.is_empty());
}

#[test]
fn ip_literals_are_recognised() {
    let cases: [(&str, Option<IpLiteral>); 38] = [
        ("192.0.2.7", Some(IpLiteral::V4(192, 0, 2, 7))),
        ("0.0.0.0", Some(IpLiteral::V4(0, 0, 0, 0))),
        ("255.255.255.255", Some(IpLiteral::V4(255, 255, 255, 255))),
        ("256.1.1.1", None),
        ("01.2.3.4", None),
        ("1.2.3", None),
        ("1.2.3.4.5", None),
        ("1..2.3", None),
        ("::", Some(IpLiteral::V6(0, 0, 0, 0, 0, 0, 0, 0))),
        ("::1", Some(IpLiteral::V6(0, 0, 0, 0, 0, 0, 0, 1))),
        ("1::", Some(IpLiteral::V6(1, 0, 0, 0, 0, 0, 0, 0))),
        ("2001:db8::7", Some(IpLiteral::V6(0x2001, 0xdb8, 0, 0, 0, 0, 0, 7))),
        ("2001:DB8:0:0:0:0:0:7", Some(IpLiteral::V6(0x2001, 0xdb8, 0, 0, 0, 0, 0, 7))),
        ("1:2:3:4:5:6:7:8", Some(IpLiteral::V6(1, 2, 3, 4, 5, 6, 7, 8))),
        ("1:2:3:4:5:6:7:8:9", None),
        ("1:2:3:4:5:6:7::", Some(IpLiteral::V6(1, 2, 3, 4, 5, 6, 7, 0))),
        ("::1:2:3:4:5:6:7", Some(IpLiteral::V6(0, 1, 2, 3, 4, 5, 6, 7))),
        ("1::2:3:4:5:6:7:8", None),
        (":1", None),
        ("1:", None),
        ("1:::2", None),
        (":::", None),
        ("1::2::3", None),
        ("::ffff:192.0.2.7", Some(IpLiteral::V6(0, 0, 0, 0, 0, 0xffff, 0xc000, 0x0207))),
        ("1:2:3:4:5:6:1.2.3.4", Some(IpLiteral::V6(1, 2, 3, 4, 5, 6, 0x0102, 0x0304))),
        ("1:2:3:4:5:6:7:1.2.3.4", None),
        ("1:2:3:4:5:6::1.2.3.4", None),
        ("1.2.3.4::", None),
        ("12345::", None),
        ("0001:0002::", Some(IpLiteral::V6(1, 2, 0, 0, 0, 0, 0, 0))),
        ("g::", None),
        ("front.example", None),
        ("", None),
        ("1:2:3:4:5:1.2.3.4:6", None),
        ("::1.2.3.04", None),
        ("[::1]", Some(IpLiteral::V6(0, 0, 0, 0, 0, 0, 0, 1))),
        ("[192.0.2.7]", Some(IpLiteral::V4(192, 0, 2, 7))),
        ("00000::1", None),
    ];
    for (text, expected) in cases {
        assert_eq!(cronet::ip::ip_literal(text), expected, "{text}");
    }
}

#[test]
fn local_replies_keep_the_query_id() {
    let upstream = |_: &[u8]| -> std::io::Result<Vec<u8>> { panic!("not asked") };
    let mut query = Message::query();
    query.metadata.id = 0x1234;
    query.add_query(Query::query(Name::from_ascii("front.example.").unwrap(), RecordType::A));
    let wire = resolve_with_server_redirect(&upstream, "front.example", "192.0.2.7", &query.to_vec().unwrap()).unwrap();
    let response = Message::from_vec(&wire).unwrap();
    assert_eq!(response.metadata.id, 0x1234);
    assert_eq!(response.metadata.message_type, MessageType::Response);
}

#[test]
fn dial_errors_carry_the_code_of_their_kind() {
    let error = std::io::Error::from(std::io::ErrorKind::ConnectionReset);
    let result = udp_error(&error);
    assert_eq!(result.fd, -101);
    assert_eq!(NetError::from_io(&std::io::Error::from(std::io::ErrorKind::PermissionDenied)).code(), -104);
}
