use cronet::bidirectional_conn::{copy_available, ReadState};
use cronet::naive_client::nonzero_or;
use cronet::dns::EchOptions;
use cronet::dns_message::{resolve_with_ech, resolve_with_server_redirect};
use cronet::{NaiveClientOptions, NetError};
use hickory_proto::op::{Message, Query};
use hickory_proto::rr::rdata::svcb::{IpHint, SvcParamKey, SvcParamValue};
use hickory_proto::rr::rdata::{A, HTTPS, SVCB};
use hickory_proto::rr::{Name, RData, Record, RecordType};

#[test]
fn preserves_unconsumed_native_read_bytes() {
    let mut read = ReadState {
        buffer: b"abcdefgh".to_vec(),
        pending: false,
        completed: Some(8),
        offset: 0,
        eof: false,
    };
    let mut first = [0_u8; 3];
    let mut second = [0_u8; 5];
    assert_eq!(copy_available(&mut read, &mut first), Some(3));
    assert_eq!(&first, b"abc");
    assert_eq!(copy_available(&mut read, &mut second), Some(5));
    assert_eq!(&second, b"defgh");
    assert_eq!(read.completed, None);
}

#[test]
fn defaults_match_upstream_pool_behavior() {
    let options = NaiveClientOptions::new("https://proxy.example:443".to_string());
    assert_eq!(options.insecure_concurrency, 1);
    assert!(!options.quic);
    assert_eq!(nonzero_or(0, 42), 42);
    assert_eq!(nonzero_or(7, 42), 7);
}

#[test]
fn maps_common_io_errors() {
    assert_eq!(
        NetError::from_io(&std::io::Error::from(std::io::ErrorKind::ConnectionRefused)),
        NetError::connection_refused()
    );
    assert_eq!(
        NetError::from_io(&std::io::Error::from(std::io::ErrorKind::TimedOut)),
        NetError::connection_timed_out()
    );
}

fn https_query(name: &str) -> Vec<u8> {
    let mut message = Message::query();
    message.add_query(Query::query(Name::from_ascii(name).expect("query name"), RecordType::HTTPS));
    message.to_vec().expect("encode query")
}

fn invalid_dns(error: impl std::fmt::Display) -> std::io::Error {
    std::io::Error::new(std::io::ErrorKind::InvalidData, error.to_string())
}

#[test]
fn injects_fixed_ech_config_with_protocol_and_service_port() {
    let options = EchOptions {
        server_name: "proxy.example".into(),
        query_server_name: "proxy.example".into(),
        config_list: vec![1, 2, 3, 4],
        quic: true,
    };
    let upstream = |_: &[u8]| -> std::io::Result<Vec<u8>> { panic!("fixed ECH must not call the upstream resolver") };
    let response =
        resolve_with_ech(&upstream, &options, &https_query("_8443._https.proxy.example.")).expect("resolve fixed ECH");
    let response = Message::from_vec(&response).expect("decode response");
    let RData::HTTPS(HTTPS(svcb)) = &response.answers[0].data else {
        panic!("expected HTTPS answer");
    };
    assert_eq!(svcb.target_name.to_ascii(), "proxy.example.");
    assert_eq!(
        svcb.svc_params.iter().map(|(key, _)| *key).collect::<Vec<_>>(),
        [SvcParamKey::Alpn, SvcParamKey::Port, SvcParamKey::EchConfigList]
    );
    assert!(matches!(
        &svcb.svc_params[2].1,
        SvcParamValue::EchConfigList(config) if config.0 == [1, 2, 3, 4]
    ));
}

#[test]
fn redirects_https_query_rewrites_names_and_filters_ip_hints() {
    let upstream = |wire: &[u8]| -> std::io::Result<Vec<u8>> {
        let request = Message::from_vec(wire).expect("decode redirected query");
        assert_eq!(request.queries[0].name().to_ascii(), "ech.example.");
        let owner = request.queries[0].name().clone();
        let params = vec![(SvcParamKey::Ipv4Hint, SvcParamValue::Ipv4Hint(IpHint(vec![A::new(192, 0, 2, 1)])))];
        let mut response = request.into_response();
        response.add_answer(Record::from_rdata(owner.clone(), 300, RData::HTTPS(HTTPS(SVCB::new(1, owner, params)))));
        response.to_vec().map_err(invalid_dns)
    };
    let options = EchOptions {
        server_name: "proxy.example".into(),
        query_server_name: "ech.example".into(),
        config_list: Vec::new(),
        quic: false,
    };
    let response = Message::from_vec(&resolve_with_ech(&upstream, &options, &https_query("proxy.example.")).expect("resolve"))
        .expect("decode response");
    assert_eq!(response.queries[0].name().to_ascii(), "proxy.example.");
    let answer = &response.answers[0];
    assert_eq!(answer.name.to_ascii(), "proxy.example.");
    let RData::HTTPS(HTTPS(svcb)) = &answer.data else {
        panic!("expected HTTPS answer");
    };
    assert_eq!(svcb.target_name.to_ascii(), "proxy.example.");
    assert!(svcb.svc_params.is_empty());
}

#[test]
fn synthesizes_server_address_for_tls_name() {
    let upstream = |_: &[u8]| -> std::io::Result<Vec<u8>> { panic!("IP redirect must not call the upstream resolver") };
    let mut query = Message::query();
    query.add_query(Query::query(Name::from_ascii("front.example.").expect("name"), RecordType::A));
    let response = resolve_with_server_redirect(
        &upstream,
        "front.example",
        "192.0.2.7",
        &query.to_vec().expect("encode"),
    )
    .and_then(|wire| Message::from_vec(&wire).map_err(invalid_dns))
    .expect("resolve");
    assert_eq!(response.queries[0].name().to_ascii(), "front.example.");
    assert!(matches!(
        response.answers[0].data,
        RData::A(A(address)) if address.octets() == [192, 0, 2, 7]
    ));
}
