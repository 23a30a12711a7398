use backplane::decimal::parse_port;
use backplane::settings::{
    Endpoint, FileSettings, StreamOption, StreamSettings, StreamSettingsParseError,
    TcpClientSettings, TcpServerSettings, UdpSettings,
};

#[test]
fn port_text_reads_decimal() {
    assert_eq!(parse_port("8000"), Some(8000));
    assert_eq!(parse_port("0"), Some(0));
    assert_eq!(parse_port("080"), Some(80));
    assert_eq!(parse_port("65535"), Some(65535));
}

#[test]
fn port_text_out_of_range_or_malformed() {
    assert_eq!(parse_port("65536"), None);
    assert_eq!(parse_port("99999999999"), None);
    assert_eq!(parse_port(""), None);
    assert_eq!(parse_port("12a"), None);
    assert_eq!(parse_port("-1"), None);
}

#[test]
fn file_settings_parse_and_format() {
    let f = FileSettings::from_str("file:data/in.bin").unwrap();
    assert_eq!(f.file_name, "data/in.bin");
    assert_eq!(f.to_string(), "file:data/in.bin");
    assert_eq!(FileSettings::from_str("file:").unwrap().file_name, "");
    assert_eq!(FileSettings::from_str("tcp_client:1.2.3.4:5"), Err(StreamSettingsParseError));
}

#[test]
fn tcp_client_settings_parse_and_format() {
    let t = TcpClientSettings::from_str("tcp_client:127.0.0.1:8000").unwrap();
    assert_eq!(t.ip, "127.0.0.1");
    assert_eq!(t.port, 8000);
    assert_eq!(t.to_string(), "tcp_client:127.0.0.1:8000");
}

#[test]
fn tcp_server_settings_use_their_own_prefix() {
    let t = TcpServerSettings::from_str("tcp_server:0.0.0.0:9000").unwrap();
    assert_eq!(t.ip, "0.0.0.0");
    assert_eq!(t.port, 9000);
    assert_eq!(t.to_string(), "tcp_server:0.0.0.0:9000");
    assert!(TcpServerSettings::from_str("tcp_client:0.0.0.0:9000").is_err());
}

#[test]
fn udp_settings_parse_and_format() {
    let u = UdpSettings::from_str("udp:10.0.0.2:8001").unwrap();
    assert_eq!(u.ip, "10.0.0.2");
    assert_eq!(u.port, 8001);
    assert_eq!(u.to_string(), "udp:10.0.0.2:8001");
    assert!(UdpSettings::from_str("tcp_client:10.0.0.2:8001").is_err());
}

#[test]
fn malformed_network_descriptors_are_rejected() {
    assert!(TcpClientSettings::from_str("tcp_client:127.0.0.1").is_err());
    assert!(TcpClientSettings::from_str("tcp_client:127.0.0.1:").is_err());
    assert!(TcpClientSettings::from_str("tcp_client:127.0.0.1:70000").is_err());
    assert!(TcpClientSettings::from_str("tcp_client:127.0.0.1:80:90").is_err());
    assert!(TcpClientSettings::from_str("tcp_client:127.0.0.1:port").is_err());
    assert!(TcpClientSettings::from_str("tcp:127.0.0.1:80").is_err());
    assert!(Endpoint::from_str("serial:/dev/tty0").is_err());
    assert!(Endpoint::from_str("").is_err());
}

#[test]
fn defaults() {
    let s = StreamSettings::default();
    assert_eq!(s.file.file_name, "data.bin");
    assert_eq!(s.tcp_client.ip, "127.0.0.1");
    assert_eq!(s.tcp_client.port, 8000);
    assert_eq!(s.tcp_server.ip, "127.0.0.1");
    assert_eq!(s.tcp_server.port, 8000);
    assert_eq!(s.udp.ip, "127.0.0.1");
    assert_eq!(s.udp.port, 8001);
}

#[test]
fn descriptor_round_trip_every_kind() {
    let texts = [
        "file:/tmp/x y.bin",
        "tcp_client:192.168.1.1:1",
        "tcp_server:localhost:65535",
        "udp:127.0.0.1:0",
    ];
    for t in texts.iter() {
        let e = Endpoint::from_str(t).unwrap();
        let again = Endpoint::from_str(&e.to_string()).unwrap();
        assert_eq!(again, e);
        assert_eq!(e.to_string(), *t);
    }
}

#[test]
fn descriptor_kinds() {
    assert_eq!(Endpoint::from_str("file:a").unwrap().option(), StreamOption::File);
    assert_eq!(Endpoint::from_str("tcp_client:a:1").unwrap().option(), StreamOption::TcpClient);
    assert_eq!(Endpoint::from_str("tcp_server:a:1").unwrap().option(), StreamOption::TcpServer);
    assert_eq!(Endpoint::from_str("udp:a:1").unwrap().option(), StreamOption::Udp);
}

#[test]
fn settings_select_and_store_endpoints() {
    let mut s = StreamSettings::default();
    let k = s.set_endpoint(Endpoint::from_str("udp:10.1.1.1:7000").unwrap());
    assert_eq!(k, StreamOption::Udp);
    assert_eq!(s.udp.port, 7000);
    assert_eq!(s.tcp_client.port, 8000);
    assert_eq!(s.endpoint(StreamOption::Udp).to_string(), "udp:10.1.1.1:7000");
    assert_eq!(s.endpoint(StreamOption::File).to_string(), "file:data.bin");
    assert_eq!(s.endpoint(StreamOption::TcpServer).to_string(), "tcp_server:127.0.0.1:8000");
}

#[test]
fn parse_error_text() {
    assert_eq!(StreamSettingsParseError.description(), "error parsing stream settings");
    assert_eq!(StreamSettingsParseError.to_string(), "error parsing stream settings");
}

#[test]
fn settings_parse_through_from_str_trait() {
    let f: FileSettings = "file:out.bin".parse().unwrap();
    assert_eq!(f.file_name, "out.bin");
    let t: TcpServerSettings = "tcp_server:127.0.0.1:8080".parse().unwrap();
    assert_eq!(t.port, 8080);
    let e: Endpoint = "udp:127.0.0.1:9".parse().unwrap();
    assert_eq!(e.option(), StreamOption::Udp);
    assert!("udp:127.0.0.1".parse::<UdpSettings>().is_err());
    assert!("file:x".parse::<TcpClientSettings>().is_err());
}

#[test]
fn port_with_leading_plus() {
    assert_eq!(parse_port("+80"), Some(80));
    assert_eq!(parse_port("+"), None);
    assert_eq!(parse_port("++80"), None);
    assert_eq!(parse_port("+65536"), None);
    let t = TcpClientSettings::from_str("tcp_client:10.0.0.1:+80").unwrap();
    assert_eq!(t.port, 80);
    assert_eq!(t.to_string(), "tcp_client:10.0.0.1:80");
    assert_eq!(TcpServerSettings::from_str("tcp_server:10.0.0.1:+8080").unwrap().port, 8080);
    assert_eq!(UdpSettings::from_str("udp:10.0.0.1:+9").unwrap().port, 9);
    assert!(UdpSettings::from_str("udp:10.0.0.1:+").is_err());
}

#[test]
fn stream_option_integers() {
    assert_eq!(StreamOption::from_u64(1), Some(StreamOption::File));
    assert_eq!(StreamOption::from_u64(2), Some(StreamOption::TcpClient));
    assert_eq!(StreamOption::from_u64(3), Some(StreamOption::TcpServer));
    assert_eq!(StreamOption::from_u64(4), Some(StreamOption::Udp));
    assert_eq!(StreamOption::from_u64(0), None);
    assert_eq!(StreamOption::from_u64(5), None);
    assert_eq!(StreamOption::Udp.to_u64(), 4);
    assert_eq!(StreamOption::File.to_u64(), 1);
}
