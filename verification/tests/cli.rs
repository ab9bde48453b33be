use pdos::cli::{
    limit_streams, parse_host_port, parse_port_or, parse_secs_or, parse_send_options, parse_transport_mode,
    serve_node_name,
};
use pdos::config::TransportMode;

fn args(v: &[&str]) -> Vec<String> {
    v.iter().map(|s| s.to_string()).collect()
}

#[test]
fn host_port_targets() {
    assert_eq!(parse_host_port("192.168.1.4:7894"), Some(("192.168.1.4".to_string(), 7894)));
    assert_eq!(parse_host_port("h:notaport"), Some(("h".to_string(), 8080)));
    assert_eq!(parse_host_port("h:70000"), Some(("h".to_string(), 8080)));
    assert_eq!(parse_host_port("h"), None);
    assert_eq!(parse_host_port("a:b:c"), None);
}

#[test]
fn port_and_timeout_arguments() {
    assert_eq!(parse_port_or("9000", 8080), 9000);
    assert_eq!(parse_port_or("x", 8080), 8080);
    assert_eq!(parse_port_or("65536", 7894), 7894);
    assert_eq!(parse_secs_or("12", 5), 12);
    assert_eq!(parse_secs_or("-1", 5), 5);
}

#[test]
fn transport_mode_names() {
    assert_eq!(parse_transport_mode("TCP"), Some(TransportMode::TcpBuffered));
    assert_eq!(parse_transport_mode("zerocopy"), Some(TransportMode::TcpZeroCopy));
    assert_eq!(parse_transport_mode("UdpCustom"), Some(TransportMode::UdpCustom));
    assert_eq!(parse_transport_mode("quic"), Some(TransportMode::Quic));
    assert_eq!(parse_transport_mode("sctp"), None);
}

#[test]
fn send_option_flags() {
    let o = parse_send_options(&args(&["remote.bin", "--progress-callback", "9100", "--mode", "quic", "--parallel", "4", "other"]));
    assert_eq!(o.remote_filename, Some("remote.bin".to_string()));
    assert_eq!(o.callback_port, Some(9100));
    assert_eq!(o.mode, Some(TransportMode::Quic));
    assert_eq!(o.parallel_streams, 4);

    let o = parse_send_options(&args(&["--parallel", "0", "--mode", "bogus", "--progress-callback", "x"]));
    assert_eq!(o.remote_filename, None);
    assert_eq!(o.callback_port, None);
    assert_eq!(o.mode, None);
    assert_eq!(o.parallel_streams, 1);

    // A flag without its value is a file name.
    let o = parse_send_options(&args(&["--mode"]));
    assert_eq!(o.remote_filename, Some("--mode".to_string()));
    let o = parse_send_options(&args(&[]));
    assert_eq!(o.parallel_streams, 1);
}

#[test]
fn streams_on_remote_targets() {
    assert_eq!(limit_streams("192.168.1.4:7894", 4), 1);
    assert_eq!(limit_streams("127.0.0.1:7894", 4), 4);
    assert_eq!(limit_streams("localhost", 3), 3);
    assert_eq!(limit_streams("10.0.0.1:1", 1), 1);
}

#[test]
fn node_names() {
    assert_eq!(serve_node_name("Jane's MacBook Pro"), "PDOS-Mac-Janes-MacBook-Pro");
    assert_eq!(serve_node_name(""), "PDOS-Mac-");
    assert_eq!(serve_node_name("caf\u{e9}_1"), "PDOS-Mac-caf\u{e9}1");
}
