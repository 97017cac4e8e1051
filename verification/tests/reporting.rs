use dissect_netwayste::color::{DisplayColor, Ipv4Address};
use dissect_netwayste::device::find_device;
use dissect_netwayste::filter::{build_filter_error_line, default_filter, resolve_filter};
use dissect_netwayste::report::{
    build_banner_line, build_decode_failed_line, build_malformed_line, build_match_line,
    render_report, Report, Severity,
};
use dissect_netwayste::frame::MalformedKind;

#[test]
fn default_filter_names_the_port() {
    assert_eq!(default_filter(12345), "udp port 12345");
    assert_eq!(default_filter(0), "udp port 0");
    assert_eq!(default_filter(65535), "udp port 65535");
}

#[test]
fn resolve_filter_without_custom_expression_synthesizes_the_default() {
    let r = resolve_filter(2016, None, None);
    assert_eq!(r.unwrap(), "udp port 2016");
}

#[test]
fn resolve_filter_adopts_a_custom_expression_the_backend_compiled() {
    let r = resolve_filter(12345, Some("udp port 9999".to_string()), Some(Ok(())));
    assert_eq!(r.unwrap(), "udp port 9999");
}

#[test]
fn resolve_filter_refuses_a_custom_expression_the_backend_rejected() {
    let r = resolve_filter(
        12345,
        Some("udp portt 9999".to_string()),
        Some(Err("syntax error".to_string())),
    );
    let e = r.err().expect("a refused expression is an error");
    assert_eq!(e.expression, "udp portt 9999");
    assert_eq!(e.reason, "syntax error");
    assert_eq!(
        build_filter_error_line(&e),
        "Failed to compile custom-bpf 'udp portt 9999': syntax error"
    );
}

#[test]
fn find_device_matches_exact_names_only() {
    let names = vec!["lo".to_string(), "eth0".to_string(), "wlan0".to_string()];
    assert_eq!(find_device(&names, &"eth0".to_string()), Some(1));
    assert_eq!(find_device(&names, &"lo".to_string()), Some(0));
    assert_eq!(find_device(&names, &"eth".to_string()), None);
    assert_eq!(find_device(&names, &"ETH0".to_string()), None);
    assert_eq!(find_device(&Vec::new(), &"eth0".to_string()), None);
}

#[test]
fn banner_line_names_device_and_filter() {
    let s = build_banner_line(&"eth0".to_string(), &"udp port 12345".to_string());
    assert_eq!(s, "Listening to device 'eth0' with filter 'udp port 12345'");
}

#[test]
fn match_line_aligns_address_and_port_columns() {
    let a = Ipv4Address { o1: 10, o2: 0, o3: 0, o4: 1 };
    let s = build_match_line(&a, 80, &"GetStatus".to_string());
    assert_eq!(s, "       10.0.0.1:80    GetStatus");
    let wide = Ipv4Address { o1: 255, o2: 255, o3: 255, o4: 255 };
    let s2 = build_match_line(&wide, 65535, &"X".to_string());
    assert_eq!(s2, "255.255.255.255:65535 X");
}

#[test]
fn decode_failed_line_names_error_and_payload() {
    let s = build_decode_failed_line(&"oops".to_string(), &vec![0, 255, 7]);
    assert_eq!(
        s,
        "Failed de-serialization: 'oops'; failed packet contents: '[0, 255, 7]'"
    );
    let empty = build_decode_failed_line(&"oops".to_string(), &Vec::new());
    assert_eq!(
        empty,
        "Failed de-serialization: 'oops'; failed packet contents: '[]'"
    );
}

#[test]
fn malformed_lines_name_each_structural_failure() {
    let cases = [
        (MalformedKind::TruncatedLink, "frame shorter than an Ethernet II header"),
        (MalformedKind::TruncatedIpv4, "frame ends inside the minimal IPv4 header"),
        (MalformedKind::BadIpVersion, "IPv4 version nibble is not 4"),
        (MalformedKind::BadIpHeaderLength, "IPv4 header length below five words"),
        (MalformedKind::ShortIpv4Header, "frame ends inside the announced IPv4 header"),
        (MalformedKind::TruncatedUdp, "frame ends inside the UDP header"),
    ];
    for (kind, reason) in cases {
        let line = build_malformed_line(&kind);
        assert_eq!(line, format!("Failed link-layer decode: '{}'", reason));
    }
}

#[test]
fn uncolored_report_renders_its_text_unchanged() {
    let rep = Report {
        severity: Severity::Info,
        text: "       10.0.0.1:80    GetStatus".to_string(),
        color: None,
    };
    assert_eq!(render_report(&rep), rep.text);
}

#[test]
fn colored_report_still_carries_its_text() {
    let rep = Report {
        severity: Severity::Info,
        text: "       10.0.0.1:80    GetStatus".to_string(),
        color: Some(DisplayColor::Magenta),
    };
    let rendered = render_report(&rep);
    assert!(rendered.contains(rep.text.as_str()));
}
