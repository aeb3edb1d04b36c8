use netrecon::http_probe::http_probe_outcome;
use netrecon::http_probe::format_http_url;
use netrecon::orchestrator::is_private_target;
use netrecon::orchestrator::is_tls_port;
use netrecon::orchestrator::merge_outcomes;
use netrecon::orchestrator::port_report;
use netrecon::orchestrator::subnet_base;
use netrecon::orchestrator::ReportEntry;
use netrecon::orchestrator::FIRST_PORT;
use netrecon::orchestrator::LAST_PORT;
use netrecon::ping_flash::collect_alive;
use netrecon::ping_flash::liveness_of;
use netrecon::ping_flash::subnet_host_address;
use netrecon::scanner::format_endpoint;
use netrecon::scanner::scan_result_from_read;
use netrecon::scanner::ScanResult;
use netrecon::text::has_prefix;
use netrecon::text::u16_to_string;
use netrecon::tls_probe::certificate_info_from_fields;

#[test]
fn decimal_rendering() {
    assert_eq!(u16_to_string(0), "0");
    assert_eq!(u16_to_string(7), "7");
    assert_eq!(u16_to_string(80), "80");
    assert_eq!(u16_to_string(443), "443");
    assert_eq!(u16_to_string(1024), "1024");
    assert_eq!(u16_to_string(65535), "65535");
}

#[test]
fn prefix_test() {
    assert!(has_prefix("192.168.0.1", "192."));
    assert!(has_prefix("abc", ""));
    assert!(!has_prefix("19", "192."));
    assert!(!has_prefix("193.0.0.1", "192."));
}

#[test]
fn endpoint_and_url_formatting() {
    assert_eq!(format_endpoint("10.0.0.1", 22), "10.0.0.1:22");
    assert_eq!(format_http_url("192.168.1.5", 8080), "http://192.168.1.5:8080/");
    assert_eq!(format_http_url("example.com", 80), "http://example.com:80/");
    assert_eq!(subnet_host_address("192.168.1", 254), "192.168.1.254");
    assert_eq!(subnet_host_address("10.0.0", 1), "10.0.0.1");
}

#[test]
fn private_target_classification() {
    assert!(is_private_target("192.168.0.10"));
    assert!(is_private_target("10.1.2.3"));
    assert!(is_private_target("172.16.0.1"));
    assert!(!is_private_target("8.8.8.8"));
    assert!(!is_private_target("example.com"));
}

#[test]
fn subnet_base_extraction() {
    assert_eq!(subnet_base("192.168.1.77"), Some(String::from("192.168.1")));
    assert_eq!(subnet_base("10.0.0.255"), Some(String::from("10.0.0")));
    assert_eq!(subnet_base("example.com"), None);
    assert_eq!(subnet_base("1.2.3.4.5"), None);
    assert_eq!(subnet_base(""), None);
}

#[test]
fn port_range_constants() {
    assert_eq!(FIRST_PORT, 1);
    assert_eq!(LAST_PORT, 1024);
}

#[test]
fn tls_port_set() {
    assert!(is_tls_port(443));
    assert!(is_tls_port(8443));
    assert!(is_tls_port(9443));
    assert!(!is_tls_port(80));
    assert!(!is_tls_port(442));
    assert!(!is_tls_port(1024));
}

#[test]
fn open_port_with_banner() {
    let bytes = b"SSH-2.0-OpenSSH_9.6\r\n".to_vec();
    let r = scan_result_from_read(22, Some(bytes));
    assert_eq!(r.port, 22);
    assert_eq!(r.banner, Some(String::from("SSH-2.0-OpenSSH_9.6\r\n")));
}

#[test]
fn banner_decoding_is_lossy_not_identity() {
    let bytes = vec![0xff, 0xfe, b'A'];
    let r = scan_result_from_read(21, Some(bytes));
    assert_eq!(r.banner, Some(String::from("\u{FFFD}\u{FFFD}A")));
}

#[test]
fn open_port_without_banner() {
    let silent = scan_result_from_read(80, Some(Vec::new()));
    assert_eq!(silent.port, 80);
    assert_eq!(silent.banner, None);
    let timed_out = scan_result_from_read(80, None);
    assert_eq!(timed_out.banner, None);
}

#[test]
fn http_server_header_extraction() {
    let r = http_probe_outcome(true, Some(String::from("TestServer/1.0")));
    let info = r.expect("an HTTP response must yield service info");
    assert_eq!(info.server, Some(String::from("TestServer/1.0")));
}

#[test]
fn http_failure_yields_no_information() {
    assert!(http_probe_outcome(false, None).is_none());
    let headerless = http_probe_outcome(true, None).expect("response without Server header");
    assert_eq!(headerless.server, None);
}

#[test]
fn liveness_outcomes() {
    assert!(liveness_of(Some(true)));
    assert!(!liveness_of(Some(false)));
    assert!(!liveness_of(None));
}

#[test]
fn alive_hosts_collected_in_order() {
    let probes = vec![
        (String::from("192.168.1.1"), true),
        (String::from("192.168.1.2"), false),
        (String::from("192.168.1.3"), true),
        (String::from("192.168.1.4"), false),
    ];
    let alive = collect_alive(probes);
    assert_eq!(alive, vec![String::from("192.168.1.1"), String::from("192.168.1.3")]);
}

#[test]
fn certificate_fallbacks() {
    let info = certificate_info_from_fields(None, None, String::from("Dec 31 23:59:59 2030 +00:00"));
    assert_eq!(info.common_name, "Unknown CN");
    assert_eq!(info.issuer, "Unknown Issuer");
    assert_eq!(info.not_after, "Dec 31 23:59:59 2030 +00:00");
    let named = certificate_info_from_fields(
        Some(String::from("example.local")),
        Some(String::from("TestCA")),
        String::from("x"),
    );
    assert_eq!(named.common_name, "example.local");
    assert_eq!(named.issuer, "TestCA");
}

#[test]
fn closed_port_yields_no_entry() {
    assert!(port_report(String::from("1.2.3.4"), None, None, None).is_none());
}

#[test]
fn full_pipeline_entry() {
    let scan = ScanResult { port: 443, banner: Some(String::from("hello")) };
    let http = http_probe_outcome(true, Some(String::from("TestServer/1.0")));
    let tls = certificate_info_from_fields(
        Some(String::from("example.local")),
        Some(String::from("TestCA")),
        String::from("Dec 31 23:59:59 2030 +00:00"),
    );
    let entry = port_report(String::from("1.2.3.4"), Some(scan), http, Some(tls))
        .expect("an open port must yield an entry");
    assert_eq!(entry.ip, "1.2.3.4");
    assert_eq!(entry.port, 443);
    assert_eq!(entry.banner, Some(String::from("hello")));
    assert_eq!(entry.server, Some(String::from("TestServer/1.0")));
    assert_eq!(entry.tls_cn, Some(String::from("example.local")));
    assert_eq!(entry.tls_issuer, Some(String::from("TestCA")));
    assert_eq!(entry.tls_expiry, Some(String::from("Dec 31 23:59:59 2030 +00:00")));
}

#[test]
fn probe_failures_are_independent() {
    let scan = ScanResult { port: 8443, banner: None };
    let entry = port_report(String::from("1.2.3.4"), Some(scan), None, None)
        .expect("a successful connect alone must still yield an entry");
    assert_eq!(entry.port, 8443);
    assert_eq!(entry.banner, None);
    assert_eq!(entry.server, None);
    assert_eq!(entry.tls_cn, None);
    assert_eq!(entry.tls_issuer, None);
    assert_eq!(entry.tls_expiry, None);
}

#[test]
fn merge_keeps_only_completed_entries() {
    let a = port_report(
        String::from("9.9.9.9"),
        Some(ScanResult { port: 25, banner: Some(String::from("220 smtp")) }),
        None,
        None,
    );
    let b = port_report(String::from("9.9.9.9"), None, None, None);
    let c = port_report(
        String::from("9.9.9.9"),
        Some(ScanResult { port: 80, banner: None }),
        http_probe_outcome(true, Some(String::from("nginx"))),
        None,
    );
    let outcomes = vec![a, b, c];
    let report = merge_outcomes(&outcomes);
    assert_eq!(report.len(), 2);
    assert_eq!(report[0].port, 25);
    assert_eq!(report[0].banner, Some(String::from("220 smtp")));
    assert_eq!(report[1].port, 80);
    assert_eq!(report[1].server, Some(String::from("nginx")));
}

#[test]
fn whole_range_yields_exactly_the_open_ports() {
    let ip = String::from("203.0.113.7");
    let mut outcomes: Vec<Option<ReportEntry>> = Vec::new();
    let mut port = FIRST_PORT;
    loop {
        let outcome = if port == 80 {
            port_report(
                ip.clone(),
                Some(ScanResult { port: 80, banner: None }),
                http_probe_outcome(true, Some(String::from("TestServer/1.0"))),
                None,
            )
        } else if port == 443 {
            let tls = certificate_info_from_fields(
                Some(String::from("example.local")),
                Some(String::from("TestCA")),
                String::from("Dec 31 23:59:59 2030 +00:00"),
            );
            port_report(
                ip.clone(),
                Some(ScanResult { port: 443, banner: None }),
                http_probe_outcome(false, None),
                Some(tls),
            )
        } else {
            port_report(ip.clone(), None, None, None)
        };
        outcomes.push(outcome);
        if port == LAST_PORT {
            break;
        }
        port += 1;
    }
    assert_eq!(outcomes.len(), 1024);
    let report = merge_outcomes(&outcomes);
    assert_eq!(report.len(), 2);
    assert_eq!(report[0].ip, "203.0.113.7");
    assert_eq!(report[0].port, 80);
    assert_eq!(report[0].server, Some(String::from("TestServer/1.0")));
    assert_eq!(report[0].tls_cn, None);
    assert_eq!(report[1].port, 443);
    assert_eq!(report[1].server, None);
    assert_eq!(report[1].tls_cn, Some(String::from("example.local")));
    assert_eq!(report[1].tls_issuer, Some(String::from("TestCA")));
    assert_eq!(report[1].tls_expiry, Some(String::from("Dec 31 23:59:59 2030 +00:00")));
}
