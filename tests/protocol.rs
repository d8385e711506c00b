use whois_cli::protocol::CAPABILITY_PROBE;
use whois_cli::{ServerCapabilities, WhoisColorProtocol};

fn capabilities(schemes: &[&str], version: &str) -> ServerCapabilities {
    ServerCapabilities {
        supports_color: true,
        color_schemes: schemes.iter().map(|s| s.to_string()).collect(),
        protocol_version: version.to_string(),
        supports_markdown: false,
        supports_images: false,
        image_formats: vec![],
    }
}

#[test]
fn test_parse_capability_response_v10() {
    let protocol = WhoisColorProtocol;

    let response = "X-WHOIS-COLOR-SUPPORT: v1.0 schemes=ripe,bgptools,mtf\r\n";
    let capabilities = protocol.parse_capability_response(response);

    assert!(capabilities.supports_color);
    assert_eq!(capabilities.protocol_version, "v1.0");
    assert_eq!(capabilities.color_schemes, vec!["ripe", "bgptools", "mtf"]);
    assert!(!capabilities.supports_markdown);
    assert!(!capabilities.supports_images);
}

#[test]
fn test_parse_capability_response_v11() {
    let protocol = WhoisColorProtocol;

    let response = "X-WHOIS-COLOR-SUPPORT: v1.1 schemes=ripe,bgptools,mtf markdown=true images=png,jpg\r\n";
    let capabilities = protocol.parse_capability_response(response);

    assert!(capabilities.supports_color);
    assert_eq!(capabilities.protocol_version, "v1.1");
    assert_eq!(capabilities.color_schemes, vec!["ripe", "bgptools", "mtf"]);
    assert!(capabilities.supports_markdown);
    assert!(capabilities.supports_images);
    assert_eq!(capabilities.image_formats, vec!["png", "jpg"]);
}

#[test]
fn test_parse_capability_response_minimal() {
    let protocol = WhoisColorProtocol;

    let response = "X-WHOIS-COLOR-SUPPORT: v1.0\r\n";
    let capabilities = protocol.parse_capability_response(response);

    assert!(capabilities.supports_color);
    assert_eq!(capabilities.protocol_version, "v1.0");
    assert!(capabilities.color_schemes.is_empty());
}

#[test]
fn test_parse_capability_response_no_support() {
    let protocol = WhoisColorProtocol;

    let response = "Some other response\r\n";
    let capabilities = protocol.parse_capability_response(response);

    assert!(!capabilities.supports_color);
    assert_eq!(capabilities.protocol_version, "none");
    assert!(capabilities.color_schemes.is_empty());
}

#[test]
fn test_select_color_scheme_preferred() {
    let protocol = WhoisColorProtocol;
    let capabilities = capabilities(&["ripe", "bgptools"], "v1.0");

    let scheme = protocol.select_color_scheme(&capabilities, Some("bgptools"));
    assert_eq!(scheme, Some("bgptools".to_string()));
}

#[test]
fn test_select_color_scheme_fallback() {
    let protocol = WhoisColorProtocol;
    let capabilities = capabilities(&["ripe", "bgptools"], "v1.0");

    let scheme = protocol.select_color_scheme(&capabilities, Some("invalid"));
    assert_eq!(scheme, Some("ripe".to_string()));
}

#[test]
fn test_select_color_scheme_no_support() {
    let protocol = WhoisColorProtocol;
    let capabilities = ServerCapabilities::default();

    let scheme = protocol.select_color_scheme(&capabilities, Some("ripe"));
    assert_eq!(scheme, None);
}

#[test]
fn test_build_enhanced_query_v10_compat() {
    let protocol = WhoisColorProtocol;
    let capabilities = capabilities(&["ripe"], "v1.0");

    let query = protocol.build_enhanced_query("example.com", &capabilities, Some("ripe"), false, false);
    assert_eq!(query, "X-WHOIS-COLOR: scheme=ripe\r\nexample.com\r\n");
}

#[test]
fn test_build_enhanced_query_v11_full() {
    let protocol = WhoisColorProtocol;
    let capabilities = ServerCapabilities {
        supports_color: true,
        color_schemes: vec!["ripe".to_string()],
        protocol_version: "v1.1".to_string(),
        supports_markdown: true,
        supports_images: true,
        image_formats: vec!["png".to_string(), "jpg".to_string()],
    };

    let query = protocol.build_enhanced_query("example.com", &capabilities, Some("ripe"), true, true);
    let expected = "X-WHOIS-COLOR: scheme=ripe\r\nX-WHOIS-MARKDOWN: true\r\nX-WHOIS-IMAGES: png,jpg\r\nexample.com\r\n";
    assert_eq!(query, expected);
}

#[test]
fn test_build_color_query_legacy() {
    let protocol = WhoisColorProtocol;
    let capabilities = capabilities(&["ripe"], "v1.0");

    let query = protocol.build_color_query("example.com", &capabilities, Some("ripe"));
    assert_eq!(query, "X-WHOIS-COLOR: scheme=ripe\r\nexample.com\r\n");
}

#[test]
fn test_build_color_query_no_scheme() {
    let protocol = WhoisColorProtocol;
    let capabilities = ServerCapabilities::default();

    let query = protocol.build_color_query("example.com", &capabilities, Some("ripe"));
    assert_eq!(query, "example.com\r\n");
}

#[test]
fn test_is_server_colored() {
    let protocol = WhoisColorProtocol;

    assert!(protocol.is_server_colored("text with \x1b[31mcolor\x1b[0m"));
    assert!(protocol.is_server_colored("X-WHOIS-COLOR-APPLIED: ripe\ntext"));
    assert!(!protocol.is_server_colored("plain text"));
}

#[test]
fn default_capabilities_give_the_bare_target_line() {
    let protocol = WhoisColorProtocol;
    let none = ServerCapabilities::default();
    for preferred in [None, Some("ripe"), Some("mtf")] {
        for markdown in [false, true] {
            for images in [false, true] {
                let query = protocol.build_enhanced_query("AS3333", &none, preferred, markdown, images);
                assert_eq!(query, "AS3333\r\n");
            }
        }
    }
}

#[test]
fn color_header_uses_the_preferred_scheme_for_any_target() {
    let protocol = WhoisColorProtocol;
    let caps = capabilities(&["ripe"], "v1.0");
    let query = protocol.build_enhanced_query("192.0.2.1", &caps, Some("ripe"), false, false);
    assert_eq!(query, "X-WHOIS-COLOR: scheme=ripe\r\n192.0.2.1\r\n");
}

#[test]
fn headers_follow_what_is_wanted_and_supported() {
    let protocol = WhoisColorProtocol;
    let caps = ServerCapabilities {
        supports_color: true,
        color_schemes: vec!["ripe".to_string(), "mtf".to_string()],
        protocol_version: "v1.1".to_string(),
        supports_markdown: true,
        supports_images: true,
        image_formats: vec!["png".to_string(), "jpg".to_string()],
    };
    assert_eq!(
        protocol.build_enhanced_query("x", &caps, Some("mtf"), false, true),
        "X-WHOIS-COLOR: scheme=mtf\r\nX-WHOIS-IMAGES: png,jpg\r\nx\r\n"
    );
    assert_eq!(
        protocol.build_enhanced_query("x", &caps, None, true, false),
        "X-WHOIS-COLOR: scheme=ripe\r\nX-WHOIS-MARKDOWN: true\r\nx\r\n"
    );
}

#[test]
fn color_support_without_schemes_sends_no_color_header() {
    let protocol = WhoisColorProtocol;
    let caps = capabilities(&[], "v1.0");
    assert_eq!(protocol.select_color_scheme(&caps, Some("ripe")), None);
    assert_eq!(protocol.build_enhanced_query("x", &caps, Some("ripe"), false, false), "x\r\n");
}

#[test]
fn images_without_formats_send_no_images_header() {
    let protocol = WhoisColorProtocol;
    let caps = protocol.parse_capability_line("v1.1 images=");
    assert!(!caps.supports_images);
    assert!(caps.image_formats.is_empty());
    let mut caps = caps;
    caps.supports_images = true;
    assert_eq!(protocol.build_enhanced_query("x", &caps, None, false, true), "x\r\n");
}

#[test]
fn capability_line_parsing_ignores_unknown_fields_and_empty_items() {
    let protocol = WhoisColorProtocol;
    let caps = protocol.parse_capability_line("  v2.0  future=yes schemes=ripe,,mtf, markdown=false");
    assert!(caps.supports_color);
    assert_eq!(caps.protocol_version, "v2.0");
    assert_eq!(caps.color_schemes, vec!["ripe", "mtf"]);
    assert!(!caps.supports_markdown);
    assert!(!caps.supports_images);

    let empty = protocol.parse_capability_line("   ");
    assert_eq!(empty, ServerCapabilities::default());
}

#[test]
fn capability_line_found_among_other_lines() {
    let protocol = WhoisColorProtocol;
    let response = "% banner\r\n  X-WHOIS-COLOR-SUPPORT: v1.1 markdown=true\r\nX-WHOIS-COLOR-SUPPORT: v9\r\n";
    let caps = protocol.parse_capability_response(response);
    assert_eq!(caps.protocol_version, "v1.1");
    assert!(caps.supports_markdown);
    assert!(caps.color_schemes.is_empty());
}

#[test]
fn probe_outcomes() {
    let protocol = WhoisColorProtocol;
    assert_eq!(protocol.capabilities_from_probe(None), ServerCapabilities::default());
    let caps = protocol.capabilities_from_probe(Some("X-WHOIS-COLOR-SUPPORT: v1.0 schemes=ripe\r\n"));
    assert_eq!(caps.color_schemes, vec!["ripe"]);
    assert_eq!(protocol.probe_payload(), format!("{}\r\n", CAPABILITY_PROBE));
    assert_eq!(protocol.probe_payload(), "X-WHOIS-COLOR-PROBE: v1.1\r\n\r\n");
}
