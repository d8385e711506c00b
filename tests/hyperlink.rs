use whois_cli::hyperlink::{detect_rir_from_source, pick_rir, query_base_for, rir_from_content};
use whois_cli::{create_hyperlink, detect_rir, is_rir_response, is_ripe_response, RirUrls};

#[test]
fn test_detect_rir_from_source() {
    let multi_rir_response = r#"
as-block: AS137530 - AS138553
descr: APNIC ASN block
source: APNIC

aut-num: AS3333
as-name: RIPE-NCC-AS
source: RIPE
        "#;

    let rirs = detect_rir_from_source(multi_rir_response);
    assert!(rirs.contains(&"apnic"));
    assert!(rirs.contains(&"ripe"));
}

#[test]
fn test_create_hyperlink() {
    let url = "https://example.com";
    let text = "Example";

    let result = create_hyperlink(url, text);
    assert!(result.contains("Example"));
}

#[test]
fn test_rir_urls() {
    let query_url = RirUrls::get_url("RIPE", "AS3333");
    assert!(query_url.contains("AS3333"));
    assert!(!query_url.contains("types="));
    assert!(query_url.contains("apps.db.ripe.net"));

    let arin_url = RirUrls::get_url("ARIN", "AS3333");
    assert!(arin_url.contains("search.arin.net"));
    assert!(arin_url.contains("AS3333"));

    let apnic_url = RirUrls::get_url("APNIC", "AS3333");
    assert!(apnic_url.contains("wq.apnic.net"));
    assert!(apnic_url.contains("AS3333"));

    let lacnic_url = RirUrls::get_url("LACNIC", "AS3333");
    assert!(lacnic_url.contains("query.milacnic.lacnic.net"));
    assert!(lacnic_url.contains("AS3333"));

    let afrinic_url = RirUrls::get_url("AFRINIC", "AS3333");
    assert!(afrinic_url.contains("afrinic.net"));
    assert!(afrinic_url.contains("AS3333"));
}

#[test]
fn hyperlink_is_osc8() {
    assert_eq!(
        create_hyperlink("https://example.com", "Example"),
        "\x1b]8;;https://example.com\x1b\\Example\x1b]8;;\x1b\\"
    );
}

#[test]
fn urls_encode_the_search_term_and_ignore_case_of_the_registry() {
    assert_eq!(
        RirUrls::get_url("arin", "10.0.0.0 - 10.255.255.255"),
        "https://search.arin.net/rdap/?query=10.0.0.0%20-%2010.255.255.255"
    );
    assert_eq!(
        RirUrls::get_url("unknown", "a/ü~"),
        "https://apps.db.ripe.net/db-web-ui/query?searchtext=a%2F%C3%BC~"
    );
    assert_eq!(query_base_for("LACNIC"), "https://query.milacnic.lacnic.net/home?searchtext=");
    assert_eq!(query_base_for("lacnic"), "https://apps.db.ripe.net/db-web-ui/query?searchtext=");
}

#[test]
fn sources_are_listed_once_in_order() {
    let text = "source: ARIN\nsource: RIPE\nsource: ARIN\nsource: OTHER\nsource:   AFRINIC\n";
    assert_eq!(detect_rir_from_source(text), vec!["arin", "ripe", "afrinic"]);
    assert_eq!(detect_rir(text), Some("arin"));
    assert!(detect_rir_from_source("  source: RIPE").is_empty());
}

#[test]
fn registry_from_wording() {
    assert_eq!(rir_from_content("NetRange: 10.0.0.0 - 10.255.255.255"), Some("arin"));
    assert_eq!(detect_rir("refer: whois.apnic.net"), Some("apnic"));
    assert_eq!(detect_rir("% This is the RIPE Database query service. ARIN WHOIS data"), Some("ripe"));
    assert_eq!(detect_rir("domain: example.com"), None);
    assert_eq!(pick_rir(&vec!["lacnic"], "whois.ripe.net"), Some("lacnic"));
    assert_eq!(pick_rir(&vec![], "whois.ripe.net"), Some("ripe"));
}

#[test]
fn registry_response_checks() {
    assert!(is_rir_response("source: LACNIC\n"));
    assert!(is_rir_response("AFRINIC WHOIS server"));
    assert!(!is_rir_response("domain: example.com\nstatus: ok"));
    assert!(is_ripe_response("source: ARIN\nsource: RIPE\n"));
    assert!(is_ripe_response("mnt-by: RIPE-NCC-HM-MNT"));
    assert!(!is_ripe_response("source: APNIC\nmnt-by: RIPE-NCC-HM-MNT"));
}
