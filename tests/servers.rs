use whois_cli::servers::{DEFAULT_WHOIS_SERVER, IANA_WHOIS_SERVER};
use whois_cli::{ServerKind, ServerSelector, WhoisServer};

#[test]
fn well_known_servers() {
    let iana = WhoisServer::iana();
    assert_eq!(iana.host, IANA_WHOIS_SERVER);
    assert_eq!(iana.name, "IANA");
    assert_eq!(iana.kind, ServerKind::Iana);
    assert_eq!(WhoisServer::default().address(), "whois.ripe.net:43");
    assert_eq!(WhoisServer::dn42().address(), "lantian.pub:43");
    assert_eq!(WhoisServer::bgptools().name, "BGP.tools");
    let custom = WhoisServer::custom("whois.example.net", 4343);
    assert_eq!(custom.address(), "whois.example.net:4343");
    assert_eq!(custom.name, "Custom");
    assert_eq!(WhoisServer::custom("h", 0).address(), "h:0");
    assert_eq!(WhoisServer::custom("h", 65535).address(), "h:65535");
}

#[test]
fn dn42_prefix_wins_over_every_other_choice() {
    for target in ["AS4242420000", "as4242421234", "As42424"] {
        let s = ServerSelector::select_server(target, false, true, Some("explicit.example"), Some("env.example"), 4343);
        assert_eq!(s.kind, ServerKind::Dn42);
        assert_eq!(s.host, "lantian.pub");
        assert_eq!(s.port, 43);
    }
}

#[test]
fn selection_priority() {
    let s = ServerSelector::select_server("example.com", true, true, Some("x.example"), Some("e.example"), 4343);
    assert_eq!(s.kind, ServerKind::Dn42);
    let s = ServerSelector::select_server("example.com", false, true, Some("x.example"), Some("e.example"), 4343);
    assert_eq!(s.kind, ServerKind::BgpTools);
    let s = ServerSelector::select_server("example.com", false, false, Some("x.example"), Some("e.example"), 4343);
    assert_eq!(s.kind, ServerKind::Custom);
    assert_eq!(s.address(), "x.example:4343");
    let s = ServerSelector::select_server("example.com", false, false, None, Some("e.example"), 4343);
    assert_eq!(s.address(), "e.example:4343");
    let s = ServerSelector::select_server("example.com", false, false, None, None, 4343);
    assert_eq!(s.kind, ServerKind::Iana);
    assert_eq!(s.address(), "whois.iana.org:43");
}

#[test]
fn referral_from_whois_field() {
    let response = "whois:   whois.example.net";
    assert_eq!(ServerSelector::extract_whois_server(response), Some("whois.example.net".to_string()));
    let next = ServerSelector::referred_server(response, 43);
    assert_eq!(next.host, "whois.example.net");
    assert_eq!(next.port, 43);
}

#[test]
fn referral_falls_back_to_default_registry() {
    let response = "% IANA WHOIS server\nstatus: ACTIVE\n";
    assert_eq!(ServerSelector::extract_whois_server(response), None);
    let next = ServerSelector::referred_server(response, 43);
    assert_eq!(next.host, DEFAULT_WHOIS_SERVER);
    assert_eq!(next.port, 43);
}

#[test]
fn referral_prefers_the_first_referral_line() {
    let response = "domain: EXAMPLE\r\n  refer:  whois.refer.example\r\nwhois: whois.later.example\r\n";
    assert_eq!(ServerSelector::extract_whois_server(response), Some("whois.refer.example".to_string()));
    assert_eq!(ServerSelector::extract_whois_server("whois:\nwhois: a.example"), None);
}

#[test]
fn referral_words_split_on_unicode_white_space() {
    assert_eq!(
        ServerSelector::extract_whois_server("whois:\u{a0}whois.example.net\u{2003}extra"),
        Some("whois.example.net".to_string())
    );
}
