use whois_cli::{ColorScheme, OutputColorizer};

#[test]
fn bgp_tools_tables_are_recognised() {
    let table = "AS      | IP               | BGP Prefix          | CC | Registry | Allocated  | AS Name\n13335   | 1.1.1.1          | 1.1.1.0/24          | US | ARIN     | 2010-07-14 | Cloudflare\n";
    assert!(OutputColorizer::is_bgp_tools_format(table));
    assert_eq!(OutputColorizer::detect_scheme(table), ColorScheme::BgpTools);
}

#[test]
fn other_answers_use_the_registry_scheme() {
    // A single line is not a table.
    assert_eq!(OutputColorizer::detect_scheme("AS | BGP | CC"), ColorScheme::Ripe);
    // The first line lacks `|`.
    assert_eq!(OutputColorizer::detect_scheme("AS BGP CC\nsecond"), ColorScheme::Ripe);
    assert_eq!(OutputColorizer::detect_scheme("aut-num: AS3333\nsource: RIPE\n"), ColorScheme::Ripe);
    assert!(OutputColorizer::is_bgp_tools_format("  AS | Registry  \nrow"));
}
