use whois_cli::Cli;

fn create_test_cli(domain: &str) -> Cli {
    Cli {
        domain: domain.to_string(),
        server: None,
        port: 43,
        verbose: false,
        dn42: false,
        bgptools: false,
        no_color: false,
        mtf: false,
        no_hyperlinks: false,
        no_server_color: false,
        markdown: false,
        images: false,
    }
}

#[test]
fn test_use_color_default() {
    let cli = create_test_cli("example.com");
    assert!(cli.use_color());
}

#[test]
fn test_use_color_disabled() {
    let mut cli = create_test_cli("example.com");
    cli.no_color = true;
    assert!(!cli.use_color());
}

#[test]
fn test_use_mtf_colors() {
    let mut cli = create_test_cli("example.com");
    assert!(!cli.use_mtf_colors());

    cli.mtf = true;
    assert!(cli.use_mtf_colors());
}

#[test]
fn test_use_dn42_explicit_flag() {
    let mut cli = create_test_cli("example.com");
    assert!(!cli.use_dn42());

    cli.dn42 = true;
    assert!(cli.use_dn42());
}

#[test]
fn test_use_dn42_auto_detection() {
    let cli = create_test_cli("AS4242420000");
    assert!(cli.use_dn42());

    let cli = create_test_cli("as4242420000");
    assert!(cli.use_dn42());

    let cli = create_test_cli("AS4242421234");
    assert!(cli.use_dn42());
}

#[test]
fn test_use_dn42_not_triggered() {
    let cli = create_test_cli("AS15169");
    assert!(!cli.use_dn42());

    let cli = create_test_cli("example.com");
    assert!(!cli.use_dn42());
}

#[test]
fn test_use_bgptools() {
    let mut cli = create_test_cli("AS15169");
    assert!(!cli.use_bgptools());

    cli.bgptools = true;
    assert!(cli.use_bgptools());
}

#[test]
fn test_use_hyperlinks_default() {
    let cli = create_test_cli("example.com");
    assert!(cli.use_hyperlinks());
}

#[test]
fn test_use_hyperlinks_disabled() {
    let mut cli = create_test_cli("example.com");
    cli.no_hyperlinks = true;
    assert!(!cli.use_hyperlinks());
}

#[test]
fn test_port_default() {
    let cli = create_test_cli("example.com");
    assert_eq!(cli.port, 43);
}

#[test]
fn test_domain_assignment() {
    let cli = create_test_cli("test.example.com");
    assert_eq!(cli.domain, "test.example.com");
}

#[test]
fn test_use_server_color() {
    let mut cli = create_test_cli("example.com");
    assert!(cli.use_server_color());

    cli.no_server_color = true;
    assert!(!cli.use_server_color());
}

#[test]
fn test_use_markdown() {
    let mut cli = create_test_cli("example.com");
    assert!(!cli.use_markdown());

    cli.markdown = true;
    assert!(cli.use_markdown());
}

#[test]
fn test_use_images() {
    let mut cli = create_test_cli("example.com");
    assert!(!cli.use_images());

    cli.images = true;
    assert!(cli.use_images());
}

#[test]
fn test_all_flags_together() {
    let mut cli = create_test_cli("AS4242420000");
    cli.dn42 = true;
    cli.bgptools = true;
    cli.no_color = true;
    cli.mtf = true;
    cli.no_hyperlinks = true;
    cli.verbose = true;
    cli.no_server_color = true;
    cli.markdown = true;
    cli.images = true;

    assert!(cli.use_dn42());
    assert!(cli.use_bgptools());
    assert!(!cli.use_color());
    assert!(cli.use_mtf_colors());
    assert!(!cli.use_hyperlinks());
    assert!(!cli.use_server_color());
    assert!(cli.use_markdown());
    assert!(cli.use_images());
    assert!(cli.verbose);
}

#[test]
fn dn42_detection_ignores_case_of_prefix_letters() {
    assert!(create_test_cli("aS4242420001").use_dn42());
    assert!(!create_test_cli("AS4242").use_dn42());
    assert!(!create_test_cli("xAS4242420000").use_dn42());
}
