//! The command-line options and what they mean for a query.
use vstd::prelude::*;

use crate::servers::{dn42_target, is_dn42_target};

verus! {

/// The options of one invocation.
pub struct Cli {
    /// Domain name or IP address to query.
    pub domain: String,
    /// WHOIS server to use (bypasses the root-authority lookup).
    pub server: Option<String>,
    /// Port number to use.
    pub port: u16,
    /// Display verbose output.
    pub verbose: bool,
    /// Query DN42 information.
    pub dn42: bool,
    /// Query bgp.tools.
    pub bgptools: bool,
    /// Disable coloured output.
    pub no_color: bool,
    /// MTF flag colours.
    pub mtf: bool,
    /// Disable hyperlinks for registry database results.
    pub no_hyperlinks: bool,
    /// Disable server-side colouring and colour on the client only.
    pub no_server_color: bool,
    /// Request Markdown-formatted output from the server.
    pub markdown: bool,
    /// Enable inline image display.
    pub images: bool,
}

impl Cli {
    pub fn use_color(&self) -> (r: bool)
        ensures
            r == !self.no_color,
    {
        !self.no_color
    }

    pub fn use_mtf_colors(&self) -> (r: bool)
        ensures
            r == self.mtf,
    {
        self.mtf
    }

    /// DN42 mode: asked for, or implied by a DN42 AS number.
    pub fn use_dn42(&self) -> (r: bool)
        ensures
            r == (self.dn42 || is_dn42_target(self.domain@)),
    {
        self.dn42 || dn42_target(self.domain.as_str())
    }

    pub fn use_bgptools(&self) -> (r: bool)
        ensures
            r == self.bgptools,
    {
        self.bgptools
    }

    pub fn use_hyperlinks(&self) -> (r: bool)
        ensures
            r == !self.no_hyperlinks,
    {
        !self.no_hyperlinks
    }

    /// Server-side colouring is used unless switched off.
    pub fn use_server_color(&self) -> (r: bool)
        ensures
            r == !self.no_server_color,
    {
        !self.no_server_color
    }

    pub fn use_markdown(&self) -> (r: bool)
        ensures
            r == self.markdown,
    {
        self.markdown
    }

    pub fn use_images(&self) -> (r: bool)
        ensures
            r == self.images,
    {
        self.images
    }
}

} // verus!
