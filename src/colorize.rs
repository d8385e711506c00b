//! The choice of the client-side colour scheme for an answer.  The styling
//! itself is terminal presentation and lives with the program.
use vstd::prelude::*;

use crate::text::{chars_of, contains, has_infix, lines, seqs_of, split_lines, trim, trimmed};

verus! {

/// A client-side colour scheme.
#[derive(Clone, Copy, Debug, PartialEq, Eq, Structural)]
pub enum ColorScheme {
    /// `field: value` records of the regional registries.
    Ripe,
    /// The table that bgp.tools answers with.
    BgpTools,
    /// The MTF flag colours.
    Mtf,
    /// No colour.
    Plain,
}

/// The answer is a bgp.tools table: it has at least two lines, and its
/// first, trimmed, holds `AS`, `|`, and `BGP`, `CC` or `Registry`.
pub open spec fn bgp_tools_format(output: Seq<char>) -> bool {
    let ls = lines(output);
    ls.len() >= 2 && {
        let first = trim(ls[0]);
        has_infix(first, "AS"@) && has_infix(first, "|"@) && (has_infix(first, "BGP"@)
            || has_infix(first, "CC"@) || has_infix(first, "Registry"@))
    }
}

/// Chooses how an answer is coloured on the client.
pub struct OutputColorizer;

impl OutputColorizer {
    /// The scheme for `output`: bgp.tools' for its tables, else the
    /// registries' one.
    pub fn detect_scheme(output: &str) -> (r: ColorScheme)
        ensures
            r == (if bgp_tools_format(output@) {
                ColorScheme::BgpTools
            } else {
                ColorScheme::Ripe
            }),
    {
        if Self::is_bgp_tools_format(output) {
            ColorScheme::BgpTools
        } else {
            ColorScheme::Ripe
        }
    }

    /// Whether `output` is a bgp.tools table.
    pub fn is_bgp_tools_format(output: &str) -> (r: bool)
        ensures
            r == bgp_tools_format(output@),
    {
        let ls = split_lines(&chars_of(output));
        if ls.len() < 2 {
            return false;
        }
        assert(seqs_of(ls@)[0] == ls@[0]@);
        let first = trimmed(&ls[0]);
        contains(&first, &chars_of("AS")) && contains(&first, &chars_of("|")) && (contains(
            &first,
            &chars_of("BGP"),
        ) || contains(&first, &chars_of("CC")) || contains(&first, &chars_of("Registry")))
    }
}

} // verus!
