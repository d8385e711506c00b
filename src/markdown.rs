//! Whether an answer is Markdown.  Rendering it is terminal presentation and
//! lives with the program.
use vstd::prelude::*;

use crate::patterns::{find_pattern, pattern_found};

verus! {

/// Marks of Markdown: headers, bold, italic, inline code, code blocks,
/// unordered and ordered lists, links, images, block quotes.
pub open spec fn markdown_patterns() -> Seq<Seq<char>> {
    seq![
        "^#{1,6}\\s"@,
        "\\*\\*.*\\*\\*"@,
        "\\*.*\\*"@,
        "`.*`"@,
        "```"@,
        "^\\s*[-*+]\\s"@,
        "^\\s*\\d+\\.\\s"@,
        "\\[.*\\]\\(.*\\)"@,
        "!\\[.*\\]\\(.*\\)"@,
        "^\\s*>"@,
    ]
}

/// One of the Markdown marks is found in `text`.
pub open spec fn looks_like_markdown(text: Seq<char>) -> bool {
    exists|k: int|
        0 <= k < markdown_patterns().len() && #[trigger] pattern_found(markdown_patterns()[k], text)
            == Some(true)
}

/// Renders Markdown answers for the terminal.
pub struct MarkdownRenderer {
    /// Whether images are shown.
    pub enable_images: bool,
}

impl MarkdownRenderer {
    pub fn new(enable_images: bool) -> (r: Self)
        ensures
            r.enable_images == enable_images,
    {
        MarkdownRenderer { enable_images }
    }

    /// Whether `text` shows one of the marks of Markdown.
    pub fn is_markdown(text: &str) -> (r: bool)
        ensures
            r == looks_like_markdown(text@),
    {
        let mut patterns: Vec<&str> = Vec::new();
        patterns.push("^#{1,6}\\s");
        patterns.push("\\*\\*.*\\*\\*");
        patterns.push("\\*.*\\*");
        patterns.push("`.*`");
        patterns.push("```");
        patterns.push("^\\s*[-*+]\\s");
        patterns.push("^\\s*\\d+\\.\\s");
        patterns.push("\\[.*\\]\\(.*\\)");
        patterns.push("!\\[.*\\]\\(.*\\)");
        patterns.push("^\\s*>");
        assert(patterns@.map_values(|p: &str| p@) =~= markdown_patterns());
        let mut k: usize = 0;
        while k < patterns.len()
            invariant
                k <= patterns@.len(),
                patterns@.map_values(|p: &str| p@) == markdown_patterns(),
                forall|j: int|
                    0 <= j < k ==> #[trigger] pattern_found(markdown_patterns()[j], text@) != Some(
                        true,
                    ),
            decreases patterns.len() - k,
        {
            assert(markdown_patterns()[k as int] == patterns@[k as int]@);
            if find_pattern(patterns[k], text) == Some(true) {
                return true;
            }
            k += 1;
        }
        false
    }
}

} // verus!
