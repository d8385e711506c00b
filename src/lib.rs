//! A WHOIS client library with a backward-compatible extension protocol for
//! server-side colouring, Markdown and images: server selection, referral
//! through the root authority, capability negotiation, query building and
//! the fallback to a broad-coverage registry when an answer is empty.
pub mod cli;
pub mod colorize;
pub mod hyperlink;
pub mod markdown;
pub mod patterns;
pub mod protocol;
pub mod query;
pub mod servers;
pub mod text;

pub use cli::Cli;
pub use colorize::{ColorScheme, OutputColorizer};
pub use hyperlink::{create_hyperlink, detect_rir, is_rir_response, is_ripe_response, RirUrls};
pub use markdown::MarkdownRenderer;
pub use protocol::{ServerCapabilities, WhoisColorProtocol};
pub use query::{is_empty_result, Action, QueryResult, QuerySession, Stage, WhoisQuery};
pub use servers::{ServerKind, ServerSelector, WhoisServer};
