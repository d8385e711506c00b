//! The WHOIS-COLOR extension protocol, versions 1.0 and 1.1: what a server
//! announces in answer to a probe, and the header lines that ask it for
//! colour, Markdown and images.
use vstd::prelude::*;

use crate::text::{
    chars_of, contains, copy_range, has_infix, has_prefix, join, join_chars, lines, list_items,
    push_all, same_chars, seqs_of, split_lines, split_list, split_words, starts_with, string_of,
    string_seqs, strings_of, char_vecs_of, trim, trimmed, words,
};

verus! {

pub const PROTOCOL_VERSION: &'static str = "1.1";

pub const LEGACY_VERSION: &'static str = "1.0";

pub const CAPABILITY_PROBE: &'static str = "X-WHOIS-COLOR-PROBE: v1.1\r\n";

pub const COLOR_REQUEST_PREFIX: &'static str = "X-WHOIS-COLOR: ";

pub const MARKDOWN_REQUEST_PREFIX: &'static str = "X-WHOIS-MARKDOWN: ";

pub const IMAGE_REQUEST_PREFIX: &'static str = "X-WHOIS-IMAGES: ";

pub const CAPABILITY_RESPONSE_PREFIX: &'static str = "X-WHOIS-COLOR-SUPPORT: ";

pub const COLOR_APPLIED_MARKER: &'static str = "X-WHOIS-COLOR-APPLIED:";

pub const ANSI_ESCAPE_INTRODUCER: &'static str = "\x1b[";

/// How long a capability probe may take, in milliseconds: much less than a
/// query, since most servers never answer one.
pub const CAPABILITY_TIMEOUT_MS: u64 = 2000;

/// The extension protocol; its methods hold no state.
pub struct WhoisColorProtocol;

/// What a server supports of the extension protocol.
#[derive(Clone, Debug, PartialEq)]
pub struct ServerCapabilities {
    pub supports_color: bool,
    pub color_schemes: Vec<String>,
    pub protocol_version: String,
    pub supports_markdown: bool,
    pub supports_images: bool,
    pub image_formats: Vec<String>,
}

/// The mathematical value of [`ServerCapabilities`].
pub ghost struct CapabilitiesView {
    pub supports_color: bool,
    pub color_schemes: Seq<Seq<char>>,
    pub protocol_version: Seq<char>,
    pub supports_markdown: bool,
    pub supports_images: bool,
    pub image_formats: Seq<Seq<char>>,
}

impl View for ServerCapabilities {
    type V = CapabilitiesView;

    open spec fn view(&self) -> CapabilitiesView {
        CapabilitiesView {
            supports_color: self.supports_color,
            color_schemes: string_seqs(self.color_schemes@),
            protocol_version: self.protocol_version@,
            supports_markdown: self.supports_markdown,
            supports_images: self.supports_images,
            image_formats: string_seqs(self.image_formats@),
        }
    }
}

/// No support at all: what a plain WHOIS server has.
pub open spec fn no_capabilities() -> CapabilitiesView {
    CapabilitiesView {
        supports_color: false,
        color_schemes: Seq::empty(),
        protocol_version: "none"@,
        supports_markdown: false,
        supports_images: false,
        image_formats: Seq::empty(),
    }
}

impl Default for ServerCapabilities {
    fn default() -> (r: Self)
        ensures
            r@ == no_capabilities(),
    {
        let r = ServerCapabilities {
            supports_color: false,
            color_schemes: Vec::new(),
            protocol_version: "none".to_owned(),
            supports_markdown: false,
            supports_images: false,
            image_formats: Vec::new(),
        };
        assert(r@.color_schemes =~= Seq::empty());
        assert(r@.image_formats =~= Seq::empty());
        r
    }
}

/// A server that announced protocol `version` and nothing else yet.
pub open spec fn announced(version: Seq<char>) -> CapabilitiesView {
    CapabilitiesView {
        supports_color: true,
        color_schemes: Seq::empty(),
        protocol_version: version,
        supports_markdown: false,
        supports_images: false,
        image_formats: Seq::empty(),
    }
}

/// `c` updated by one `key=value` field of a capability line; a field of
/// another key leaves it as it is.
pub open spec fn apply_field(c: CapabilitiesView, t: Seq<char>) -> CapabilitiesView {
    if has_prefix(t, "schemes="@) {
        CapabilitiesView { color_schemes: list_items(t.skip("schemes="@.len() as int), ','), ..c }
    } else if has_prefix(t, "markdown="@) {
        CapabilitiesView { supports_markdown: t.skip("markdown="@.len() as int) == "true"@, ..c }
    } else if has_prefix(t, "images="@) {
        CapabilitiesView {
            supports_images: t.skip("images="@.len() as int).len() > 0,
            image_formats: list_items(t.skip("images="@.len() as int), ','),
            ..c
        }
    } else {
        c
    }
}

/// `c` updated by the fields `ts`, from the first to the last.
pub open spec fn apply_fields(c: CapabilitiesView, ts: Seq<Seq<char>>) -> CapabilitiesView
    decreases ts.len(),
{
    if ts.len() == 0 {
        c
    } else {
        apply_field(apply_fields(c, ts.drop_last()), ts.last())
    }
}

/// What the text after the capability prefix announces: its first word is
/// the protocol version, the other words are fields.
pub open spec fn capability_line(data: Seq<char>) -> CapabilitiesView {
    let ws = words(data);
    if ws.len() == 0 {
        no_capabilities()
    } else {
        apply_fields(announced(ws[0]), ws.skip(1))
    }
}

/// The first line among `ls` that starts with the capability prefix once
/// trimmed, trimmed.
pub open spec fn first_capability_line(ls: Seq<Seq<char>>) -> Option<Seq<char>>
    decreases ls.len(),
{
    if ls.len() == 0 {
        None
    } else if has_prefix(trim(ls[0]), CAPABILITY_RESPONSE_PREFIX@) {
        Some(trim(ls[0]))
    } else {
        first_capability_line(ls.drop_first())
    }
}

/// What a probe answer announces: its first capability line, read after the
/// prefix; no support where it has none.
pub open spec fn capability_response(response: Seq<char>) -> CapabilitiesView {
    match first_capability_line(lines(response)) {
        Some(l) => capability_line(l.skip(CAPABILITY_RESPONSE_PREFIX@.len() as int)),
        None => no_capabilities(),
    }
}

/// The colour scheme to ask for: the preferred one where the server offers
/// it, else the first that it offers; none where it supports no colour.
pub open spec fn chosen_scheme(c: CapabilitiesView, preferred: Option<Seq<char>>) -> Option<Seq<char>> {
    if !c.supports_color {
        None
    } else if preferred is Some && c.color_schemes.contains(preferred->0) {
        preferred
    } else if c.color_schemes.len() > 0 {
        Some(c.color_schemes[0])
    } else {
        None
    }
}

pub open spec fn crlf() -> Seq<char> {
    "\r\n"@
}

/// The colour header line, if a scheme can be chosen.
pub open spec fn color_header(c: CapabilitiesView, preferred: Option<Seq<char>>) -> Seq<char> {
    match chosen_scheme(c, preferred) {
        Some(s) => COLOR_REQUEST_PREFIX@ + "scheme="@ + s + crlf(),
        None => Seq::empty(),
    }
}

/// The Markdown header line, if the server supports it and it is wanted.
pub open spec fn markdown_header(c: CapabilitiesView, want: bool) -> Seq<char> {
    if c.supports_markdown && want {
        MARKDOWN_REQUEST_PREFIX@ + "true"@ + crlf()
    } else {
        Seq::empty()
    }
}

/// The images header line, listing the server's own formats, if it supports
/// images with at least one format and they are wanted.
pub open spec fn images_header(c: CapabilitiesView, want: bool) -> Seq<char> {
    if c.supports_images && want && c.image_formats.len() > 0 {
        IMAGE_REQUEST_PREFIX@ + join(c.image_formats, ","@) + crlf()
    } else {
        Seq::empty()
    }
}

/// The query sent to a server with capabilities `c`: the header lines in the
/// order colour, Markdown, images, then the target line; the bare target
/// line where there is no header.
pub open spec fn enhanced_query(
    target: Seq<char>,
    c: CapabilitiesView,
    preferred: Option<Seq<char>>,
    markdown: bool,
    images: bool,
) -> Seq<char> {
    let headers = color_header(c, preferred) + markdown_header(c, markdown) + images_header(
        c,
        images,
    );
    if headers.len() == 0 {
        target + crlf()
    } else {
        headers + target + crlf()
    }
}

/// The colour-only query of protocol version 1.0: the colour header, if a
/// scheme can be chosen, then the target line.
pub open spec fn color_query(target: Seq<char>, c: CapabilitiesView, preferred: Option<Seq<char>>) -> Seq<char> {
    match chosen_scheme(c, preferred) {
        Some(s) => COLOR_REQUEST_PREFIX@ + "scheme="@ + s + crlf() + target + crlf(),
        None => target + crlf(),
    }
}

/// The response carries colour that the server applied: an ANSI escape
/// sequence or the marker line.
pub open spec fn server_colored(response: Seq<char>) -> bool {
    has_infix(response, ANSI_ESCAPE_INTRODUCER@) || has_infix(response, COLOR_APPLIED_MARKER@)
}


/// With no support for the extension, the query is the bare target line,
/// whatever colour scheme, Markdown or images are asked for.
pub proof fn lemma_plain_query_without_support(
    target: Seq<char>,
    preferred: Option<Seq<char>>,
    markdown: bool,
    images: bool,
)
    ensures
        enhanced_query(target, no_capabilities(), preferred, markdown, images) == target + crlf(),
{
    let c = no_capabilities();
    assert(color_header(c, preferred) + markdown_header(c, markdown) + images_header(c, images)
        =~= Seq::<char>::empty());
}

/// A server that offers the one scheme `ripe`, asked for it, gets exactly
/// the colour header and the target line, where it is asked for neither
/// Markdown nor images that it supports.
pub proof fn lemma_ripe_color_query(
    target: Seq<char>,
    c: CapabilitiesView,
    markdown: bool,
    images: bool,
)
    requires
        c.supports_color,
        c.color_schemes == seq!["ripe"@],
        !(c.supports_markdown && markdown),
        !(c.supports_images && images && c.image_formats.len() > 0),
    ensures
        enhanced_query(target, c, Some("ripe"@), markdown, images)
            == "X-WHOIS-COLOR: scheme=ripe\r\n"@ + target + "\r\n"@,
{
    reveal_strlit("X-WHOIS-COLOR: ");
    reveal_strlit("scheme=");
    reveal_strlit("ripe");
    reveal_strlit("\r\n");
    reveal_strlit("X-WHOIS-COLOR: scheme=ripe\r\n");
    assert(c.color_schemes[0] == "ripe"@);
    let headers = color_header(c, Some("ripe"@)) + markdown_header(c, markdown) + images_header(
        c,
        images,
    );
    assert(headers =~= "X-WHOIS-COLOR: scheme=ripe\r\n"@);
    assert(enhanced_query(target, c, Some("ripe"@), markdown, images) =~= headers + target
        + "\r\n"@);
}

/// A version 1.1 server that offers the scheme `ripe`, Markdown and the
/// image formats `png` and `jpg`, asked for all of them, gets the headers in
/// the order colour, Markdown, images, then the target line.
pub proof fn lemma_full_query(target: Seq<char>, c: CapabilitiesView)
    requires
        c.supports_color,
        c.color_schemes == seq!["ripe"@],
        c.supports_markdown,
        c.supports_images,
        c.image_formats == seq!["png"@, "jpg"@],
    ensures
        enhanced_query(target, c, Some("ripe"@), true, true) == "X-WHOIS-COLOR: scheme=ripe\r\n"@
            + "X-WHOIS-MARKDOWN: true\r\n"@ + "X-WHOIS-IMAGES: png,jpg\r\n"@ + target + "\r\n"@,
{
    reveal_strlit("X-WHOIS-COLOR: ");
    reveal_strlit("scheme=");
    reveal_strlit("ripe");
    reveal_strlit("\r\n");
    reveal_strlit("X-WHOIS-COLOR: scheme=ripe\r\n");
    reveal_strlit("X-WHOIS-MARKDOWN: ");
    reveal_strlit("true");
    reveal_strlit("X-WHOIS-MARKDOWN: true\r\n");
    reveal_strlit("X-WHOIS-IMAGES: ");
    reveal_strlit("png");
    reveal_strlit("jpg");
    reveal_strlit(",");
    reveal_strlit("X-WHOIS-IMAGES: png,jpg\r\n");
    assert(c.color_schemes[0] == "ripe"@);
    assert(c.image_formats.drop_last() =~= seq!["png"@]);
    assert(join(seq!["png"@], ","@) == "png"@);
    assert(c.image_formats.last() == "jpg"@);
    assert(join(c.image_formats, ","@) == join(c.image_formats.drop_last(), ","@) + ","@
        + c.image_formats.last());
    assert(join(c.image_formats, ","@) =~= "png"@ + ","@ + "jpg"@);
    assert(color_header(c, Some("ripe"@)) =~= "X-WHOIS-COLOR: scheme=ripe\r\n"@);
    assert(markdown_header(c, true) =~= "X-WHOIS-MARKDOWN: true\r\n"@);
    assert(images_header(c, true) =~= "X-WHOIS-IMAGES: png,jpg\r\n"@);
    let headers = color_header(c, Some("ripe"@)) + markdown_header(c, true) + images_header(c, true);
    assert(headers.len() > 0);
    assert(enhanced_query(target, c, Some("ripe"@), true, true) =~= "X-WHOIS-COLOR: scheme=ripe\r\n"@
        + "X-WHOIS-MARKDOWN: true\r\n"@ + "X-WHOIS-IMAGES: png,jpg\r\n"@ + target + "\r\n"@);
}

/// The text after `prefix` in `part`, where `part` starts with it.
fn after_prefix(part: &Vec<char>, prefix: &Vec<char>) -> (r: Vec<char>)
    requires
        has_prefix(part@, prefix@),
    ensures
        r@ == part@.skip(prefix@.len() as int),
{
    let r = copy_range(part, prefix.len(), part.len());
    assert(r@ =~= part@.skip(prefix@.len() as int));
    r
}

impl WhoisColorProtocol {
    /// The probe line, followed by the empty line that ends the request.
    pub fn probe_payload(&self) -> (r: String)
        ensures
            r@ == CAPABILITY_PROBE@ + crlf(),
    {
        let mut v = chars_of(CAPABILITY_PROBE);
        let end = chars_of("\r\n");
        push_all(&mut v, &end);
        string_of(&v)
    }

    /// What a server announced in answer to a probe.
    pub fn parse_capability_response(&self, response: &str) -> (r: ServerCapabilities)
        ensures
            r@ == capability_response(response@),
    {
        let text = chars_of(response);
        let ls = split_lines(&text);
        let prefix = chars_of(CAPABILITY_RESPONSE_PREFIX);
        let mut k: usize = 0;
        assert(seqs_of(ls@).skip(0) =~= seqs_of(ls@));
        while k < ls.len()
            invariant
                k <= ls@.len(),
                seqs_of(ls@) == lines(response@),
                prefix@ == CAPABILITY_RESPONSE_PREFIX@,
                first_capability_line(seqs_of(ls@)) == first_capability_line(
                    seqs_of(ls@).skip(k as int),
                ),
            decreases ls.len() - k,
        {
            assert(seqs_of(ls@).skip(k as int)[0] == ls@[k as int]@);
            let line = trimmed(&ls[k]);
            if starts_with(&line, &prefix) {
                let data = string_of(&after_prefix(&line, &prefix));
                return self.parse_capability_line(data.as_str());
            }
            assert(seqs_of(ls@).skip(k as int).drop_first() =~= seqs_of(ls@).skip(k + 1));
            k += 1;
        }
        ServerCapabilities::default()
    }

    /// What the text after the capability prefix announces.
    pub fn parse_capability_line(&self, capability_data: &str) -> (r: ServerCapabilities)
        ensures
            r@ == capability_line(capability_data@),
    {
        let text = chars_of(capability_data);
        let parts = split_words(&text);
        if parts.len() == 0 {
            return ServerCapabilities::default();
        }
        let ghost ws = seqs_of(parts@);
        let mut caps = ServerCapabilities {
            supports_color: true,
            color_schemes: Vec::new(),
            protocol_version: string_of(&parts[0]),
            supports_markdown: false,
            supports_images: false,
            image_formats: Vec::new(),
        };
        assert(caps@.color_schemes =~= Seq::empty());
        assert(caps@.image_formats =~= Seq::empty());
        assert(caps@ == announced(ws[0]));
        let schemes_key = chars_of("schemes=");
        let markdown_key = chars_of("markdown=");
        let images_key = chars_of("images=");
        let true_word = chars_of("true");
        let mut k: usize = 1;
        assert(ws.skip(1).take(0) =~= Seq::<Seq<char>>::empty());
        while k < parts.len()
            invariant
                1 <= k <= parts@.len(),
                ws == seqs_of(parts@),
                ws == words(capability_data@),
                schemes_key@ == "schemes="@,
                markdown_key@ == "markdown="@,
                images_key@ == "images="@,
                true_word@ == "true"@,
                caps@ == apply_fields(announced(ws[0]), ws.skip(1).take(k - 1)),
            decreases parts.len() - k,
        {
            let part = &parts[k];
            assert(ws.skip(1).take(k as int).drop_last() =~= ws.skip(1).take(k - 1));
            assert(ws.skip(1).take(k as int).last() == part@);
            if starts_with(part, &schemes_key) {
                let rest = after_prefix(part, &schemes_key);
                caps.color_schemes = strings_of(&split_list(&rest, ','));
            } else if starts_with(part, &markdown_key) {
                let rest = after_prefix(part, &markdown_key);
                caps.supports_markdown = same_chars(&rest, &true_word);
            } else if starts_with(part, &images_key) {
                let rest = after_prefix(part, &images_key);
                caps.supports_images = rest.len() > 0;
                caps.image_formats = strings_of(&split_list(&rest, ','));
            }
            k += 1;
            assert(caps@ =~= apply_fields(announced(ws[0]), ws.skip(1).take(k - 1)));
        }
        assert(ws.skip(1).take(k - 1) =~= ws.skip(1));
        caps
    }

    /// What a capability probe came to: no support where it failed,
    /// otherwise what the answer announces.
    pub fn capabilities_from_probe(&self, reply: Option<&str>) -> (r: ServerCapabilities)
        ensures
            reply is None ==> r@ == no_capabilities(),
            reply is Some ==> r@ == capability_response(reply->0@),
    {
        match reply {
            Some(text) => self.parse_capability_response(text),
            None => ServerCapabilities::default(),
        }
    }

    /// The colour scheme to ask a server with `capabilities` for.
    pub fn select_color_scheme(
        &self,
        capabilities: &ServerCapabilities,
        preferred_scheme: Option<&str>,
    ) -> (r: Option<String>)
        ensures
            crate::servers::opt_string(r) == chosen_scheme(
                capabilities@,
                crate::servers::opt_str(preferred_scheme),
            ),
    {
        if !capabilities.supports_color {
            return None;
        }
        if let Some(preferred) = preferred_scheme {
            let want = chars_of(preferred);
            let schemes = char_vecs_of(&capabilities.color_schemes);
            let mut k: usize = 0;
            while k < schemes.len()
                invariant
                    k <= schemes@.len(),
                    seqs_of(schemes@) == capabilities@.color_schemes,
                    want@ == preferred@,
                    crate::servers::opt_str(preferred_scheme) == Some(preferred@),
                    capabilities.supports_color,
                    forall|j: int| 0 <= j < k ==> seqs_of(schemes@)[j] != preferred@,
                decreases schemes.len() - k,
            {
                assert(seqs_of(schemes@)[k as int] == schemes@[k as int]@);
                if same_chars(&schemes[k], &want) {
                    assert(capabilities@.color_schemes[k as int] == preferred@);
                    assert(capabilities@.color_schemes.contains(preferred@));
                    let chosen = preferred.to_owned();
                    return Some(chosen);
                }
                k += 1;
            }
            assert(!capabilities@.color_schemes.contains(preferred@));
        }
        if capabilities.color_schemes.len() > 0 {
            Some(capabilities.color_schemes[0].clone())
        } else {
            None
        }
    }

    /// The query to send to a server with `capabilities`.
    pub fn build_enhanced_query(
        &self,
        query: &str,
        capabilities: &ServerCapabilities,
        preferred_scheme: Option<&str>,
        enable_markdown: bool,
        enable_images: bool,
    ) -> (r: String)
        ensures
            r@ == enhanced_query(
                query@,
                capabilities@,
                crate::servers::opt_str(preferred_scheme),
                enable_markdown,
                enable_images,
            ),
    {
        let end = chars_of("\r\n");
        let mut headers: Vec<char> = Vec::new();
        if capabilities.supports_color {
            if let Some(scheme) = self.select_color_scheme(capabilities, preferred_scheme) {
                push_all(&mut headers, &chars_of(COLOR_REQUEST_PREFIX));
                push_all(&mut headers, &chars_of("scheme="));
                push_all(&mut headers, &chars_of(scheme.as_str()));
                push_all(&mut headers, &end);
            }
        }
        assert(headers@ =~= color_header(capabilities@, crate::servers::opt_str(preferred_scheme)));
        let ghost color = headers@;
        if capabilities.supports_markdown && enable_markdown {
            push_all(&mut headers, &chars_of(MARKDOWN_REQUEST_PREFIX));
            push_all(&mut headers, &chars_of("true"));
            push_all(&mut headers, &end);
        }
        assert(headers@ =~= color + markdown_header(capabilities@, enable_markdown));
        let ghost color_markdown = headers@;
        if capabilities.supports_images && enable_images && capabilities.image_formats.len() > 0 {
            push_all(&mut headers, &chars_of(IMAGE_REQUEST_PREFIX));
            let formats = char_vecs_of(&capabilities.image_formats);
            push_all(&mut headers, &join_chars(&formats, &chars_of(",")));
            push_all(&mut headers, &end);
        }
        assert(headers@ =~= color_markdown + images_header(capabilities@, enable_images));
        let mut out = headers;
        push_all(&mut out, &chars_of(query));
        push_all(&mut out, &end);
        string_of(&out)
    }

    /// The colour-only query of protocol version 1.0.
    pub fn build_color_query(
        &self,
        query: &str,
        capabilities: &ServerCapabilities,
        preferred_scheme: Option<&str>,
    ) -> (r: String)
        ensures
            r@ == color_query(query@, capabilities@, crate::servers::opt_str(preferred_scheme)),
    {
        let end = chars_of("\r\n");
        let mut out: Vec<char> = Vec::new();
        if let Some(scheme) = self.select_color_scheme(capabilities, preferred_scheme) {
            push_all(&mut out, &chars_of(COLOR_REQUEST_PREFIX));
            push_all(&mut out, &chars_of("scheme="));
            push_all(&mut out, &chars_of(scheme.as_str()));
            push_all(&mut out, &end);
        }
        push_all(&mut out, &chars_of(query));
        push_all(&mut out, &end);
        string_of(&out)
    }

    /// Whether the server coloured `response` itself.
    pub fn is_server_colored(&self, response: &str) -> (r: bool)
        ensures
            r == server_colored(response@),
    {
        let text = chars_of(response);
        contains(&text, &chars_of(ANSI_ESCAPE_INTRODUCER)) || contains(
            &text,
            &chars_of(COLOR_APPLIED_MARKER),
        )
    }
}

} // verus!
