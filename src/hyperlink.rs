//! Which regional registry an answer comes from, the web query page of each
//! registry, and terminal (OSC 8) hyperlinks.
use vstd::prelude::*;

use vstd::utf8::encode_utf8;

use crate::patterns::{capture_group_one, group_one_captures, opt_strings};
use crate::servers::opt_str;
use crate::text::{
    char_vecs_of_strs, chars_of, contains_any, mentions_any, push_all, same_chars,
    string_of, trim, trimmed, upper_of, uppercase,
};

verus! {

/// `source:` fields at the start of a line; group 1 is the source's name.
pub const SOURCE_FIELD_PATTERN: &'static str = "(?m)^source:\\s*([A-Z-]+)";

pub const RIPE_QUERY_URL: &'static str = "https://apps.db.ripe.net/db-web-ui/query?searchtext=";

pub const ARIN_QUERY_URL: &'static str = "https://search.arin.net/rdap/?query=";

pub const APNIC_QUERY_URL: &'static str = "https://wq.apnic.net/apnic-bin/whois.pl?searchtext=";

pub const LACNIC_QUERY_URL: &'static str = "https://query.milacnic.lacnic.net/home?searchtext=";

pub const AFRINIC_QUERY_URL: &'static str = "https://afrinic.net/whois?searchtext=";

/// The views of string slices.
pub open spec fn str_seqs(v: Seq<&str>) -> Seq<Seq<char>> {
    v.map_values(|x: &str| x@)
}

/// A byte that URL encoding leaves as it is: an ASCII letter or digit, `-`,
/// `.`, `_` or `~`.
pub open spec fn is_unreserved(b: u8) -> bool {
    (48 <= b && b <= 57) || (65 <= b && b <= 90) || (97 <= b && b <= 122) || b == 45 || b == 46
        || b == 95 || b == 126
}

/// The upper-case hexadecimal digit for `d < 16`.
pub open spec fn hex_digit(d: u8) -> char {
    if d < 10 {
        ((48 + d) as u8) as char
    } else {
        ((55 + d) as u8) as char
    }
}

/// `bytes` percent-encoded: each byte that is not unreserved becomes `%`
/// and two upper-case hexadecimal digits.
pub open spec fn percent_encoded(bytes: Seq<u8>) -> Seq<char>
    decreases bytes.len(),
{
    if bytes.len() == 0 {
        Seq::empty()
    } else {
        let b = bytes[0];
        (if is_unreserved(b) {
            seq![b as char]
        } else {
            seq!['%', hex_digit(b / 16), hex_digit(b % 16)]
        }) + percent_encoded(bytes.drop_first())
    }
}

/// Relies on urlencoding's `encode`: every byte of the UTF-8 text but the
/// unreserved ones is percent-encoded, with upper-case digits.
#[verifier::external_body]
fn url_encode(s: &str) -> (r: String)
    ensures
        r@ == percent_encoded(encode_utf8(s@)),
{
    urlencoding::encode(s).into_owned()
}

/// The registry that a `source:` value names.
pub open spec fn rir_of_source(v: Seq<char>) -> Option<Seq<char>> {
    if v == "RIPE"@ {
        Some("ripe"@)
    } else if v == "ARIN"@ {
        Some("arin"@)
    } else if v == "APNIC"@ {
        Some("apnic"@)
    } else if v == "LACNIC"@ {
        Some("lacnic"@)
    } else if v == "AFRINIC"@ {
        Some("afrinic"@)
    } else {
        None
    }
}

/// The registries that the captured `source:` values name, each once, in
/// the order in which they first appear.
pub open spec fn rirs_from_sources(groups: Seq<Option<Seq<char>>>) -> Seq<Seq<char>>
    decreases groups.len(),
{
    if groups.len() == 0 {
        Seq::empty()
    } else {
        let prev = rirs_from_sources(groups.drop_last());
        match groups.last() {
            Some(g) => match rir_of_source(trim(g)) {
                Some(rir) => if prev.contains(rir) {
                    prev
                } else {
                    prev.push(rir)
                },
                None => prev,
            },
            None => prev,
        }
    }
}

/// The registries that the `source:` fields of `text` name.
pub open spec fn source_rirs(text: Seq<char>) -> Seq<Seq<char>> {
    match group_one_captures(SOURCE_FIELD_PATTERN@, text) {
        Some(groups) => rirs_from_sources(groups),
        None => Seq::empty(),
    }
}

pub open spec fn ripe_markers() -> Seq<Seq<char>> {
    seq!["% This is the RIPE Database query service"@, "whois.ripe.net"@, "RIPE-NCC"@]
}

pub open spec fn arin_markers() -> Seq<Seq<char>> {
    seq![
        "American Registry for Internet Numbers"@,
        "ARIN WHOIS data"@,
        "NetRange:"@,
        "whois.arin.net"@,
    ]
}

pub open spec fn apnic_markers() -> Seq<Seq<char>> {
    seq!["Asia Pacific Network Information Centre"@, "APNIC WHOIS Database"@, "whois.apnic.net"@]
}

pub open spec fn lacnic_markers() -> Seq<Seq<char>> {
    seq![
        "Latin American and Caribbean IP address Regional Registry"@,
        "LACNIC WHOIS"@,
        "whois.lacnic.net"@,
    ]
}

pub open spec fn afrinic_markers() -> Seq<Seq<char>> {
    seq!["African Network Information Centre"@, "AFRINIC WHOIS"@, "whois.afrinic.net"@]
}

/// The registry that the wording of `text` points to, tried in the order
/// RIPE, ARIN, APNIC, LACNIC, AFRINIC.
pub open spec fn content_rir(text: Seq<char>) -> Option<Seq<char>> {
    if mentions_any(text, ripe_markers()) {
        Some("ripe"@)
    } else if mentions_any(text, arin_markers()) {
        Some("arin"@)
    } else if mentions_any(text, apnic_markers()) {
        Some("apnic"@)
    } else if mentions_any(text, lacnic_markers()) {
        Some("lacnic"@)
    } else if mentions_any(text, afrinic_markers()) {
        Some("afrinic"@)
    } else {
        None
    }
}

/// The registry an answer comes from: the first that a `source:` field
/// names, else the one its wording points to.
pub open spec fn detected_rir(text: Seq<char>) -> Option<Seq<char>> {
    let rirs = source_rirs(text);
    if rirs.len() > 0 {
        Some(rirs[0])
    } else {
        content_rir(text)
    }
}

/// The web query page of a registry given by its upper-case name; RIPE's
/// for a name it does not know.
pub open spec fn query_base(upper_rir: Seq<char>) -> Seq<char> {
    if upper_rir == "ARIN"@ {
        ARIN_QUERY_URL@
    } else if upper_rir == "APNIC"@ {
        APNIC_QUERY_URL@
    } else if upper_rir == "LACNIC"@ {
        LACNIC_QUERY_URL@
    } else if upper_rir == "AFRINIC"@ {
        AFRINIC_QUERY_URL@
    } else {
        RIPE_QUERY_URL@
    }
}

/// `text` shown as a terminal hyperlink to `url` (OSC 8).
pub open spec fn hyperlink(url: Seq<char>, text: Seq<char>) -> Seq<char> {
    "\x1b]8;;"@ + url + "\x1b\\"@ + text + "\x1b]8;;\x1b\\"@
}

/// The registry that a `source:` value names.
pub fn rir_name(value: &Vec<char>) -> (r: Option<&'static str>)
    ensures
        opt_str(r) == rir_of_source(value@),
{
    if same_chars(value, &chars_of("RIPE")) {
        Some("ripe")
    } else if same_chars(value, &chars_of("ARIN")) {
        Some("arin")
    } else if same_chars(value, &chars_of("APNIC")) {
        Some("apnic")
    } else if same_chars(value, &chars_of("LACNIC")) {
        Some("lacnic")
    } else if same_chars(value, &chars_of("AFRINIC")) {
        Some("afrinic")
    } else {
        None
    }
}

/// Whether `name` is among `names`.
fn holds_name(names: &Vec<&'static str>, name: &str) -> (r: bool)
    ensures
        r == str_seqs(names@).contains(name@),
{
    let want = chars_of(name);
    let mut k: usize = 0;
    while k < names.len()
        invariant
            k <= names@.len(),
            want@ == name@,
            forall|j: int| 0 <= j < k ==> str_seqs(names@)[j] != name@,
        decreases names.len() - k,
    {
        let have = chars_of(names[k]);
        if same_chars(&have, &want) {
            assert(str_seqs(names@)[k as int] == name@);
            return true;
        }
        k += 1;
    }
    false
}

/// The registries that captured `source:` values name, each once, in order
/// of first appearance.
pub fn rirs_of_sources(groups: &Vec<Option<String>>) -> (r: Vec<&'static str>)
    ensures
        str_seqs(r@) == rirs_from_sources(opt_strings(groups@)),
{
    let mut rirs: Vec<&'static str> = Vec::new();
    let mut k: usize = 0;
    while k < groups.len()
        invariant
            k <= groups@.len(),
            str_seqs(rirs@) == rirs_from_sources(opt_strings(groups@).take(k as int)),
        decreases groups.len() - k,
    {
        assert(opt_strings(groups@).take(k + 1).drop_last() =~= opt_strings(groups@).take(
            k as int,
        ));
        assert(opt_strings(groups@).take(k + 1).last() == crate::servers::opt_string(
            groups@[k as int],
        ));
        if let Some(source) = &groups[k] {
            let value = trimmed(&chars_of(source.as_str()));
            if let Some(rir) = rir_name(&value) {
                if !holds_name(&rirs, rir) {
                    let ghost prev = rirs@;
                    rirs.push(rir);
                    assert(str_seqs(rirs@) =~= str_seqs(prev).push(rir@));
                }
            }
        }
        k += 1;
    }
    assert(opt_strings(groups@).take(groups@.len() as int) =~= opt_strings(groups@));
    rirs
}

/// The registries that the `source:` fields of `response` name, each once,
/// in order of first appearance.
pub fn detect_rir_from_source(response: &str) -> (r: Vec<&'static str>)
    ensures
        str_seqs(r@) == source_rirs(response@),
{
    match capture_group_one(SOURCE_FIELD_PATTERN, response) {
        Some(groups) => rirs_of_sources(&groups),
        None => {
            let r: Vec<&'static str> = Vec::new();
            assert(str_seqs(r@) =~= Seq::empty());
            r
        },
    }
}

/// The registry that the wording of `response` points to.
pub fn rir_from_content(response: &str) -> (r: Option<&'static str>)
    ensures
        opt_str(r) == content_rir(response@),
{
    let text = chars_of(response);
    let mut ripe: Vec<&str> = Vec::new();
    ripe.push("% This is the RIPE Database query service");
    ripe.push("whois.ripe.net");
    ripe.push("RIPE-NCC");
    let mut arin: Vec<&str> = Vec::new();
    arin.push("American Registry for Internet Numbers");
    arin.push("ARIN WHOIS data");
    arin.push("NetRange:");
    arin.push("whois.arin.net");
    let mut apnic: Vec<&str> = Vec::new();
    apnic.push("Asia Pacific Network Information Centre");
    apnic.push("APNIC WHOIS Database");
    apnic.push("whois.apnic.net");
    let mut lacnic: Vec<&str> = Vec::new();
    lacnic.push("Latin American and Caribbean IP address Regional Registry");
    lacnic.push("LACNIC WHOIS");
    lacnic.push("whois.lacnic.net");
    let mut afrinic: Vec<&str> = Vec::new();
    afrinic.push("African Network Information Centre");
    afrinic.push("AFRINIC WHOIS");
    afrinic.push("whois.afrinic.net");
    assert(str_seqs(ripe@) =~= ripe_markers());
    assert(str_seqs(arin@) =~= arin_markers());
    assert(str_seqs(apnic@) =~= apnic_markers());
    assert(str_seqs(lacnic@) =~= lacnic_markers());
    assert(str_seqs(afrinic@) =~= afrinic_markers());
    if contains_any(&text, &char_vecs_of_strs(&ripe)) {
        Some("ripe")
    } else if contains_any(&text, &char_vecs_of_strs(&arin)) {
        Some("arin")
    } else if contains_any(&text, &char_vecs_of_strs(&apnic)) {
        Some("apnic")
    } else if contains_any(&text, &char_vecs_of_strs(&lacnic)) {
        Some("lacnic")
    } else if contains_any(&text, &char_vecs_of_strs(&afrinic)) {
        Some("afrinic")
    } else {
        None
    }
}

/// The registry an answer comes from, given the registries that its
/// `source:` fields name: the first of them, else the one its wording
/// points to.
pub fn pick_rir(sources: &Vec<&'static str>, response: &str) -> (r: Option<&'static str>)
    ensures
        opt_str(r) == (if sources@.len() > 0 {
            Some(str_seqs(sources@)[0])
        } else {
            content_rir(response@)
        }),
{
    if sources.len() > 0 {
        Some(sources[0])
    } else {
        rir_from_content(response)
    }
}

/// The registry an answer comes from, if it can be told.
pub fn detect_rir(response: &str) -> (r: Option<&'static str>)
    ensures
        opt_str(r) == detected_rir(response@),
{
    let sources = detect_rir_from_source(response);
    pick_rir(&sources, response)
}

/// Whether the answer comes from one of the regional registries.
pub fn is_rir_response(response: &str) -> (r: bool)
    ensures
        r == (source_rirs(response@).len() > 0 || detected_rir(response@) is Some),
{
    let sources = detect_rir_from_source(response);
    sources.len() > 0 || pick_rir(&sources, response).is_some()
}

/// Whether the answer comes from RIPE NCC.
pub fn is_ripe_response(response: &str) -> (r: bool)
    ensures
        r == (source_rirs(response@).contains("ripe"@) || detected_rir(response@) == Some(
            "ripe"@,
        )),
{
    let sources = detect_rir_from_source(response);
    if holds_name(&sources, "ripe") {
        return true;
    }
    match pick_rir(&sources, response) {
        Some(rir) => same_chars(&chars_of(rir), &chars_of("ripe")),
        None => false,
    }
}

/// `text` as a terminal hyperlink to `url`.  Whether the terminal shows
/// such links is for the caller to decide.
pub fn create_hyperlink(url: &str, text: &str) -> (r: String)
    ensures
        r@ == hyperlink(url@, text@),
{
    let mut v = chars_of("\x1b]8;;");
    push_all(&mut v, &chars_of(url));
    push_all(&mut v, &chars_of("\x1b\\"));
    push_all(&mut v, &chars_of(text));
    push_all(&mut v, &chars_of("\x1b]8;;\x1b\\"));
    string_of(&v)
}

/// The web query page of a registry given by its upper-case name.
pub fn query_base_for(upper_rir: &str) -> (r: &'static str)
    ensures
        r@ == query_base(upper_rir@),
{
    let name = chars_of(upper_rir);
    if same_chars(&name, &chars_of("ARIN")) {
        ARIN_QUERY_URL
    } else if same_chars(&name, &chars_of("APNIC")) {
        APNIC_QUERY_URL
    } else if same_chars(&name, &chars_of("LACNIC")) {
        LACNIC_QUERY_URL
    } else if same_chars(&name, &chars_of("AFRINIC")) {
        AFRINIC_QUERY_URL
    } else {
        RIPE_QUERY_URL
    }
}

/// The web query pages of the regional registries.
pub struct RirUrls;

impl RirUrls {
    /// The page of registry `rir` (any case) that looks up `search_term`.
    pub fn get_url(rir: &str, search_term: &str) -> (r: String)
        ensures
            r@ == query_base(upper_of(rir@)) + percent_encoded(encode_utf8(search_term@)),
    {
        let upper = uppercase(rir);
        let mut v = chars_of(query_base_for(upper.as_str()));
        push_all(&mut v, &chars_of(url_encode(search_term).as_str()));
        string_of(&v)
    }
}

} // verus!
