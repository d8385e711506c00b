//! The well-known WHOIS servers and the choice of the server to ask first.
use vstd::prelude::*;

use crate::text::{
    chars_of, close_piece, has_prefix, is_space_spec, line_fold, lines, trim_start, word_fold, seqs_of, split_lines, split_words, starts_with, string_of,
    trim, trimmed, upper_of, uppercase, words,
};

verus! {

pub const IANA_WHOIS_SERVER: &'static str = "whois.iana.org";

pub const DEFAULT_WHOIS_SERVER: &'static str = "whois.ripe.net";

pub const DEFAULT_WHOIS_PORT: u16 = 43;

pub const DN42_WHOIS_SERVER: &'static str = "lantian.pub";

pub const DN42_WHOIS_PORT: u16 = 43;

pub const BGPTOOLS_WHOIS_SERVER: &'static str = "bgp.tools";

pub const BGPTOOLS_WHOIS_PORT: u16 = 43;

pub const RADB_WHOIS_SERVER: &'static str = "whois.radb.net";

pub const RADB_WHOIS_PORT: u16 = 43;

/// Autonomous system numbers of the DN42 private numbering space start with
/// this text (compared without regard to case).
pub const DN42_ASN_PREFIX: &'static str = "AS42424";

/// The role a server plays; referral and fallback decisions go by it.
#[derive(Clone, Copy, Debug, PartialEq, Eq, Structural)]
pub enum ServerKind {
    /// The root authority (IANA), whose answers refer to another server.
    Iana,
    /// The default regional registry (RIPE).
    Ripe,
    /// The DN42 mirror.
    Dn42,
    /// The bgp.tools mirror.
    BgpTools,
    /// The broad-coverage fallback registry (RADB).
    Radb,
    /// A server named by the user or found by referral.
    Custom,
}

/// A WHOIS server: where it listens and what it is called.
#[derive(Clone, Debug)]
pub struct WhoisServer {
    pub host: String,
    pub port: u16,
    pub name: String,
    pub kind: ServerKind,
}

/// The mathematical value of a [`WhoisServer`].
pub ghost struct ServerView {
    pub host: Seq<char>,
    pub port: u16,
    pub name: Seq<char>,
    pub kind: ServerKind,
}

impl View for WhoisServer {
    type V = ServerView;

    open spec fn view(&self) -> ServerView {
        ServerView { host: self.host@, port: self.port, name: self.name@, kind: self.kind }
    }
}

pub open spec fn server_view(host: Seq<char>, port: u16, name: Seq<char>, kind: ServerKind) -> ServerView {
    ServerView { host, port, name, kind }
}

pub open spec fn iana_view() -> ServerView {
    server_view(IANA_WHOIS_SERVER@, DEFAULT_WHOIS_PORT, "IANA"@, ServerKind::Iana)
}

pub open spec fn ripe_view() -> ServerView {
    server_view(DEFAULT_WHOIS_SERVER@, DEFAULT_WHOIS_PORT, "RIPE"@, ServerKind::Ripe)
}

pub open spec fn dn42_view() -> ServerView {
    server_view(DN42_WHOIS_SERVER@, DN42_WHOIS_PORT, "DN42"@, ServerKind::Dn42)
}

pub open spec fn bgptools_view() -> ServerView {
    server_view(BGPTOOLS_WHOIS_SERVER@, BGPTOOLS_WHOIS_PORT, "BGP.tools"@, ServerKind::BgpTools)
}

pub open spec fn radb_view() -> ServerView {
    server_view(RADB_WHOIS_SERVER@, RADB_WHOIS_PORT, "RADB"@, ServerKind::Radb)
}

pub open spec fn custom_view(host: Seq<char>, port: u16) -> ServerView {
    server_view(host, port, "Custom"@, ServerKind::Custom)
}

/// The decimal digit for `d < 10`.
pub open spec fn digit_char(d: nat) -> char {
    ((d + 48) as u8) as char
}

/// The decimal notation of `n`, without leading zeros.
pub open spec fn decimal(n: nat) -> Seq<char>
    decreases n,
{
    if n < 10 {
        seq![digit_char(n)]
    } else {
        decimal(n / 10).push(digit_char(n % 10))
    }
}

/// The decimal notation of `n`.
pub fn decimal_chars(n: u16) -> (r: Vec<char>)
    ensures
        r@ == decimal(n as nat),
    decreases n,
{
    let d = ((n % 10) as u8 + 48) as char;
    if n < 10 {
        let mut r: Vec<char> = Vec::new();
        r.push(d);
        assert(r@ =~= decimal(n as nat));
        r
    } else {
        let mut r = decimal_chars(n / 10);
        r.push(d);
        r
    }
}

impl WhoisServer {
    pub fn new(host: &str, port: u16, name: &str, kind: ServerKind) -> (r: Self)
        ensures
            r@ == server_view(host@, port, name@, kind),
    {
        WhoisServer { host: host.to_owned(), port, name: name.to_owned(), kind }
    }

    pub fn iana() -> (r: Self)
        ensures
            r@ == iana_view(),
    {
        Self::new(IANA_WHOIS_SERVER, DEFAULT_WHOIS_PORT, "IANA", ServerKind::Iana)
    }

    pub fn default() -> (r: Self)
        ensures
            r@ == ripe_view(),
    {
        Self::new(DEFAULT_WHOIS_SERVER, DEFAULT_WHOIS_PORT, "RIPE", ServerKind::Ripe)
    }

    pub fn dn42() -> (r: Self)
        ensures
            r@ == dn42_view(),
    {
        Self::new(DN42_WHOIS_SERVER, DN42_WHOIS_PORT, "DN42", ServerKind::Dn42)
    }

    pub fn bgptools() -> (r: Self)
        ensures
            r@ == bgptools_view(),
    {
        Self::new(BGPTOOLS_WHOIS_SERVER, BGPTOOLS_WHOIS_PORT, "BGP.tools", ServerKind::BgpTools)
    }

    pub fn radb() -> (r: Self)
        ensures
            r@ == radb_view(),
    {
        Self::new(RADB_WHOIS_SERVER, RADB_WHOIS_PORT, "RADB", ServerKind::Radb)
    }

    pub fn custom(host: &str, port: u16) -> (r: Self)
        ensures
            r@ == custom_view(host@, port),
    {
        Self::new(host, port, "Custom", ServerKind::Custom)
    }

    /// `host:port`, the address to connect to.
    pub fn address(&self) -> (r: String)
        ensures
            r@ == self.host@ + seq![':'] + decimal(self.port as nat),
    {
        let mut v = chars_of(self.host.as_str());
        v.push(':');
        let digits = decimal_chars(self.port);
        crate::text::push_all(&mut v, &digits);
        string_of(&v)
    }

    /// A copy of this server.
    pub fn duplicate(&self) -> (r: Self)
        ensures
            r@ == self@,
    {
        WhoisServer {
            host: self.host.clone(),
            port: self.port,
            name: self.name.clone(),
            kind: self.kind,
        }
    }
}


/// The view of an optional string slice.
pub open spec fn opt_str(o: Option<&str>) -> Option<Seq<char>> {
    match o {
        Some(s) => Some(s@),
        None => None,
    }
}

/// The view of an optional string.
pub open spec fn opt_string(o: Option<String>) -> Option<Seq<char>> {
    match o {
        Some(s) => Some(s@),
        None => None,
    }
}

/// The target is an AS number of the DN42 numbering space, whatever the
/// case of its letters.
pub open spec fn is_dn42_target(domain: Seq<char>) -> bool {
    has_prefix(upper_of(domain), DN42_ASN_PREFIX@)
}

/// The server to ask first, in order of priority: a special mode, an
/// explicit server, the server named by the environment, the root authority.
pub open spec fn selected_server(
    domain: Seq<char>,
    use_dn42: bool,
    use_bgptools: bool,
    explicit_server: Option<Seq<char>>,
    env_server: Option<Seq<char>>,
    port: u16,
) -> ServerView {
    if use_dn42 || is_dn42_target(domain) {
        dn42_view()
    } else if use_bgptools {
        bgptools_view()
    } else if explicit_server is Some {
        custom_view(explicit_server->0, port)
    } else if env_server is Some {
        custom_view(env_server->0, port)
    } else {
        iana_view()
    }
}

/// A line that names the server to ask next: `whois:` or, failing that,
/// `refer:` at the start of the trimmed line.
pub open spec fn is_referral_line(l: Seq<char>) -> bool {
    has_prefix(trim(l), "whois:"@) || has_prefix(trim(l), "refer:"@)
}

/// The first referral line among `ls`, trimmed.
pub open spec fn first_referral_line(ls: Seq<Seq<char>>) -> Option<Seq<char>>
    decreases ls.len(),
{
    if ls.len() == 0 {
        None
    } else if is_referral_line(ls[0]) {
        Some(trim(ls[0]))
    } else {
        first_referral_line(ls.drop_first())
    }
}

/// The host that a root-authority answer refers to: the second word of its
/// first referral line, if that line has one.
pub open spec fn referral_host(response: Seq<char>) -> Option<Seq<char>> {
    match first_referral_line(lines(response)) {
        Some(l) => if words(l).len() >= 2 {
            Some(words(l)[1])
        } else {
            None
        },
        None => None,
    }
}

/// The host to ask after the root authority answered `response`: the one it
/// refers to, else the default regional registry.
pub open spec fn referred_host(response: Seq<char>) -> Seq<char> {
    match referral_host(response) {
        Some(h) => h,
        None => DEFAULT_WHOIS_SERVER@,
    }
}

/// Where no line starts with a referral field, there is no referral.
proof fn lemma_no_referral_line(ls: Seq<Seq<char>>)
    requires
        forall|i: int| 0 <= i < ls.len() ==> !is_referral_line(#[trigger] ls[i]),
    ensures
        first_referral_line(ls) is None,
    decreases ls.len(),
{
    if ls.len() > 0 {
        assert forall|i: int| 0 <= i < ls.drop_first().len() implies !is_referral_line(
            #[trigger] ls.drop_first()[i],
        ) by {
            assert(ls.drop_first()[i] == ls[i + 1]);
        }
        lemma_no_referral_line(ls.drop_first());
    }
}

/// An answer of the root authority in which no line starts, once trimmed,
/// with `whois:` or `refer:` sends the query to the default regional
/// registry, on the port that was asked.
pub proof fn lemma_referral_defaults_to_regional_registry(response: Seq<char>, port: u16)
    requires
        forall|i: int|
            0 <= i < lines(response).len() ==> !is_referral_line(#[trigger] lines(response)[i]),
    ensures
        custom_view(referred_host(response), port) == custom_view(DEFAULT_WHOIS_SERVER@, port),
{
    lemma_no_referral_line(lines(response));
}

/// Characters that are not white space extend the word being read.
proof fn lemma_word_fold_word(p: Seq<char>, w: Seq<char>)
    requires
        forall|i: int| 0 <= i < w.len() ==> !is_space_spec(#[trigger] w[i]),
    ensures
        word_fold(p + w) == (word_fold(p).0, word_fold(p).1 + w),
    decreases w.len(),
{
    if w.len() == 0 {
        assert(p + w =~= p);
        assert(word_fold(p).1 + w =~= word_fold(p).1);
    } else {
        lemma_word_fold_word(p, w.drop_last());
        assert((p + w).drop_last() =~= p + w.drop_last());
        assert(word_fold(p).1 + w =~= (word_fold(p).1 + w.drop_last()).push(w.last()));
    }
}

/// White space closes the word being read.
proof fn lemma_word_fold_space(p: Seq<char>, w: Seq<char>)
    requires
        w.len() > 0,
        forall|i: int| 0 <= i < w.len() ==> is_space_spec(#[trigger] w[i]),
    ensures
        word_fold(p + w) == (close_piece(word_fold(p).0, word_fold(p).1), Seq::<char>::empty()),
    decreases w.len(),
{
    assert((p + w).drop_last() =~= p + w.drop_last());
    if w.len() > 1 {
        lemma_word_fold_space(p, w.drop_last());
    } else {
        assert(p + w.drop_last() =~= p);
    }
}

/// Characters other than a newline extend the line being read.
proof fn lemma_line_fold_line(s: Seq<char>)
    requires
        forall|i: int| 0 <= i < s.len() ==> #[trigger] s[i] != '\n',
    ensures
        line_fold(s) == (Seq::<Seq<char>>::empty(), s),
    decreases s.len(),
{
    if s.len() > 0 {
        lemma_line_fold_line(s.drop_last());
        assert(s.drop_last().push(s.last()) =~= s);
    }
}

/// A response that is the one line `whois:`, white space, and a host
/// refers to that host; the query goes on to it on the port that was asked.
pub proof fn lemma_whois_line_refers(gap: Seq<char>, host: Seq<char>, port: u16)
    requires
        gap.len() > 0,
        forall|i: int| 0 <= i < gap.len() ==> is_space_spec(#[trigger] gap[i]) && gap[i] != '\n',
        host.len() > 0,
        forall|i: int| 0 <= i < host.len() ==> !is_space_spec(#[trigger] host[i]),
    ensures
        referral_host("whois:"@ + gap + host) == Some(host),
        custom_view(referred_host("whois:"@ + gap + host), port) == custom_view(host, port),
{
    reveal_strlit("whois:");
    let head = "whois:"@;
    let line = head + gap + host;
    assert forall|i: int| 0 <= i < line.len() implies #[trigger] line[i] != '\n' by {
        if i < head.len() {
        } else if i < head.len() + gap.len() {
            assert(line[i] == gap[i - head.len()]);
        } else {
            assert(line[i] == host[i - head.len() - gap.len()]);
            assert(!is_space_spec(host[i - head.len() - gap.len()]));
        }
    }
    lemma_line_fold_line(line);
    assert(lines(line) =~= seq![line]);
    assert(line[0] == 'w');
    assert(line.last() == host.last());
    assert(trim_start(line) == line);
    assert(trim(line) == line);
    assert(line.take(head.len() as int) =~= head);
    assert(is_referral_line(line));
    assert(seq![line].drop_first() =~= Seq::<Seq<char>>::empty());
    assert(first_referral_line(seq![line]) == Some(line));
    assert forall|i: int| 0 <= i < head.len() implies !is_space_spec(#[trigger] head[i]) by {}
    lemma_word_fold_word(Seq::empty(), head);
    assert(Seq::<char>::empty() + head =~= head);
    lemma_word_fold_space(head, gap);
    lemma_word_fold_word(head + gap, host);
    assert(Seq::<char>::empty() + host =~= host);
    assert(words(line) =~= seq![head, host]);
}

/// Whether an upper-cased target starts with the DN42 prefix.
pub fn has_dn42_prefix(upper: &str) -> (r: bool)
    ensures
        r == has_prefix(upper@, DN42_ASN_PREFIX@),
{
    let u = chars_of(upper);
    let p = chars_of(DN42_ASN_PREFIX);
    starts_with(&u, &p)
}

/// Whether the target is an AS number of the DN42 numbering space.
pub fn dn42_target(domain: &str) -> (r: bool)
    ensures
        r == is_dn42_target(domain@),
{
    let upper = uppercase(domain);
    has_dn42_prefix(upper.as_str())
}

/// Chooses the server that a query goes to first.
pub struct ServerSelector;

impl ServerSelector {
    /// The host that the root authority's `response` refers to, if any.
    pub fn extract_whois_server(response: &str) -> (r: Option<String>)
        ensures
            opt_string(r) == referral_host(response@),
    {
        let text = chars_of(response);
        let ls = split_lines(&text);
        let whois = chars_of("whois:");
        let refer = chars_of("refer:");
        let mut k: usize = 0;
        assert(seqs_of(ls@).skip(0) =~= seqs_of(ls@));
        while k < ls.len()
            invariant
                k <= ls@.len(),
                seqs_of(ls@) == lines(response@),
                whois@ == "whois:"@,
                refer@ == "refer:"@,
                first_referral_line(seqs_of(ls@)) == first_referral_line(
                    seqs_of(ls@).skip(k as int),
                ),
            decreases ls.len() - k,
        {
            assert(seqs_of(ls@).skip(k as int)[0] == ls@[k as int]@);
            let line = trimmed(&ls[k]);
            if starts_with(&line, &whois) || starts_with(&line, &refer) {
                // A word holds no white space, so it is its own trimmed form.
                let ws = split_words(&line);
                if ws.len() >= 2 {
                    return Some(string_of(&ws[1]));
                } else {
                    return None;
                }
            }
            assert(seqs_of(ls@).skip(k as int).drop_first() =~= seqs_of(ls@).skip(k + 1));
            k += 1;
        }
        None
    }

    /// The server to ask first.  `env_server` is the server that the
    /// environment names, if it names one.
    pub fn select_server(
        domain: &str,
        use_dn42: bool,
        use_bgptools: bool,
        explicit_server: Option<&str>,
        env_server: Option<&str>,
        port: u16,
    ) -> (r: WhoisServer)
        ensures
            r@ == selected_server(
                domain@,
                use_dn42,
                use_bgptools,
                opt_str(explicit_server),
                opt_str(env_server),
                port,
            ),
            is_dn42_target(domain@) ==> r@ == dn42_view(),
            use_dn42 ==> r@ == dn42_view(),
            !use_dn42 && !is_dn42_target(domain@) && use_bgptools ==> r@ == bgptools_view(),
            !use_dn42 && !is_dn42_target(domain@) && !use_bgptools && explicit_server is Some
                ==> r@ == custom_view(explicit_server->0@, port),
            !use_dn42 && !is_dn42_target(domain@) && !use_bgptools && explicit_server is None
                && env_server is Some ==> r@ == custom_view(env_server->0@, port),
            !use_dn42 && !is_dn42_target(domain@) && !use_bgptools && explicit_server is None
                && env_server is None ==> r@ == iana_view(),
    {
        if use_dn42 || dn42_target(domain) {
            return WhoisServer::dn42();
        }
        if use_bgptools {
            return WhoisServer::bgptools();
        }
        if let Some(server) = explicit_server {
            return WhoisServer::custom(server, port);
        }
        if let Some(server) = env_server {
            return WhoisServer::custom(server, port);
        }
        WhoisServer::iana()
    }

    /// The server to ask after the root authority answered `response` to a
    /// query on `port`.
    pub fn referred_server(response: &str, port: u16) -> (r: WhoisServer)
        ensures
            r@ == custom_view(referred_host(response@), port),
    {
        match Self::extract_whois_server(response) {
            Some(host) => WhoisServer::custom(host.as_str(), port),
            None => WhoisServer::custom(DEFAULT_WHOIS_SERVER, port),
        }
    }
}

} // verus!
