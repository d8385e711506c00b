//! Query orchestration: the empty-result classifier, the query result, and
//! the session that decides, step by step, which server to ask and what to
//! send it (referral, capability probe, fallback registry).  The caller
//! performs each exchange and hands the outcome back.
use vstd::prelude::*;

use crate::protocol::{
    capability_response, enhanced_query, no_capabilities, server_colored, CapabilitiesView,
    WhoisColorProtocol,
};
use crate::servers::{
    custom_view, dn42_view, opt_str, opt_string, radb_view, referral_host, referred_host,
    selected_server, ServerKind, ServerSelector, ServerView, WhoisServer,
};
use crate::text::{
    chars_of, contains, has_infix, join, join_chars, lines, lower_of, lowercase, push_all, seqs_of,
    split_lines, string_of, trim, trimmed, utf8_len, utf8_len_below,
};

verus! {

/// A trimmed response shorter than this many bytes may be boilerplate.
pub const SHORT_RESPONSE_BYTES: usize = 30;

/// A short response whose content lines, joined, take fewer bytes than this
/// is taken for empty.
pub const SHORT_CONTENT_BYTES: usize = 10;

/// How long a query may take, in seconds.
pub const TIMEOUT_SECONDS: u64 = 10;

/// Phrases (lower case) by which servers say that they found nothing.
pub open spec fn empty_markers() -> Seq<Seq<char>> {
    seq![
        "no found"@,
        "no match"@,
        "not found"@,
        "no data found"@,
        "no entries found"@,
        "no records found"@,
        "no such domain"@,
        "no whois server is known"@,
        "object does not exist"@,
        "%error: no objects found"@,
        "% no objects found"@,
    ]
}

/// A trimmed line that is neither empty nor a `%` or `#` comment.
pub open spec fn is_content(t: Seq<char>) -> bool {
    t.len() > 0 && t[0] != '%' && t[0] != '#'
}

/// The trimmed lines among `ls` that carry content.
pub open spec fn content_lines(ls: Seq<Seq<char>>) -> Seq<Seq<char>>
    decreases ls.len(),
{
    if ls.len() == 0 {
        Seq::empty()
    } else {
        let prev = content_lines(ls.drop_last());
        if is_content(trim(ls.last())) {
            prev.push(trim(ls.last()))
        } else {
            prev
        }
    }
}

/// The lower-cased response holds one of the phrases for "nothing found".
pub open spec fn names_no_result(lower: Seq<char>) -> bool {
    exists|k: int| 0 <= k < empty_markers().len() && has_infix(lower, #[trigger] empty_markers()[k])
}

/// The trimmed response `text`, whose lower-case form is `lower`, carries
/// no information: it is empty, says that nothing was found, holds nothing
/// but comments, or is a short stub with hardly any content.
pub open spec fn reads_as_empty(text: Seq<char>, lower: Seq<char>) -> bool {
    let content = content_lines(lines(text));
    text.len() == 0 || names_no_result(lower) || content.len() == 0 || (utf8_len(text)
        < SHORT_RESPONSE_BYTES && utf8_len(join(content, " "@)) < SHORT_CONTENT_BYTES)
}

/// The response carries no information.
pub open spec fn empty_result(response: Seq<char>) -> bool {
    reads_as_empty(trim(response), lower_of(trim(response)))
}

/// Where no line carries content, no content line is found.
proof fn lemma_no_content_lines(ls: Seq<Seq<char>>)
    requires
        forall|i: int| 0 <= i < ls.len() ==> !is_content(trim(#[trigger] ls[i])),
    ensures
        content_lines(ls).len() == 0,
    decreases ls.len(),
{
    if ls.len() > 0 {
        assert forall|i: int| 0 <= i < ls.drop_last().len() implies !is_content(
            trim(#[trigger] ls.drop_last()[i]),
        ) by {
            assert(ls.drop_last()[i] == ls[i]);
        }
        lemma_no_content_lines(ls.drop_last());
        assert(!is_content(trim(ls[ls.len() - 1])));
    }
}

/// A response that is white space alone, or whose lines are all blank or
/// `%` and `#` comments, carries no information.
pub proof fn lemma_blank_or_comment_only_is_empty(response: Seq<char>)
    requires
        forall|i: int|
            0 <= i < lines(trim(response)).len() ==> !is_content(
                trim(#[trigger] lines(trim(response))[i]),
            ),
    ensures
        empty_result(response),
{
    lemma_no_content_lines(lines(trim(response)));
}

/// A response whose lower-case form holds none of the phrases for "nothing
/// found", that has a content line and takes at least the short-response
/// length, carries information.
pub proof fn lemma_record_is_not_empty(response: Seq<char>)
    requires
        !names_no_result(lower_of(trim(response))),
        content_lines(lines(trim(response))).len() > 0,
        utf8_len(trim(response)) >= SHORT_RESPONSE_BYTES,
    ensures
        !empty_result(response),
{
}

fn empty_marker_chars() -> (r: Vec<Vec<char>>)
    ensures
        seqs_of(r@) == empty_markers(),
{
    let mut r: Vec<Vec<char>> = Vec::new();
    r.push(chars_of("no found"));
    r.push(chars_of("no match"));
    r.push(chars_of("not found"));
    r.push(chars_of("no data found"));
    r.push(chars_of("no entries found"));
    r.push(chars_of("no records found"));
    r.push(chars_of("no such domain"));
    r.push(chars_of("no whois server is known"));
    r.push(chars_of("object does not exist"));
    r.push(chars_of("%error: no objects found"));
    r.push(chars_of("% no objects found"));
    assert(seqs_of(r@) =~= empty_markers());
    r
}

/// Whether the trimmed response `text`, whose lower-case form is `lower`,
/// carries no information.
pub fn is_empty_lowered(text: &str, lower: &str) -> (r: bool)
    ensures
        r == reads_as_empty(text@, lower@),
{
    let tc = chars_of(text);
    if tc.len() == 0 {
        return true;
    }
    let lc = chars_of(lower);
    let markers = empty_marker_chars();
    let mut k: usize = 0;
    while k < markers.len()
        invariant
            k <= markers@.len(),
            seqs_of(markers@) == empty_markers(),
            lc@ == lower@,
            forall|j: int| 0 <= j < k ==> !has_infix(lower@, #[trigger] empty_markers()[j]),
        decreases markers.len() - k,
    {
        assert(seqs_of(markers@)[k as int] == markers@[k as int]@);
        if contains(&lc, &markers[k]) {
            assert(has_infix(lower@, empty_markers()[k as int]));
            return true;
        }
        k += 1;
    }
    let ls = split_lines(&tc);
    let mut content: Vec<Vec<char>> = Vec::new();
    let mut i: usize = 0;
    while i < ls.len()
        invariant
            i <= ls@.len(),
            seqs_of(ls@) == lines(text@),
            seqs_of(content@) == content_lines(seqs_of(ls@).take(i as int)),
        decreases ls.len() - i,
    {
        assert(seqs_of(ls@).take(i + 1).drop_last() =~= seqs_of(ls@).take(i as int));
        assert(seqs_of(ls@)[i as int] == ls@[i as int]@);
        let t = trimmed(&ls[i]);
        let ghost prev = content@;
        if t.len() > 0 && t[0] != '%' && t[0] != '#' {
            content.push(t);
            assert(seqs_of(content@) =~= seqs_of(prev).push(t@));
        }
        i += 1;
    }
    assert(seqs_of(ls@).take(ls@.len() as int) =~= seqs_of(ls@));
    if content.len() == 0 {
        return true;
    }
    utf8_len_below(&tc, SHORT_RESPONSE_BYTES) && utf8_len_below(
        &join_chars(&content, &chars_of(" ")),
        SHORT_CONTENT_BYTES,
    )
}

/// Whether a response carries no information, so that another registry may
/// be worth asking.
pub fn is_empty_result(response: &str) -> (r: bool)
    ensures
        r == empty_result(response@),
{
    let text = string_of(&trimmed(&chars_of(response)));
    let lower = lowercase(text.as_str());
    is_empty_lowered(text.as_str(), lower.as_str())
}


/// The outcome of a query.
#[derive(Debug)]
pub struct QueryResult {
    pub response: String,
    pub server_used: WhoisServer,
    pub server_colored: bool,
}

/// The mathematical value of a [`QueryResult`].
pub ghost struct ResultView {
    pub response: Seq<char>,
    pub server_used: ServerView,
    pub server_colored: bool,
}

impl View for QueryResult {
    type V = ResultView;

    open spec fn view(&self) -> ResultView {
        ResultView {
            response: self.response@,
            server_used: self.server_used@,
            server_colored: self.server_colored,
        }
    }
}

pub open spec fn result_view(response: Seq<char>, server_used: ServerView, server_colored: bool) -> ResultView {
    ResultView { response, server_used, server_colored }
}

impl QueryResult {
    pub fn new(response: String, server_used: WhoisServer) -> (r: Self)
        ensures
            r@ == result_view(response@, server_used@, false),
    {
        QueryResult { response, server_used, server_colored: false }
    }

    pub fn new_with_color(response: String, server_used: WhoisServer, server_colored: bool) -> (r: Self)
        ensures
            r@ == result_view(response@, server_used@, server_colored),
    {
        QueryResult { response, server_used, server_colored }
    }
}

/// Where a query session stands.
pub enum Stage {
    /// Waiting for the root authority's answer, which names the server to
    /// ask next.
    Referral,
    /// Waiting for the outcome of a capability probe of this server.
    Probe(WhoisServer),
    /// Waiting for this server's answer to the query.
    Answer(WhoisServer),
    /// The result has been handed out.
    Done,
}

/// The mathematical value of a [`Stage`].
pub ghost enum StageView {
    Referral,
    Probe(ServerView),
    Answer(ServerView),
    Done,
}

impl View for Stage {
    type V = StageView;

    open spec fn view(&self) -> StageView {
        match self {
            Stage::Referral => StageView::Referral,
            Stage::Probe(s) => StageView::Probe(s@),
            Stage::Answer(s) => StageView::Answer(s@),
            Stage::Done => StageView::Done,
        }
    }
}

/// What the caller of a session does next.
pub enum Action {
    /// Send `payload` to `server` and hand its whole answer to
    /// [`QuerySession::on_reply`].  A transport failure ends the query.
    Send { server: WhoisServer, payload: String },
    /// Probe `server` for the extension protocol and hand what it answered,
    /// or `None` where the probe failed, to [`QuerySession::on_probe`].
    Probe { server: WhoisServer },
    /// The query is over.
    Finish(QueryResult),
}

/// The mathematical value of an [`Action`].
pub ghost enum Step {
    Send(ServerView, Seq<char>),
    Probe(ServerView),
    Finish(ResultView),
}

impl View for Action {
    type V = Step;

    open spec fn view(&self) -> Step {
        match self {
            Action::Send { server, payload } => Step::Send(server@, payload@),
            Action::Probe { server } => Step::Probe(server@),
            Action::Finish(r) => Step::Finish(r@),
        }
    }
}

/// One query in progress.
pub struct QuerySession {
    /// What is looked up.
    pub target: String,
    /// The port of the server asked first; a referral keeps it.
    pub port: u16,
    /// Whether the extension protocol is used: servers other than the root
    /// authority and the DN42 mirror are probed, and the query carries the
    /// headers that their capabilities allow.
    pub enhanced: bool,
    pub markdown: bool,
    pub images: bool,
    pub preferred_scheme: Option<String>,
    /// Whether an empty answer may be retried at the fallback registry.
    pub fallback_allowed: bool,
    pub stage: Stage,
}

/// The query line for a plain WHOIS server.
pub open spec fn plain_query(target: Seq<char>) -> Seq<char> {
    target + "\r\n"@
}

/// Whether asking `server` starts with a capability probe: only where the
/// extension protocol is used, and never at the root authority, which is
/// asked for a referral, nor at the DN42 mirror, which is queried directly.
pub open spec fn probes_first(server: ServerView, enhanced: bool) -> bool {
    enhanced && server.kind != ServerKind::Iana && server.kind != ServerKind::Dn42
}

/// The stage after starting to ask `server`: the root authority is asked
/// for a referral first; a server is probed first where `probes_first`
/// holds; any other server is sent the bare query.
pub open spec fn opening_stage(server: ServerView, enhanced: bool) -> StageView {
    if server.kind == ServerKind::Iana {
        StageView::Referral
    } else if probes_first(server, enhanced) {
        StageView::Probe(server)
    } else {
        StageView::Answer(server)
    }
}

/// The first step of asking `server` about `target`.
pub open spec fn opening_step(target: Seq<char>, server: ServerView, enhanced: bool) -> Step {
    if probes_first(server, enhanced) {
        Step::Probe(server)
    } else {
        Step::Send(server, plain_query(target))
    }
}

/// The stage and step after the root authority answered `response`: the
/// server that it refers to, else the default registry, is asked on `port`.
pub open spec fn referral_reply(target: Seq<char>, port: u16, enhanced: bool, response: Seq<char>) -> (
    StageView,
    Step,
) {
    let next = custom_view(referred_host(response), port);
    (opening_stage(next, enhanced), opening_step(target, next, enhanced))
}

/// The stage and step after `server` answered `response`: the fallback
/// registry is asked where the answer is empty, retrying is allowed and
/// `server` is not the fallback registry itself; otherwise the query ends
/// with the answer as it came.
pub open spec fn answer_reply(
    target: Seq<char>,
    server: ServerView,
    enhanced: bool,
    fallback_allowed: bool,
    response: Seq<char>,
) -> (StageView, Step) {
    if fallback_allowed && server.kind != ServerKind::Radb && empty_result(response) {
        (opening_stage(radb_view(), enhanced), opening_step(target, radb_view(), enhanced))
    } else {
        (
            StageView::Done,
            Step::Finish(result_view(response, server, enhanced && server_colored(response))),
        )
    }
}

/// The DN42 mirror is sent the bare query at once, whatever colour,
/// Markdown or images are asked for: no probe, no referral.
pub proof fn lemma_dn42_mirror_queried_directly(target: Seq<char>, enhanced: bool)
    ensures
        opening_stage(dn42_view(), enhanced) == StageView::Answer(dn42_view()),
        opening_step(target, dn42_view(), enhanced) == Step::Send(dn42_view(), plain_query(target)),
{
}

/// A root-authority answer that refers to `host`, followed by that
/// registry's record: the registry is asked on the same port, and the query
/// ends with its record, unchanged, and the registry (not the root
/// authority) as the server used.
pub proof fn lemma_referral_ends_at_registry(
    target: Seq<char>,
    port: u16,
    enhanced: bool,
    fallback_allowed: bool,
    referral: Seq<char>,
    host: Seq<char>,
    record: Seq<char>,
)
    requires
        referral_host(referral) == Some(host),
        !empty_result(record),
    ensures
        referral_reply(target, port, enhanced, referral).0 == opening_stage(
            custom_view(host, port),
            enhanced,
        ),
        referral_reply(target, port, enhanced, referral).1 == opening_step(
            target,
            custom_view(host, port),
            enhanced,
        ),
        !enhanced ==> referral_reply(target, port, enhanced, referral).1 == Step::Send(
            custom_view(host, port),
            plain_query(target),
        ),
        answer_reply(target, custom_view(host, port), enhanced, fallback_allowed, record) == (
            StageView::Done,
            Step::Finish(
                result_view(record, custom_view(host, port), enhanced && server_colored(record)),
            ),
        ),
        custom_view(host, port).kind != ServerKind::Iana,
        custom_view(host, port).name != "IANA"@,
{
    reveal_strlit("Custom");
    reveal_strlit("IANA");
    assert("Custom"@.len() != "IANA"@.len());
}

/// An empty answer, where retrying is allowed, sends the unchanged target to
/// the fallback registry; whatever the fallback registry answers then ends
/// the query, even an empty answer.
pub proof fn lemma_fallback_asked_once(
    target: Seq<char>,
    server: ServerView,
    enhanced: bool,
    empty: Seq<char>,
    last: Seq<char>,
)
    requires
        server.kind != ServerKind::Radb,
        empty_result(empty),
    ensures
        answer_reply(target, server, enhanced, true, empty) == (
            opening_stage(radb_view(), enhanced),
            opening_step(target, radb_view(), enhanced),
        ),
        !enhanced ==> answer_reply(target, server, enhanced, true, empty).1 == Step::Send(
            radb_view(),
            plain_query(target),
        ),
        answer_reply(target, radb_view(), enhanced, true, last) == (
            StageView::Done,
            Step::Finish(result_view(last, radb_view(), enhanced && server_colored(last))),
        ),
{
}

impl QuerySession {
    /// The fields that stay the same through a session.
    pub open spec fn same_query(&self, other: &QuerySession) -> bool {
        &&& self.target@ == other.target@
        &&& self.port == other.port
        &&& self.enhanced == other.enhanced
        &&& self.markdown == other.markdown
        &&& self.images == other.images
        &&& opt_string(self.preferred_scheme) == opt_string(other.preferred_scheme)
        &&& self.fallback_allowed == other.fallback_allowed
    }

    /// The capabilities that a probe came to.
    pub open spec fn probed(reply: Option<Seq<char>>) -> CapabilitiesView {
        match reply {
            Some(text) => capability_response(text),
            None => no_capabilities(),
        }
    }

    /// Starts asking `server` afresh.
    fn open_with(&mut self, server: WhoisServer) -> (r: Action)
        ensures
            final(self).same_query(old(self)),
            final(self).stage@ == opening_stage(server@, old(self).enhanced),
            r@ == opening_step(old(self).target@, server@, old(self).enhanced),
    {
        if server.kind == ServerKind::Iana {
            self.stage = Stage::Referral;
            Action::Send { payload: plain_payload(self.target.as_str()), server }
        } else if self.enhanced && server.kind != ServerKind::Dn42 {
            self.stage = Stage::Probe(server.duplicate());
            Action::Probe { server }
        } else {
            self.stage = Stage::Answer(server.duplicate());
            Action::Send { payload: plain_payload(self.target.as_str()), server }
        }
    }

    /// Starts a query of `target` at `server`.
    pub fn begin(
        target: &str,
        server: WhoisServer,
        enhanced: bool,
        markdown: bool,
        images: bool,
        preferred_scheme: Option<&str>,
        fallback_allowed: bool,
    ) -> (r: (QuerySession, Action))
        ensures
            r.0.target@ == target@,
            r.0.port == server.port,
            r.0.enhanced == enhanced,
            r.0.markdown == markdown,
            r.0.images == images,
            opt_string(r.0.preferred_scheme) == opt_str(preferred_scheme),
            r.0.fallback_allowed == fallback_allowed,
            r.0.stage@ == opening_stage(server@, enhanced),
            r.1@ == opening_step(target@, server@, enhanced),
    {
        let preferred = match preferred_scheme {
            Some(p) => Some(p.to_owned()),
            None => None,
        };
        let mut session = QuerySession {
            target: target.to_owned(),
            port: server.port,
            enhanced,
            markdown,
            images,
            preferred_scheme: preferred,
            fallback_allowed,
            stage: Stage::Done,
        };
        let action = session.open_with(server);
        (session, action)
    }

    /// Whether the session waits for a server's answer.
    pub fn awaits_reply(&self) -> (r: bool)
        ensures
            r == (self.stage is Referral || self.stage is Answer),
    {
        match self.stage {
            Stage::Referral => true,
            Stage::Answer(_) => true,
            _ => false,
        }
    }

    /// Whether the session waits for the outcome of a probe.
    pub fn awaits_probe(&self) -> (r: bool)
        ensures
            r == self.stage is Probe,
    {
        match self.stage {
            Stage::Probe(_) => true,
            _ => false,
        }
    }

    /// Takes a server's whole answer.  After the root authority's, the
    /// server that it refers to (else the default registry) is asked, on the
    /// same port.  After the final server's, the query ends with that answer;
    /// but where the answer is empty, retrying is allowed and the fallback
    /// registry has not answered yet, the fallback registry is asked instead.
    pub fn on_reply(&mut self, response: String) -> (r: Action)
        requires
            old(self).stage is Referral || old(self).stage is Answer,
        ensures
            final(self).same_query(old(self)),
            old(self).stage is Referral ==> (final(self).stage@, r@) == referral_reply(
                old(self).target@,
                old(self).port,
                old(self).enhanced,
                response@,
            ),
            old(self).stage matches Stage::Answer(server) ==> (final(self).stage@, r@)
                == answer_reply(
                old(self).target@,
                server@,
                old(self).enhanced,
                old(self).fallback_allowed,
                response@,
            ),
    {
        match &self.stage {
            Stage::Referral => {
                let next = ServerSelector::referred_server(response.as_str(), self.port);
                self.open_with(next)
            },
            Stage::Answer(server) => {
                let server = server.duplicate();
                if self.fallback_allowed && server.kind != ServerKind::Radb && is_empty_result(
                    response.as_str(),
                ) {
                    self.open_with(WhoisServer::radb())
                } else {
                    let colored = self.enhanced && WhoisColorProtocol.is_server_colored(
                        response.as_str(),
                    );
                    self.stage = Stage::Done;
                    Action::Finish(QueryResult::new_with_color(response, server, colored))
                }
            },
            _ => {
                assert(false);
                Action::Probe { server: WhoisServer::radb() }
            },
        }
    }

    /// Takes the outcome of a probe (`None` where it failed) and sends the
    /// probed server the query that its capabilities allow.
    pub fn on_probe(&mut self, reply: Option<String>) -> (r: Action)
        requires
            old(self).stage is Probe,
        ensures
            final(self).same_query(old(self)),
            old(self).stage matches Stage::Probe(server) ==> {
                &&& final(self).stage@ == StageView::Answer(server@)
                &&& r@ == Step::Send(
                    server@,
                    enhanced_query(
                        old(self).target@,
                        Self::probed(opt_string(reply)),
                        opt_string(old(self).preferred_scheme),
                        old(self).markdown,
                        old(self).images,
                    ),
                )
            },
    {
        let server = match &self.stage {
            Stage::Probe(server) => server.duplicate(),
            _ => {
                assert(false);
                WhoisServer::radb()
            },
        };
        let protocol = WhoisColorProtocol;
        let capabilities = match &reply {
            Some(text) => protocol.capabilities_from_probe(Some(text.as_str())),
            None => protocol.capabilities_from_probe(None),
        };
        let preferred = match &self.preferred_scheme {
            Some(p) => Some(p.as_str()),
            None => None,
        };
        let payload = protocol.build_enhanced_query(
            self.target.as_str(),
            &capabilities,
            preferred,
            self.markdown,
            self.images,
        );
        self.stage = Stage::Answer(server.duplicate());
        Action::Send { server, payload }
    }
}

/// `target` followed by CRLF.
pub fn plain_payload(target: &str) -> (r: String)
    ensures
        r@ == plain_query(target@),
{
    let mut v = chars_of(target);
    push_all(&mut v, &chars_of("\r\n"));
    string_of(&v)
}

/// Runs WHOIS queries; the flag asks for a report of each step.
pub struct WhoisQuery {
    verbose: bool,
}

impl WhoisQuery {
    pub fn new(verbose: bool) -> (r: Self)
        ensures
            r.is_verbose() == verbose,
    {
        WhoisQuery { verbose }
    }

    pub closed spec fn is_verbose(&self) -> bool {
        self.verbose
    }

    pub fn verbose(&self) -> (r: bool)
        ensures
            r == self.is_verbose(),
    {
        self.verbose
    }

    /// Starts a query of `domain`.  The server is chosen by
    /// [`ServerSelector::select_server`]; the extension protocol is used
    /// where server colouring, Markdown or images are asked for, except at
    /// the DN42 mirror, which always gets the bare query; an empty
    /// answer may be retried at the fallback registry unless a special mode
    /// or a server was forced.
    pub fn start(
        &self,
        domain: &str,
        use_dn42: bool,
        use_bgptools: bool,
        use_server_color: bool,
        enable_markdown: bool,
        enable_images: bool,
        explicit_server: Option<&str>,
        env_server: Option<&str>,
        port: u16,
        preferred_color_scheme: Option<&str>,
    ) -> (r: (QuerySession, Action))
        ensures
            ({
                let server = selected_server(
                    domain@,
                    use_dn42,
                    use_bgptools,
                    opt_str(explicit_server),
                    opt_str(env_server),
                    port,
                );
                let enhanced = use_server_color || enable_markdown || enable_images;
                &&& r.0.target@ == domain@
                &&& r.0.port == server.port
                &&& r.0.enhanced == enhanced
                &&& r.0.markdown == enable_markdown
                &&& r.0.images == enable_images
                &&& opt_string(r.0.preferred_scheme) == opt_str(preferred_color_scheme)
                &&& r.0.fallback_allowed == (!use_dn42 && !use_bgptools && explicit_server is None)
                &&& r.0.stage@ == opening_stage(server, enhanced)
                &&& r.1@ == opening_step(domain@, server, enhanced)
                &&& server == dn42_view() ==> r.0.stage@ == StageView::Answer(dn42_view()) && r.1@
                    == Step::Send(dn42_view(), plain_query(domain@))
            }),
    {
        let server = ServerSelector::select_server(
            domain,
            use_dn42,
            use_bgptools,
            explicit_server,
            env_server,
            port,
        );
        let enhanced = use_server_color || enable_markdown || enable_images;
        let fallback_allowed = !use_dn42 && !use_bgptools && explicit_server.is_none();
        QuerySession::begin(
            domain,
            server,
            enhanced,
            enable_markdown,
            enable_images,
            preferred_color_scheme,
            fallback_allowed,
        )
    }
}

} // verus!
