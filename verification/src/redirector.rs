//! The redirect rule set and the request handler: an ordered list of
//! (pattern, rewrite template, status code) rules, matched first-match-wins
//! against the effective URL of a request.

use vstd::prelude::*;
use vstd::string::StringExecFns;
use crate::config::ConfigRedirectRecord;
use crate::rewrite::{re_valid, re_search_match, re_rewrite, regex_pattern};
use crate::rewrite::{regex_new, regex_is_match, regex_replace, regex_error_text};

verus! {

/// The mathematical model of one rule: its pattern, its rewrite template and
/// its status code, as plain sequences and integers.
pub struct RuleModel {
    pub pattern: Seq<char>,
    pub template: Seq<char>,
    pub code: u16,
}

/// The model of one configuration record.
pub open spec fn rule_model_of(rec: ConfigRedirectRecord) -> RuleModel {
    RuleModel { pattern: rec.re@, template: rec.rewrite_rule@, code: rec.status_code }
}

/// The model of a response: status code, optional `Location` header value,
/// and body text.
pub struct ResponseModel {
    pub status_code: u16,
    pub location: Option<Seq<char>>,
    pub body: Seq<char>,
}

/// What the handler returns for one request: a status code, at most a
/// `Location` header, and a body text. Constructed fresh per request.
pub struct ResponseDescriptor {
    pub status_code: u16,
    pub location: Option<String>,
    pub body: String,
}

impl View for ResponseDescriptor {
    type V = ResponseModel;

    open spec fn view(&self) -> ResponseModel {
        ResponseModel {
            status_code: self.status_code,
            location: match self.location {
                Some(s) => Some(s@),
                None => None,
            },
            body: self.body@,
        }
    }
}

/// Whether some rule in the set matches the URL.
pub open spec fn some_match(rules: Seq<RuleModel>, url: Seq<char>) -> bool {
    exists|i: int| 0 <= i < rules.len() && re_search_match(rules[i].pattern, url)
}

/// Whether rule `i` is the first rule in declaration order that matches.
pub open spec fn is_first_match(rules: Seq<RuleModel>, url: Seq<char>, i: int) -> bool {
    &&& 0 <= i < rules.len()
    &&& re_search_match(rules[i].pattern, url)
    &&& forall|j: int| 0 <= j < i ==> !re_search_match(rules[j].pattern, url)
}

/// The index of the first matching rule; `rules.len()` when none matches.
pub open spec fn first_match_index(rules: Seq<RuleModel>, url: Seq<char>) -> int
    decreases rules.len(),
{
    if rules.len() <= 0 {
        0
    } else if re_search_match(rules[0].pattern, url) {
        0
    } else {
        1 + first_match_index(rules.drop_first(), url)
    }
}

/// The response a single matched rule produces: the rule's status code, and
/// the rewrite of the URL under the rule's template as both the `Location`
/// header and the body.
pub open spec fn rule_response(rule: RuleModel, url: Seq<char>) -> ResponseModel {
    ResponseModel {
        status_code: rule.code,
        location: Some(re_rewrite(rule.pattern, rule.template, url)),
        body: re_rewrite(rule.pattern, rule.template, url),
    }
}

/// The not-found response: status 404 and the fixed body `"Not found!"`.
pub open spec fn not_found_response() -> ResponseModel {
    ResponseModel { status_code: 404, location: None, body: "Not found!"@ }
}

/// The response for a URL under a rule set: the first matching rule's
/// response, or not-found. A function of the rule models and the URL alone.
pub open spec fn response_of(rules: Seq<RuleModel>, url: Seq<char>) -> ResponseModel {
    if some_match(rules, url) {
        rule_response(rules[first_match_index(rules, url)], url)
    } else {
        not_found_response()
    }
}

/// When rule `i` is the first matching rule, `first_match_index` finds
/// exactly it.
pub proof fn lemma_first_match(rules: Seq<RuleModel>, url: Seq<char>, i: int)
    requires
        is_first_match(rules, url, i),
    ensures
        some_match(rules, url),
        first_match_index(rules, url) == i,
    decreases rules.len(),
{
    if i == 0 {
    } else {
        let rest = rules.drop_first();
        assert forall|j: int| 0 <= j < i - 1 implies !re_search_match(
            rest[j].pattern,
            url,
        ) by {
            assert(rest[j] == rules[j + 1]);
        }
        lemma_first_match(rest, url, i - 1);
    }
}

/// First match wins: when rule `i` is the first rule matching the URL, the
/// response carries rule `i`'s status code and its rewrite of the URL as both
/// `Location` and body.
pub proof fn lemma_response_on_match(rules: Seq<RuleModel>, url: Seq<char>, i: int)
    requires
        is_first_match(rules, url, i),
    ensures
        response_of(rules, url) == rule_response(rules[i], url),
{
    lemma_first_match(rules, url, i);
}

/// Determinism: the response is a function of the rule models and the URL
/// alone, so any two handler invocations on the same rule set and the same
/// effective URL yield identical response descriptors.
pub proof fn lemma_deterministic(
    rules: Seq<RuleModel>,
    url: Seq<char>,
    r1: ResponseModel,
    r2: ResponseModel,
)
    requires
        r1 == response_of(rules, url),
        r2 == response_of(rules, url),
    ensures
        r1 == r2,
{
}

/// Order sensitivity: when two rules both match a URL, the one declared first
/// determines the response, so swapping the declaration order swaps which
/// rule's status and rewrite come back.
pub proof fn lemma_order_sensitive(r1: RuleModel, r2: RuleModel, url: Seq<char>)
    requires
        re_search_match(r1.pattern, url),
        re_search_match(r2.pattern, url),
    ensures
        response_of(seq![r1, r2], url) == rule_response(r1, url),
        response_of(seq![r2, r1], url) == rule_response(r2, url),
{
    assert(is_first_match(seq![r1, r2], url, 0));
    lemma_response_on_match(seq![r1, r2], url, 0);
    assert(is_first_match(seq![r2, r1], url, 0));
    lemma_response_on_match(seq![r2, r1], url, 0);
}

/// Why a rule set could not be built.
#[derive(Debug)]
pub enum RedirectError {
    /// A configured pattern does not compile; carries the offending pattern
    /// and the compiler's diagnostic.
    InvalidPattern { pattern: String, detail: String },
}

/// An ordered set of redirect rules; order is significant, the first matching
/// rule wins. Immutable once built, so it may be shared freely across
/// concurrent handler invocations.
#[derive(Debug)]
pub struct Redirector {
    redirects: Vec<(regex::Regex, String, u16)>,
}

impl View for Redirector {
    type V = Seq<RuleModel>;

    closed spec fn view(&self) -> Seq<RuleModel> {
        self.redirects@.map_values(
            |t: (regex::Regex, String, u16)|
                (RuleModel { pattern: regex_pattern(t.0), template: t.1@, code: t.2 }),
        )
    }
}

impl Redirector {
    /// An empty rule set: nothing matches, every request is answered
    /// not-found.
    pub fn new() -> (r: Self)
        ensures
            r@ == Seq::<RuleModel>::empty(),
    {
        let r = Redirector { redirects: Vec::new() };
        proof {
            assert(r@ =~= Seq::<RuleModel>::empty());
        }
        r
    }

    /// Appends one rule. On success the rule set grows by exactly the given
    /// rule at the end; an invalid pattern leaves the set unchanged and
    /// reports the offending pattern.
    pub fn add_redirection(&mut self, regex_str: &str, replacement: String, code: u16) -> (r:
        Result<(), RedirectError>)
        ensures
            r is Ok <==> re_valid(regex_str@),
            r is Ok ==> final(self)@ == old(self)@.push(
                RuleModel { pattern: regex_str@, template: replacement@, code },
            ),
            r is Err ==> final(self)@ == old(self)@,
            r matches Err(RedirectError::InvalidPattern { pattern, .. }) ==> pattern@
                == regex_str@,
    {
        let ghost repl_view = replacement@;
        match regex_new(regex_str) {
            Ok(re) => {
                self.redirects.push((re, replacement, code));
                proof {
                    assert(self@ =~= old(self)@.push(
                        RuleModel { pattern: regex_str@, template: repl_view, code },
                    ));
                }
                Ok(())
            },
            Err(e) => {
                let detail = regex_error_text(&e);
                Err(RedirectError::InvalidPattern { pattern: regex_str.to_owned(), detail })
            },
        }
    }

    /// Builds the rule set from configuration records, preserving declaration
    /// order, failing fast with `InvalidPattern` on the first record whose
    /// pattern does not compile (no partial rule set is produced).
    pub fn from_records(records: &Vec<ConfigRedirectRecord>) -> (r: Result<
        Redirector,
        RedirectError,
    >)
        ensures
            r is Ok <==> (forall|i: int|
                0 <= i < records@.len() ==> re_valid(#[trigger] records@[i].re@)),
            r matches Ok(rd) ==> rd@.len() == records@.len() && (forall|i: int|
                0 <= i < records@.len() ==> #[trigger] rd@[i] == rule_model_of(records@[i])),
            r matches Err(RedirectError::InvalidPattern { pattern, .. }) ==> (exists|i: int|
                0 <= i < records@.len() && !re_valid(#[trigger] records@[i].re@) && pattern@
                    == records@[i].re@ && (forall|j: int|
                    0 <= j < i ==> re_valid(records@[j].re@))),
    {
        let mut rd = Redirector::new();
        let mut i: usize = 0;
        while i < records.len()
            invariant
                0 <= i <= records@.len(),
                rd@.len() == i,
                forall|j: int| 0 <= j < i ==> #[trigger] rd@[j] == rule_model_of(records@[j]),
                forall|j: int| 0 <= j < i ==> re_valid(#[trigger] records@[j].re@),
            decreases records@.len() - i,
        {
            let rec = &records[i];
            match rd.add_redirection(rec.re.as_str(), rec.rewrite_rule.clone(), rec.status_code) {
                Ok(()) => {},
                Err(e) => {
                    return Err(e);
                },
            }
            i += 1;
        }
        Ok(rd)
    }

    /// Answers one request given its already-built effective URL: the first
    /// matching rule's status code with the rewritten URL as both `Location`
    /// and body, or 404 with body `"Not found!"` when no rule matches.
    pub fn handle_url(&self, full_url: &str) -> (r: ResponseDescriptor)
        ensures
            r@ == response_of(self@, full_url@),
            !some_match(self@, full_url@) ==> r.status_code == 404 && r.location is None
                && r.body@ == "Not found!"@,
    {
        let mut i: usize = 0;
        while i < self.redirects.len()
            invariant
                0 <= i <= self.redirects@.len(),
                self@.len() == self.redirects@.len(),
                forall|j: int|
                    0 <= j < i ==> !re_search_match(#[trigger] self@[j].pattern, full_url@),
            decreases self.redirects@.len() - i,
        {
            let entry = &self.redirects[i];
            if regex_is_match(&entry.0, full_url) {
                let target = regex_replace(&entry.0, full_url, entry.1.as_str());
                let location = target.clone();
                proof {
                    assert(is_first_match(self@, full_url@, i as int));
                    lemma_response_on_match(self@, full_url@, i as int);
                }
                return ResponseDescriptor {
                    status_code: entry.2,
                    location: Some(location),
                    body: target,
                };
            }
            i += 1;
        }
        ResponseDescriptor { status_code: 404, location: None, body: String::from_str("Not found!") }
    }

    /// Answers one request from its Host header (absent is treated as the
    /// empty string, not an error) and its path-and-query string.
    pub fn handle(&self, host: Option<&str>, path_and_query: &str) -> (r: ResponseDescriptor)
        ensures
            r@ == response_of(self@, host_view(host) + path_and_query@),
    {
        let url = effective_url(host, path_and_query);
        self.handle_url(url.as_str())
    }
}

/// The view of an optional Host header value: its characters, or the empty
/// sequence when the header is absent.
pub open spec fn host_view(host: Option<&str>) -> Seq<char> {
    match host {
        Some(h) => h@,
        None => Seq::<char>::empty(),
    }
}

/// The effective URL of a request: the Host header value (the empty string
/// when the header is absent) concatenated with the request's path and query,
/// in that order, with no separator.
pub fn effective_url(host: Option<&str>, path_and_query: &str) -> (r: String)
    ensures
        r@ == host_view(host) + path_and_query@,
        host is None ==> r@ == path_and_query@,
{
    let mut u: String = match host {
        Some(h) => h.to_owned(),
        None => String::new(),
    };
    u.append(path_and_query);
    proof {
        assert(Seq::<char>::empty() + path_and_query@ =~= path_and_query@);
    }
    u
}

} // verus!
