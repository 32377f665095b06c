//! The documentation search: a built-in catalogue searched by query and
//! category, and the scoring of documents that a store returned.

use vstd::prelude::*;
use crate::json::{items_view, pretty_text, render_pretty, text_list, Json, JsonView};
use crate::db::setting;
use crate::text::{
    contains, decimal, decimal_string, excerpt, excerpt_of, is_infix, join2, lowered, port_or,
    read_port_or, same_text, split_whitespace, text_or, texts, to_lowercase, words_of,
};
use crate::tools::{
    optional_count, optional_text, read_count, read_optional_text, read_text, required_text, Tool,
    ToolError,
};
use vstd::string::StringExecFns;

verus! {

/// Searches the product documentation.
pub struct SearchDocsTool {
    pub db_host: String,
    pub db_port: u16,
    pub db_user: String,
    pub db_pass: String,
}

impl SearchDocsTool {
    /// A tool for a store on this machine with the default credentials.
    pub fn new() -> (r: SearchDocsTool)
        ensures
            r.db_host@ == "localhost"@,
            r.db_port == 8000,
            r.db_user@ == "root"@,
            r.db_pass@ == "root"@,
    {
        SearchDocsTool {
            db_host: "localhost".to_string(),
            db_port: 8000,
            db_user: "root".to_string(),
            db_pass: "root".to_string(),
        }
    }
}

impl SearchDocsTool {
    /// A tool for the store that an environment's settings name. A setting
    /// that is missing takes the value of a local store; so does a port
    /// that names no port number.
    pub fn from_settings(
        host: Option<String>,
        port: Option<String>,
        user: Option<String>,
        pass: Option<String>,
    ) -> (r: SearchDocsTool)
        ensures
            r.db_host@ == setting(host, "localhost"@),
            r.db_port == port_or(port, 8000),
            r.db_user@ == setting(user, "root"@),
            r.db_pass@ == setting(pass, "root"@),
    {
        SearchDocsTool {
            db_port: read_port_or(&port, 8000),
            db_host: text_or(host, "localhost"),
            db_user: text_or(user, "root"),
            db_pass: text_or(pass, "root"),
        }
    }

    /// The address of the store: host, a colon, and the port in decimal.
    pub fn url(&self) -> (r: String)
        ensures
            r@ == self.db_host@ + ":"@ + decimal(self.db_port as nat),
    {
        let mut r = join2(self.db_host.as_str(), ":");
        r.append(decimal_string(self.db_port as u64).as_str());
        r
    }
}

impl Default for SearchDocsTool {
    fn default() -> (r: SearchDocsTool)
        ensures
            r.db_host@ == "localhost"@,
            r.db_port == 8000,
            r.db_user@ == "root"@,
            r.db_pass@ == "root"@,
    {
        SearchDocsTool::new()
    }
}

/// The number of documents returned where the arguments give no limit.
pub fn default_limit() -> (r: usize)
    ensures
        r == 5,
{
    5
}

/// A document found by a search.
#[derive(Debug)]
pub struct DocResult {
    pub title: String,
    pub content: String,
    pub url: String,
    pub category: String,
    /// Relevance in hundredths, from 0 to 100.
    pub relevance: u32,
}

/// The mathematical value of a [`DocResult`].
pub struct DocResultView {
    pub title: Seq<char>,
    pub content: Seq<char>,
    pub url: Seq<char>,
    pub category: Seq<char>,
    pub relevance: nat,
}

impl View for DocResult {
    type V = DocResultView;

    open spec fn view(&self) -> DocResultView {
        DocResultView {
            title: self.title@,
            content: self.content@,
            url: self.url@,
            category: self.category@,
            relevance: self.relevance as nat,
        }
    }
}

impl Clone for DocResult {
    fn clone(&self) -> (r: DocResult)
        ensures
            r@ == self@,
    {
        DocResult {
            title: self.title.clone(),
            content: self.content.clone(),
            url: self.url.clone(),
            category: self.category.clone(),
            relevance: self.relevance,
        }
    }
}

/// The views of a run of documents.
pub open spec fn docs_view(docs: Seq<DocResult>) -> Seq<DocResultView> {
    docs.map_values(|d: DocResult| d@)
}

/// A document, from its parts.
pub open spec fn doc_of(
    title: Seq<char>,
    content: Seq<char>,
    url: Seq<char>,
    category: Seq<char>,
    relevance: nat,
) -> DocResultView {
    DocResultView { title, content, url, category, relevance }
}

/// The built-in catalogue, most relevant document first.
pub open spec fn catalogue() -> Seq<DocResultView> {
    seq![
        doc_of(
            "Getting Started with WatsonX Orchestrate"@,
            "WatsonX Orchestrate is an AI-powered automation platform that helps you work more efficiently by automating repetitive tasks and providing intelligent assistance."@,
            "https://www.ibm.com/docs/watsonx-orchestrate/getting-started"@,
            "user"@,
            95,
        ),
        doc_of(
            "Admin Setup Guide"@,
            "This guide walks administrators through the initial setup of WatsonX Orchestrate, including user management, security configuration, and integration setup."@,
            "https://www.ibm.com/docs/watsonx-orchestrate/admin-guide"@,
            "admin"@,
            92,
        ),
        doc_of(
            "Creating Custom Skills"@,
            "Learn how to create custom skills in WatsonX Orchestrate. Skills are reusable automation components that can be combined into workflows."@,
            "https://www.ibm.com/docs/watsonx-orchestrate/skills"@,
            "user"@,
            88,
        ),
        doc_of(
            "API Reference"@,
            "Complete API reference for WatsonX Orchestrate, including authentication, skill management, and workflow execution endpoints."@,
            "https://www.ibm.com/docs/watsonx-orchestrate/api"@,
            "api"@,
            85,
        ),
        doc_of(
            "Troubleshooting Common Issues"@,
            "Solutions for common issues including authentication failures, skill execution errors, and integration problems."@,
            "https://www.ibm.com/docs/watsonx-orchestrate/troubleshooting"@,
            "troubleshooting"@,
            82,
        ),
        doc_of(
            "Integration with Salesforce"@,
            "Step-by-step guide for integrating WatsonX Orchestrate with Salesforce, enabling CRM automation and data synchronization."@,
            "https://www.ibm.com/docs/watsonx-orchestrate/integrations/salesforce"@,
            "admin"@,
            78,
        ),
        doc_of(
            "Security Best Practices"@,
            "Security recommendations for WatsonX Orchestrate deployments, including authentication, access control, and data protection."@,
            "https://www.ibm.com/docs/watsonx-orchestrate/security"@,
            "admin"@,
            75,
        ),
        doc_of(
            "Workflow Automation Patterns"@,
            "Common workflow patterns and best practices for building efficient automations in WatsonX Orchestrate."@,
            "https://www.ibm.com/docs/watsonx-orchestrate/workflows"@,
            "user"@,
            72,
        ),
    ]
}

/// No document is more relevant than one before it.
pub open spec fn by_relevance(docs: Seq<DocResultView>) -> bool {
    forall|i: int, j: int| 0 <= i <= j < docs.len() ==> docs[i].relevance >= docs[j].relevance
}

/// The catalogue is in order of relevance.
pub proof fn lemma_catalogue_by_relevance()
    ensures
        by_relevance(catalogue()),
{
    assert(catalogue()[0].relevance == 95);
    assert(catalogue()[1].relevance == 92);
    assert(catalogue()[2].relevance == 88);
    assert(catalogue()[3].relevance == 85);
    assert(catalogue()[4].relevance == 82);
    assert(catalogue()[5].relevance == 78);
    assert(catalogue()[6].relevance == 75);
    assert(catalogue()[7].relevance == 72);
}

fn doc(title: &str, content: &str, url: &str, category: &str, relevance: u32) -> (r: DocResult)
    ensures
        r@ == doc_of(title@, content@, url@, category@, relevance as nat),
{
    DocResult {
        title: title.to_string(),
        content: content.to_string(),
        url: url.to_string(),
        category: category.to_string(),
        relevance,
    }
}

/// Builds the catalogue.
pub fn all_docs() -> (r: Vec<DocResult>)
    ensures
        docs_view(r@) == catalogue(),
{
    let mut all: Vec<DocResult> = Vec::new();
    all.push(
        doc(
            "Getting Started with WatsonX Orchestrate",
            "WatsonX Orchestrate is an AI-powered automation platform that helps you work more efficiently by automating repetitive tasks and providing intelligent assistance.",
            "https://www.ibm.com/docs/watsonx-orchestrate/getting-started",
            "user",
            95,
        ),
    );
    all.push(
        doc(
            "Admin Setup Guide",
            "This guide walks administrators through the initial setup of WatsonX Orchestrate, including user management, security configuration, and integration setup.",
            "https://www.ibm.com/docs/watsonx-orchestrate/admin-guide",
            "admin",
            92,
        ),
    );
    all.push(
        doc(
            "Creating Custom Skills",
            "Learn how to create custom skills in WatsonX Orchestrate. Skills are reusable automation components that can be combined into workflows.",
            "https://www.ibm.com/docs/watsonx-orchestrate/skills",
            "user",
            88,
        ),
    );
    all.push(
        doc(
            "API Reference",
            "Complete API reference for WatsonX Orchestrate, including authentication, skill management, and workflow execution endpoints.",
            "https://www.ibm.com/docs/watsonx-orchestrate/api",
            "api",
            85,
        ),
    );
    all.push(
        doc(
            "Troubleshooting Common Issues",
            "Solutions for common issues including authentication failures, skill execution errors, and integration problems.",
            "https://www.ibm.com/docs/watsonx-orchestrate/troubleshooting",
            "troubleshooting",
            82,
        ),
    );
    all.push(
        doc(
            "Integration with Salesforce",
            "Step-by-step guide for integrating WatsonX Orchestrate with Salesforce, enabling CRM automation and data synchronization.",
            "https://www.ibm.com/docs/watsonx-orchestrate/integrations/salesforce",
            "admin",
            78,
        ),
    );
    all.push(
        doc(
            "Security Best Practices",
            "Security recommendations for WatsonX Orchestrate deployments, including authentication, access control, and data protection.",
            "https://www.ibm.com/docs/watsonx-orchestrate/security",
            "admin",
            75,
        ),
    );
    all.push(
        doc(
            "Workflow Automation Patterns",
            "Common workflow patterns and best practices for building efficient automations in WatsonX Orchestrate.",
            "https://www.ibm.com/docs/watsonx-orchestrate/workflows",
            "user",
            72,
        ),
    );
    assert(docs_view(all@) =~= catalogue());
    all
}

/// The title or the content holds `needle`, letter case aside.
pub open spec fn doc_mentions(title: Seq<char>, content: Seq<char>, needle: Seq<char>) -> bool {
    is_infix(needle, lowered(title)) || is_infix(needle, lowered(content))
}

/// The title or the content holds one of the words.
pub open spec fn doc_mentions_any(
    title: Seq<char>,
    content: Seq<char>,
    words: Seq<Seq<char>>,
) -> bool {
    exists|i: int| 0 <= i < words.len() && doc_mentions(title, content, #[trigger] words[i])
}

/// The document is in the category asked for, if one is asked for, and it
/// mentions the query or one of the query's words.
pub open spec fn doc_matches(
    d: DocResultView,
    query: Seq<char>,
    category: Option<Seq<char>>,
) -> bool {
    &&& category is Some ==> d.category == category->0
    &&& doc_mentions(d.title, d.content, lowered(query)) || doc_mentions_any(
        d.title,
        d.content,
        words_of(lowered(query)),
    )
}

/// Those of the first `n` documents of the catalogue that match, in order.
pub open spec fn matching_docs(query: Seq<char>, category: Option<Seq<char>>, n: nat) -> Seq<
    DocResultView,
>
    decreases n,
{
    if n == 0 || n > catalogue().len() {
        Seq::empty()
    } else if doc_matches(catalogue()[n - 1], query, category) {
        matching_docs(query, category, (n - 1) as nat).push(catalogue()[n - 1])
    } else {
        matching_docs(query, category, (n - 1) as nat)
    }
}

/// The documents that a search of the catalogue returns: the matches,
/// most relevant first, cut off after the first `limit`.
pub open spec fn found_docs(query: Seq<char>, category: Option<Seq<char>>, limit: nat) -> Seq<
    DocResultView,
> {
    let all = matching_docs(query, category, catalogue().len());
    if limit <= all.len() {
        all.subrange(0, limit as int)
    } else {
        all
    }
}

fn doc_mentions_exec(title_lower: &str, content_lower: &str, needle: &str) -> (r: bool)
    ensures
        r == (is_infix(needle@, title_lower@) || is_infix(needle@, content_lower@)),
{
    contains(title_lower, needle) || contains(content_lower, needle)
}

fn doc_matches_exec(
    d: &DocResult,
    query_lower: &str,
    words: &Vec<String>,
    category: Option<&str>,
    Ghost(query): Ghost<Seq<char>>,
) -> (r: bool)
    requires
        query_lower@ == lowered(query),
        texts(words@) == words_of(lowered(query)),
    ensures
        r == doc_matches(
            d@,
            query,
            match category {
                Some(c) => Some(c@),
                None => None,
            },
        ),
{
    match category {
        Some(wanted) => {
            if !same_text(d.category.as_str(), wanted) {
                return false;
            }
        },
        None => {},
    }
    let title_lower = to_lowercase(d.title.as_str());
    let content_lower = to_lowercase(d.content.as_str());
    if doc_mentions_exec(title_lower.as_str(), content_lower.as_str(), query_lower) {
        return true;
    }
    let mut i: usize = 0;
    while i < words.len()
        invariant
            i <= words.len(),
            title_lower@ == lowered(d@.title),
            content_lower@ == lowered(d@.content),
            texts(words@) == words_of(lowered(query)),
            category matches Some(c) ==> d@.category == c@,
            forall|k: int|
                0 <= k < i ==> !doc_mentions(d@.title, d@.content, #[trigger] texts(words@)[k]),
        decreases words.len() - i,
    {
        if doc_mentions_exec(title_lower.as_str(), content_lower.as_str(), words[i].as_str()) {
            assert(doc_mentions(d@.title, d@.content, texts(words@)[i as int]));
            return true;
        }
        i += 1;
    }
    false
}

/// Searches the catalogue for documents on a query, in a category if one
/// is given, and returns the first `limit` of them, most relevant first.
pub fn get_mock_docs(query: &str, limit: usize, category: Option<&str>) -> (r: Vec<DocResult>)
    ensures
        docs_view(r@) == found_docs(
            query@,
            match category {
                Some(c) => Some(c@),
                None => None,
            },
            limit as nat,
        ),
        by_relevance(docs_view(r@)),
{
    let ghost wanted: Option<Seq<char>> = match category {
        Some(c) => Some(c@),
        None => None,
    };
    let all = all_docs();
    let query_lower = to_lowercase(query);
    let words = split_whitespace(query_lower.as_str());
    let mut filtered: Vec<DocResult> = Vec::new();
    let mut i: usize = 0;
    proof {
        lemma_catalogue_by_relevance();
    }
    while i < all.len()
        invariant
            i <= all.len(),
            docs_view(all@) == catalogue(),
            by_relevance(catalogue()),
            query_lower@ == lowered(query@),
            texts(words@) == words_of(lowered(query@)),
            wanted == match category {
                Some(c) => Some(c@),
                None => None,
            },
            docs_view(filtered@) == matching_docs(query@, wanted, i as nat),
            by_relevance(docs_view(filtered@)),
            forall|k: int, j: int|
                0 <= k < filtered@.len() && i <= j < catalogue().len() ==> (
                #[trigger] docs_view(filtered@)[k]).relevance >= (#[trigger] catalogue()[j]).relevance,
        decreases all.len() - i,
    {
        assert(catalogue()[i as int] == all@[i as int]@);
        if doc_matches_exec(&all[i], query_lower.as_str(), &words, category, Ghost(query@)) {
            let ghost before = docs_view(filtered@);
            filtered.push(all[i].clone());
            assert(docs_view(filtered@) =~= before.push(all@[i as int]@));
        }
        i += 1;
    }
    filtered.truncate(limit);
    assert(docs_view(filtered@) =~= found_docs(query@, wanted, limit as nat));
    filtered
}

/// A document as a store holds it.
#[derive(Debug, Clone)]
pub struct DbDoc {
    pub title: String,
    pub content: String,
    pub url: String,
    pub category: String,
}

/// The mathematical value of a [`DbDoc`].
pub struct DbDocView {
    pub title: Seq<char>,
    pub content: Seq<char>,
    pub url: Seq<char>,
    pub category: Seq<char>,
}

impl View for DbDoc {
    type V = DbDocView;

    open spec fn view(&self) -> DbDocView {
        DbDocView {
            title: self.title@,
            content: self.content@,
            url: self.url@,
            category: self.category@,
        }
    }
}

/// The views of a run of stored documents.
pub open spec fn db_docs_view(docs: Seq<DbDoc>) -> Seq<DbDocView> {
    docs.map_values(|d: DbDoc| d@)
}

/// `points` where `condition` holds, else nothing.
pub open spec fn bonus(condition: bool, points: nat) -> nat {
    if condition {
        points
    } else {
        0
    }
}

/// What the first `n` words add to a document's relevance: 5 hundredths
/// for each word in the title, 3 for each word in the content.
pub open spec fn word_bonus(
    title: Seq<char>,
    content: Seq<char>,
    words: Seq<Seq<char>>,
    n: nat,
) -> nat
    decreases n,
{
    if n == 0 || n > words.len() {
        0
    } else {
        word_bonus(title, content, words, (n - 1) as nat) + bonus(
            is_infix(words[n - 1], lowered(title)),
            5,
        ) + bonus(is_infix(words[n - 1], lowered(content)), 3)
    }
}

/// The relevance of a stored document for a query, in hundredths: 50, and
/// 30 more where the title holds the query, 20 more where the content
/// holds it, and the bonus of the query's words; never more than 100.
pub open spec fn relevance_of(title: Seq<char>, content: Seq<char>, query: Seq<char>) -> nat {
    let q = lowered(query);
    let raw = 50 + bonus(is_infix(q, lowered(title)), 30) + bonus(is_infix(q, lowered(content)), 20)
        + word_bonus(title, content, words_of(q), words_of(q).len());
    if raw > 100 {
        100
    } else {
        raw
    }
}

/// A stored document as a search result: scored, its content cut down to
/// an excerpt of 500 bytes.
pub open spec fn scored(d: DbDocView, query: Seq<char>) -> DocResultView {
    DocResultView {
        title: d.title,
        content: excerpt(d.content, 500),
        url: d.url,
        category: d.category,
        relevance: relevance_of(d.title, d.content, query),
    }
}

/// A run of stored documents as search results.
pub open spec fn scored_all(docs: Seq<DbDocView>, query: Seq<char>) -> Seq<DocResultView> {
    docs.map_values(|d: DbDocView| scored(d, query))
}

fn capped(points: u32, more: u32) -> (r: u32)
    requires
        points <= 100,
        more <= 100,
    ensures
        r == if points + more > 100 {
            100
        } else {
            points + more
        },
{
    if points + more > 100 {
        100
    } else {
        points + more
    }
}

fn relevance(d: &DbDoc, query_lower: &str, words: &Vec<String>, Ghost(query): Ghost<Seq<char>>) -> (r:
    u32)
    requires
        query_lower@ == lowered(query),
        texts(words@) == words_of(lowered(query)),
    ensures
        r == relevance_of(d@.title, d@.content, query),
{
    let title_lower = to_lowercase(d.title.as_str());
    let content_lower = to_lowercase(d.content.as_str());
    let mut points: u32 = 50;
    if contains(title_lower.as_str(), query_lower) {
        points = capped(points, 30);
    }
    if contains(content_lower.as_str(), query_lower) {
        points = capped(points, 20);
    }
    let ghost base: nat = 50 + bonus(is_infix(lowered(query), lowered(d@.title)), 30) + bonus(
        is_infix(lowered(query), lowered(d@.content)),
        20,
    );
    let mut i: usize = 0;
    while i < words.len()
        invariant
            i <= words.len(),
            title_lower@ == lowered(d@.title),
            content_lower@ == lowered(d@.content),
            texts(words@) == words_of(lowered(query)),
            points <= 100,
            points == if base + word_bonus(d@.title, d@.content, texts(words@), i as nat) > 100 {
                100
            } else {
                base + word_bonus(d@.title, d@.content, texts(words@), i as nat)
            },
        decreases words.len() - i,
    {
        assert(texts(words@)[i as int] == words@[i as int]@);
        if contains(title_lower.as_str(), words[i].as_str()) {
            points = capped(points, 5);
        }
        if contains(content_lower.as_str(), words[i].as_str()) {
            points = capped(points, 3);
        }
        i += 1;
    }
    points
}

/// Scores the documents that a store returned for a query.
pub fn score_documents(query: &str, docs: &Vec<DbDoc>) -> (r: Vec<DocResult>)
    ensures
        docs_view(r@) == scored_all(db_docs_view(docs@), query@),
{
    let query_lower = to_lowercase(query);
    let words = split_whitespace(query_lower.as_str());
    let mut out: Vec<DocResult> = Vec::new();
    let mut i: usize = 0;
    while i < docs.len()
        invariant
            i <= docs.len(),
            query_lower@ == lowered(query@),
            texts(words@) == words_of(lowered(query@)),
            out@.len() == i,
            forall|k: int| 0 <= k < i ==> (#[trigger] out@[k])@ == scored(docs@[k]@, query@),
        decreases docs.len() - i,
    {
        let d = &docs[i];
        let points = relevance(d, query_lower.as_str(), &words, Ghost(query@));
        out.push(
            DocResult {
                title: d.title.clone(),
                content: excerpt_of(d.content.as_str(), 500),
                url: d.url.clone(),
                category: d.category.clone(),
                relevance: points,
            },
        );
        i += 1;
    }
    assert(docs_view(out@) =~= scored_all(db_docs_view(docs@), query@));
    out
}

/// What the tool reads from its arguments.
#[derive(Debug, Clone)]
pub struct SearchDocsInput {
    pub query: String,
    pub limit: usize,
    pub category: Option<String>,
}

/// The mathematical value of a [`SearchDocsInput`].
pub struct SearchDocsInputView {
    pub query: Seq<char>,
    pub limit: nat,
    pub category: Option<Seq<char>>,
}

impl View for SearchDocsInput {
    type V = SearchDocsInputView;

    open spec fn view(&self) -> SearchDocsInputView {
        SearchDocsInputView {
            query: self.query@,
            limit: self.limit as nat,
            category: crate::state::opt_text(self.category),
        }
    }
}

/// What the tool reads from its arguments: the query, the limit, which is
/// 5 where none is given, and the category if one is given; or the reason
/// why the arguments are malformed.
pub open spec fn search_input(arguments: JsonView) -> Result<SearchDocsInputView, Seq<char>> {
    if !(arguments is Object) {
        Err("expected an object"@)
    } else if required_text(arguments, "query"@) is Err {
        Err(required_text(arguments, "query"@)->Err_0)
    } else if optional_count(arguments, "limit"@, 5) is Err {
        Err(optional_count(arguments, "limit"@, 5)->Err_0)
    } else if optional_text(arguments, "category"@) is Err {
        Err(optional_text(arguments, "category"@)->Err_0)
    } else {
        Ok(
            SearchDocsInputView {
                query: required_text(arguments, "query"@)->Ok_0,
                limit: optional_count(arguments, "limit"@, 5)->Ok_0,
                category: optional_text(arguments, "category"@)->Ok_0,
            },
        )
    }
}

/// Reads the tool's arguments.
pub fn read_search_input(arguments: &Json) -> (r: Result<SearchDocsInput, ToolError>)
    ensures
        match r {
            Ok(input) => search_input(arguments@) == Ok::<SearchDocsInputView, Seq<char>>(input@),
            Err(e) => search_input(arguments@) is Err && e.message@ == "Invalid arguments: "@
                + search_input(arguments@)->Err_0,
        },
{
    let is_object = match arguments {
        Json::Object(_) => true,
        _ => false,
    };
    if !is_object {
        return Err(ToolError::invalid_arguments("expected an object"));
    }
    let query = match read_text(arguments, "query") {
        Ok(q) => q,
        Err(e) => {
            return Err(e);
        },
    };
    let limit = match read_count(arguments, "limit", default_limit()) {
        Ok(n) => n,
        Err(e) => {
            return Err(e);
        },
    };
    let category = match read_optional_text(arguments, "category") {
        Ok(Some(c)) => Some(c.to_string()),
        Ok(None) => None,
        Err(e) => {
            return Err(e);
        },
    };
    Ok(SearchDocsInput { query: query.to_string(), limit, category })
}

/// What a search returns for what the store gave: the store's documents,
/// scored, where the store gave any; else the matches of the built-in
/// catalogue.
pub open spec fn results_for(input: SearchDocsInputView, stored: Option<Seq<DbDocView>>) -> Seq<
    DocResultView,
> {
    match stored {
        Some(rows) => if rows.len() > 0 {
            scored_all(rows, input.query)
        } else {
            found_docs(input.query, input.category, input.limit)
        },
        None => found_docs(input.query, input.category, input.limit),
    }
}

/// Decides what a search returns. `stored` holds what the store returned
/// for the query, and is `None` where the store could not be asked.
pub fn search_results(input: &SearchDocsInput, stored: Option<&Vec<DbDoc>>) -> (r: Vec<DocResult>)
    ensures
        docs_view(r@) == results_for(
            input@,
            match stored {
                Some(rows) => Some(db_docs_view(rows@)),
                None => None,
            },
        ),
{
    let category: Option<&str> = match &input.category {
        Some(c) => Some(c.as_str()),
        None => None,
    };
    match stored {
        Some(rows) => {
            if rows.len() > 0 {
                score_documents(input.query.as_str(), rows)
            } else {
                get_mock_docs(input.query.as_str(), input.limit, category)
            }
        },
        None => get_mock_docs(input.query.as_str(), input.limit, category),
    }
}

/// The fraction digits of a number of hundredths: one digit where the
/// second would be a zero, else two.
pub open spec fn fraction_digits(hundredths: nat) -> Seq<char> {
    if hundredths % 10 == 0 {
        decimal(hundredths % 100 / 10)
    } else {
        decimal(hundredths % 100 / 10) + decimal(hundredths % 10)
    }
}

/// The decimal literal of a number of hundredths, such as `0.95`, `0.9`
/// and `1.0`.
pub open spec fn hundredths_literal(hundredths: nat) -> Seq<char> {
    decimal(hundredths / 100) + "."@ + fraction_digits(hundredths)
}

/// Writes a number of hundredths as a decimal literal.
pub fn hundredths_string(hundredths: u32) -> (r: String)
    ensures
        r@ == hundredths_literal(hundredths as nat),
{
    let mut r = join2(decimal_string((hundredths / 100) as u64).as_str(), ".");
    r.append(decimal_string((hundredths % 100 / 10) as u64).as_str());
    if hundredths % 10 != 0 {
        r.append(decimal_string((hundredths % 10) as u64).as_str());
    }
    r
}

/// A search result as a JSON object. The relevance is written as a
/// decimal fraction.
pub open spec fn doc_json(d: DocResultView) -> JsonView {
    JsonView::Object(
        seq![
            ("title"@, JsonView::Text(d.title)),
            ("content"@, JsonView::Text(d.content)),
            ("url"@, JsonView::Text(d.url)),
            ("category"@, JsonView::Text(d.category)),
            ("relevance"@, JsonView::Number(hundredths_literal(d.relevance))),
        ],
    )
}

/// A run of search results as a JSON list.
pub open spec fn docs_json(docs: Seq<DocResultView>) -> JsonView {
    JsonView::List(docs.map_values(|d: DocResultView| doc_json(d)))
}

impl DocResult {
    /// The result as a JSON object.
    pub fn to_json(&self) -> (r: Json)
        ensures
            r@ == doc_json(self@),
    {
        Json::object5(
            "title",
            Json::text(self.title.as_str()),
            "content",
            Json::text(self.content.as_str()),
            "url",
            Json::text(self.url.as_str()),
            "category",
            Json::text(self.category.as_str()),
            "relevance",
            Json::Number(hundredths_string(self.relevance)),
        )
    }
}

/// A run of search results as a JSON list.
pub fn docs_to_json(docs: &Vec<DocResult>) -> (r: Json)
    ensures
        r@ == docs_json(docs_view(docs@)),
{
    let mut out: Vec<Json> = Vec::new();
    let mut i: usize = 0;
    while i < docs.len()
        invariant
            i <= docs.len(),
            out@.len() == i,
            forall|k: int| 0 <= k < i ==> (#[trigger] out@[k])@ == doc_json(docs@[k]@),
        decreases docs.len() - i,
    {
        out.push(docs[i].to_json());
        i += 1;
    }
    assert(items_view(out@) =~= docs_view(docs@).map_values(|d: DocResultView| doc_json(d)));
    Json::list(out)
}

/// Writes search results as indented JSON text.
pub fn render_results(docs: &Vec<DocResult>) -> (r: String)
    ensures
        r@ == pretty_text(docs_json(docs_view(docs@))),
{
    render_pretty(&docs_to_json(docs))
}

/// What the tool returns for its arguments without a store: the matches
/// of the built-in catalogue as indented JSON text, or the error for
/// malformed arguments.
pub open spec fn search_output(arguments: JsonView) -> Result<Seq<char>, Seq<char>> {
    match search_input(arguments) {
        Ok(input) => Ok(pretty_text(docs_json(results_for(input, None)))),
        Err(detail) => Err("Invalid arguments: "@ + detail),
    }
}

/// What the documentation search says of itself.
pub const SEARCH_DOCS_DESCRIPTION: &'static str =
    "Search IBM WatsonX Orchestrate documentation for relevant information. \
Use this to find setup guides, feature documentation, API references, \
and troubleshooting information.";

/// The JSON schema of the arguments of the documentation search.
pub open spec fn search_schema() -> JsonView {
    JsonView::Object(
        seq![
            ("type"@, JsonView::Text("object"@)),
            (
                "properties"@,
                JsonView::Object(
                    seq![
                        (
                            "query"@,
                            JsonView::Object(
                                seq![
                                    ("type"@, JsonView::Text("string"@)),
                                    (
                                        "description"@,
                                        JsonView::Text("Search query for documentation"@),
                                    ),
                                ],
                            ),
                        ),
                        (
                            "limit"@,
                            JsonView::Object(
                                seq![
                                    ("type"@, JsonView::Text("integer"@)),
                                    (
                                        "description"@,
                                        JsonView::Text(
                                            "Maximum number of results to return (default: 5)"@,
                                        ),
                                    ),
                                    ("default"@, JsonView::Int(5)),
                                ],
                            ),
                        ),
                        (
                            "category"@,
                            JsonView::Object(
                                seq![
                                    ("type"@, JsonView::Text("string"@)),
                                    (
                                        "description"@,
                                        JsonView::Text(
                                            "Optional category filter (e.g., 'admin', 'user', 'api', 'troubleshooting')"@,
                                        ),
                                    ),
                                ],
                            ),
                        ),
                    ],
                ),
            ),
            ("required"@, text_list(seq!["query"@])),
        ],
    )
}

impl Tool for SearchDocsTool {
    open spec fn tool_name(&self) -> Seq<char> {
        "search_wxo_docs"@
    }

    fn name(&self) -> (r: &str) {
        "search_wxo_docs"
    }

    fn description(&self) -> (r: &str)
        ensures
            r@ == SEARCH_DOCS_DESCRIPTION@,
    {
        SEARCH_DOCS_DESCRIPTION
    }

    fn parameters_schema(&self) -> (r: Json)
        ensures
            r@ == search_schema(),
    {
        let query = Json::object2(
            "type",
            Json::text("string"),
            "description",
            Json::text("Search query for documentation"),
        );
        let limit = Json::object3(
            "type",
            Json::text("integer"),
            "description",
            Json::text("Maximum number of results to return (default: 5)"),
            "default",
            Json::Int(5),
        );
        let category = Json::object2(
            "type",
            Json::text("string"),
            "description",
            Json::text(
                "Optional category filter (e.g., 'admin', 'user', 'api', 'troubleshooting')",
            ),
        );
        let mut required: Vec<String> = Vec::new();
        required.push("query".to_string());
        assert(texts(required@) =~= seq!["query"@]);
        Json::object3(
            "type",
            Json::text("object"),
            "properties",
            Json::object3("query", query, "limit", limit, "category", category),
            "required",
            Json::texts(&required),
        )
    }

    open spec fn may_return(
        &self,
        arguments: JsonView,
        outcome: Result<Seq<char>, Seq<char>>,
    ) -> bool {
        outcome == search_output(arguments)
    }

    fn execute(&self, arguments: &Json) -> (r: Result<String, ToolError>) {
        match read_search_input(arguments) {
            Ok(input) => {
                let results = search_results(&input, None);
                Ok(render_results(&results))
            },
            Err(e) => Err(e),
        }
    }
}

} // verus!
