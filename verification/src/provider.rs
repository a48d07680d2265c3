//! What is asked of the search provider and of the text service, and how
//! their replies are read.

use crate::json::{item_views, member_views, Json, JsonView};
use crate::table::map_of;
use crate::text::{contains, occurs};
use vstd::prelude::*;
use vstd::string::StringExecFns;

verus! {

/// How long a search or a page fetch may take, in seconds.
pub const FETCH_TIMEOUT_SECS: u64 = 10;

/// How long the text service may take, in seconds. Its requests carry more
/// than a fetch does, so it is given more time.
pub const NORMALIZE_TIMEOUT_SECS: u64 = 30;

/// The query that a learning run searches with.
pub open spec fn search_query_text(name: Seq<char>) -> Seq<char> {
    name + " character personality traits background story"@
}

/// The query that a learning run searches with: the persona's name and a
/// fixed suffix.
pub fn search_query(name: &str) -> (query: String)
    ensures
        query@ == search_query_text(name@),
{
    let mut query = String::from_str(name);
    query.append(" character personality traits background story");
    query
}

/// The address that a search for `query` is fetched from.
pub open spec fn search_url_text(key: Seq<char>, engine: Seq<char>, query: Seq<char>) -> Seq<
    char,
> {
    "https://www.googleapis.com/customsearch/v1?key="@ + key + "&cx="@ + engine + "&q="@ + query
}

/// The address that a search for `query` is fetched from, for the search
/// engine `engine` and the credential `key`.
pub fn search_url(key: &str, engine: &str, query: &str) -> (url: String)
    ensures
        url@ == search_url_text(key@, engine@, query@),
{
    let mut url = String::from_str("https://www.googleapis.com/customsearch/v1?key=");
    url.append(key);
    url.append("&cx=");
    url.append(engine);
    url.append("&q=");
    url.append(query);
    url
}

/// The address that the text service is reached at.
pub open spec fn service_url_text(key: Seq<char>) -> Seq<char> {
    "https://generativelanguage.googleapis.com/v1beta/models/gemini-2.0-flash:generateContent?key="@
        + key
}

/// The address that the text service is reached at, for the credential
/// `key`.
pub fn service_url(key: &str) -> (url: String)
    ensures
        url@ == service_url_text(key@),
{
    let mut url = String::from_str(
        "https://generativelanguage.googleapis.com/v1beta/models/gemini-2.0-flash:generateContent?key=",
    );
    url.append(key);
    url
}

/// What the text service is told to do with `content` for the persona
/// `name`.
pub open spec fn normalization_prompt_text(name: Seq<char>, content: Seq<char>) -> Seq<char> {
    "You are "@ + name
        + ". Process this raw information about you and rewrite it in first person perspective, removing any HTML, scripts, or irrelevant content. Focus only on your personality, background, relationships, and characteristics. Make it natural and personal:\n\n"@
        + content
}

/// The instruction that has the text service rewrite `content` in the
/// voice of the persona `name`.
pub fn normalization_prompt(name: &str, content: &str) -> (prompt: String)
    ensures
        prompt@ == normalization_prompt_text(name@, content@),
{
    let mut prompt = String::from_str("You are ");
    prompt.append(name);
    prompt.append(
        ". Process this raw information about you and rewrite it in first person perspective, removing any HTML, scripts, or irrelevant content. Focus only on your personality, background, relationships, and characteristics. Make it natural and personal:\n\n",
    );
    prompt.append(content);
    prompt
}

/// An object with the one member `key`.
pub open spec fn single(key: Seq<char>, value: JsonView) -> JsonView {
    JsonView::Object(Map::empty().insert(key, value))
}

/// The document that carries `prompt` to the text service.
pub open spec fn service_request_view(prompt: Seq<char>) -> JsonView {
    single(
        "contents"@,
        JsonView::List(
            seq![
                single(
                    "parts"@,
                    JsonView::List(seq![single("text"@, JsonView::Text(prompt))]),
                ),
            ],
        ),
    )
}

/// An object with the one member `key`.
fn single_member(key: &str, value: Json) -> (out: Json)
    ensures
        out@ == single(key@, value@),
{
    let mut members: Vec<(String, Json)> = Vec::new();
    members.push((String::from_str(key), value));
    let out = Json::Object(members);
    proof {
        let pairs = member_views(members@);
        assert(pairs.drop_last() =~= Seq::empty());
        assert(map_of(pairs.drop_last()) =~= Map::empty());
        assert(pairs.last() == (key@, value@));
        assert(out@ == JsonView::Object(map_of(pairs)));
    }
    out
}

/// A list with the one item `item`.
fn single_item(item: Json) -> (out: Json)
    ensures
        out@ == JsonView::List(seq![item@]),
{
    let mut items: Vec<Json> = Vec::new();
    items.push(item);
    let out = Json::List(items);
    proof {
        assert(item_views(items@) =~= seq![item@]);
        assert(out@ == JsonView::List(item_views(items@)));
    }
    out
}

/// The document that carries `prompt` to the text service.
pub fn service_request(prompt: &str) -> (request: Json)
    ensures
        request@ == service_request_view(prompt@),
{
    let text = single_member("text", Json::Text(String::from_str(prompt)));
    let parts = single_member("parts", single_item(text));
    single_member("contents", single_item(parts))
}

/// Where the text stands in a reply of the text service: under
/// `candidates`, in the first item, under `content` and `parts`, in the
/// first item, under `text`.
pub open spec fn reply_part(reply: JsonView) -> Option<JsonView> {
    match reply.member("candidates"@) {
        Some(candidates) => match candidates.item(0) {
            Some(candidate) => match candidate.member("content"@) {
                Some(content) => match content.member("parts"@) {
                    Some(parts) => match parts.item(0) {
                        Some(part) => part.member("text"@),
                        None => None,
                    },
                    None => None,
                },
                None => None,
            },
            None => None,
        },
        None => None,
    }
}

/// Where the text stands in a reply of the text service.
pub fn find_reply_part(reply: &Json) -> (found: Option<&Json>)
    ensures
        match found {
            Some(part) => reply_part(reply@) == Some(part@),
            None => reply_part(reply@) is None,
        },
{
    let candidates = match reply.member("candidates") {
        Some(candidates) => candidates,
        None => { return None; },
    };
    let candidate = match candidates.item(0) {
        Some(candidate) => candidate,
        None => { return None; },
    };
    let content = match candidate.member("content") {
        Some(content) => content,
        None => { return None; },
    };
    let parts = match content.member("parts") {
        Some(parts) => parts,
        None => { return None; },
    };
    let part = match parts.item(0) {
        Some(part) => part,
        None => { return None; },
    };
    part.member("text")
}

/// The text that a reply of the text service carries: the empty text where
/// the reply has another shape.
pub open spec fn reply_text_of(reply: JsonView) -> Seq<char> {
    match reply_part(reply) {
        Some(part) => match part.text() {
            Some(text) => text,
            None => Seq::empty(),
        },
        None => Seq::empty(),
    }
}

/// The text that a reply of the text service carries: the empty text where
/// the reply has another shape.
pub fn reply_text(reply: &Json) -> (text: String)
    ensures
        text@ == reply_text_of(reply@),
{
    match find_reply_part(reply) {
        Some(part) => match part.as_text() {
            Some(text) => text.clone(),
            None => String::new(),
        },
        None => String::new(),
    }
}

/// The first result of a search reply: the first item under `items`.
pub open spec fn first_result(reply: JsonView) -> Option<JsonView> {
    match reply.member("items"@) {
        Some(items) => items.item(0),
        None => None,
    }
}

/// The text that the first result of a search reply has under `key`.
pub open spec fn result_text(reply: JsonView, key: Seq<char>) -> Option<Seq<char>> {
    match first_result(reply) {
        Some(result) => result.text_under(key),
        None => None,
    }
}

/// What a learning run takes from a search: the first result's summary and
/// address, each as far as the reply has it.
#[derive(Debug, PartialEq, Eq)]
pub struct SearchHit {
    pub snippet: Option<String>,
    pub link: Option<String>,
}

/// Reads the first result of a search reply.
pub fn search_hit(reply: &Json) -> (hit: SearchHit)
    ensures
        hit.snippet.deep_view() == result_text(reply@, "snippet"@),
        hit.link.deep_view() == result_text(reply@, "link"@),
{
    let nothing = SearchHit { snippet: None, link: None };
    let items = match reply.member("items") {
        Some(items) => items,
        None => { return nothing; },
    };
    let result = match items.item(0) {
        Some(result) => result,
        None => { return nothing; },
    };
    SearchHit { snippet: result.text_under("snippet"), link: result.text_under("link") }
}

/// The text that a search adds to what the persona understands of itself:
/// the summary of the first result, with a blank line after it.
pub open spec fn search_text_of(snippet: Option<Seq<char>>) -> Seq<char> {
    match snippet {
        Some(text) => text + "\n\n"@,
        None => Seq::empty(),
    }
}

/// The text that a search adds to what the persona understands of itself.
pub fn search_text(snippet: &Option<String>) -> (text: String)
    ensures
        text@ == search_text_of(snippet.deep_view()),
{
    match snippet {
        Some(summary) => {
            let mut text = summary.clone();
            text.append("\n\n");
            text
        },
        None => String::new(),
    }
}

/// Whether a page found by a search is one to learn from: every page but
/// those of pinterest.com.
pub open spec fn learnable(url: Seq<char>) -> bool {
    !occurs(url, "pinterest.com"@)
}

/// Whether a page found by a search is one to learn from.
pub fn is_learnable(url: &str) -> (out: bool)
    ensures
        out == learnable(url@),
{
    !contains(url, "pinterest.com")
}

} // verus!
