use learning_chatbot::json::Json;
use learning_chatbot::provider::{
    find_reply_part, is_learnable, normalization_prompt, reply_text, search_hit, search_query,
    search_text, search_url, service_request, service_url, SearchHit, FETCH_TIMEOUT_SECS,
    NORMALIZE_TIMEOUT_SECS,
};

fn text(value: &str) -> Json {
    Json::Text(value.to_string())
}

fn object(members: Vec<(&str, Json)>) -> Json {
    Json::Object(members.into_iter().map(|(name, value)| (name.to_string(), value)).collect())
}

fn list(items: Vec<Json>) -> Json {
    Json::List(items)
}

fn reply_with(part: Json) -> Json {
    object(vec![(
        "candidates",
        list(vec![object(vec![("content", object(vec![("parts", list(vec![part]))]))])]),
    )])
}

#[test]
fn the_query_is_the_name_and_a_fixed_suffix() {
    assert_eq!(search_query("Alya"), "Alya character personality traits background story");
    assert_eq!(search_query(""), " character personality traits background story");
}

#[test]
fn the_search_address_carries_key_engine_and_query() {
    assert_eq!(
        search_url("K", "E", "Alya story"),
        "https://www.googleapis.com/customsearch/v1?key=K&cx=E&q=Alya story"
    );
}

#[test]
fn the_service_address_carries_the_key() {
    assert_eq!(
        service_url("K"),
        "https://generativelanguage.googleapis.com/v1beta/models/gemini-2.0-flash:generateContent?key=K"
    );
}

#[test]
fn the_prompt_names_the_persona_and_ends_in_the_content() {
    assert_eq!(
        normalization_prompt("Alisa Mikhailovna Kujou", "raw text"),
        "You are Alisa Mikhailovna Kujou. Process this raw information about you and rewrite it in \
first person perspective, removing any HTML, scripts, or irrelevant content. Focus only on your \
personality, background, relationships, and characteristics. Make it natural and personal:\n\nraw text"
    );
}

#[test]
fn the_request_wraps_the_prompt() {
    let request = service_request("do this");
    assert!(find_reply_part(&request).is_none());
    let contents = request.member("contents").unwrap();
    assert!(contents.item(1).is_none());
    let parts = contents.item(0).unwrap().member("parts").unwrap();
    assert!(parts.item(1).is_none());
    assert_eq!(parts.item(0).unwrap().text_under("text"), Some("do this".to_string()));
    match &request {
        Json::Object(members) => assert_eq!(members.len(), 1),
        _ => panic!("the request is no object"),
    }
}

#[test]
fn the_text_service_is_given_more_time_than_a_fetch() {
    assert_eq!(FETCH_TIMEOUT_SECS, 10);
    assert_eq!(NORMALIZE_TIMEOUT_SECS, 30);
    assert!(NORMALIZE_TIMEOUT_SECS >= FETCH_TIMEOUT_SECS);
}

#[test]
fn the_text_of_a_reply_stands_under_its_first_candidate() {
    let reply = reply_with(object(vec![("text", text("I am Alya."))]));
    assert_eq!(reply_text(&reply), "I am Alya.");
    let two = object(vec![(
        "candidates",
        list(vec![
            object(vec![(
                "content",
                object(vec![(
                    "parts",
                    list(vec![object(vec![("text", text("first"))]), object(vec![("text", text("second"))])]),
                )]),
            )]),
            object(vec![]),
        ]),
    )]);
    assert_eq!(reply_text(&two), "first");
}

#[test]
fn a_reply_of_another_shape_carries_no_text() {
    let others = vec![
        Json::Other,
        object(vec![]),
        object(vec![("candidates", Json::Other)]),
        object(vec![("candidates", list(vec![]))]),
        object(vec![("candidates", list(vec![text("x")]))]),
        object(vec![("candidates", list(vec![object(vec![])]))]),
        object(vec![("candidates", list(vec![object(vec![("content", text("x"))])]))]),
        object(vec![("candidates", list(vec![object(vec![("content", object(vec![("parts", object(vec![]))]))])]))]),
        reply_with(text("bare")),
        reply_with(object(vec![("words", text("x"))])),
        reply_with(object(vec![("text", Json::Number(3))])),
        object(vec![("candidates", object(vec![("0", object(vec![]))]))]),
    ];
    for reply in others.iter() {
        assert_eq!(reply_text(reply), "", "{:?}", reply);
    }
    assert!(find_reply_part(&reply_with(object(vec![("text", Json::Number(3))]))).is_some());
    assert!(find_reply_part(&reply_with(text("bare"))).is_none());
}

#[test]
fn a_search_hit_is_the_first_result() {
    let reply = object(vec![(
        "items",
        list(vec![
            object(vec![("snippet", text("Alya is proud.")), ("link", text("https://a.example/alya"))]),
            object(vec![("snippet", text("second")), ("link", text("https://b.example"))]),
        ]),
    )]);
    assert_eq!(
        search_hit(&reply),
        SearchHit {
            snippet: Some("Alya is proud.".to_string()),
            link: Some("https://a.example/alya".to_string()),
        }
    );
}

#[test]
fn a_search_hit_holds_what_the_first_result_has() {
    let nothing = SearchHit { snippet: None, link: None };
    assert_eq!(search_hit(&Json::Other), nothing);
    assert_eq!(search_hit(&object(vec![])), nothing);
    assert_eq!(search_hit(&object(vec![("items", text("none"))])), nothing);
    assert_eq!(search_hit(&object(vec![("items", list(vec![]))])), nothing);
    assert_eq!(search_hit(&object(vec![("items", list(vec![text("x")]))])), nothing);
    let only_link = object(vec![("items", list(vec![object(vec![("snippet", Json::Number(1)), ("link", text("l"))])]))]);
    assert_eq!(search_hit(&only_link), SearchHit { snippet: None, link: Some("l".to_string()) });
    let only_snippet = object(vec![("items", list(vec![object(vec![("snippet", text("s"))])]))]);
    assert_eq!(search_hit(&only_snippet), SearchHit { snippet: Some("s".to_string()), link: None });
}

#[test]
fn the_search_text_is_the_summary_and_a_blank_line() {
    assert_eq!(search_text(&Some("Alya is proud.".to_string())), "Alya is proud.\n\n");
    assert_eq!(search_text(&Some("".to_string())), "\n\n");
    assert_eq!(search_text(&None), "");
}

#[test]
fn pages_of_pinterest_are_not_learned_from() {
    assert!(is_learnable("https://example.org/alya"));
    assert!(is_learnable(""));
    assert!(!is_learnable("https://www.pinterest.com/pin/1"));
    assert!(!is_learnable("pinterest.com"));
    assert!(is_learnable("https://pinterest.co.uk/pin/1"));
}
