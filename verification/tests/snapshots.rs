use learning_chatbot::error::PersistenceError;
use learning_chatbot::json::Json;
use learning_chatbot::knowledge::Knowledge;
use learning_chatbot::table::TextMap;

fn text(value: &str) -> Json {
    Json::Text(value.to_string())
}

fn object(members: Vec<(&str, Json)>) -> Json {
    Json::Object(members.into_iter().map(|(name, value)| (name.to_string(), value)).collect())
}

fn list(items: Vec<Json>) -> Json {
    Json::List(items)
}

fn render(json: &Json) -> String {
    match json {
        Json::Other => "?".to_string(),
        Json::Number(n) => format!("{}", n),
        Json::Text(value) => format!("{:?}", value),
        Json::List(items) => {
            let inner: Vec<String> = items.iter().map(render).collect();
            format!("[{}]", inner.join(","))
        }
        Json::Object(members) => {
            let inner: Vec<String> =
                members.iter().map(|(name, value)| format!("{:?}:{}", name, render(value))).collect();
            format!("{{{}}}", inner.join(","))
        }
    }
}

fn pairs(table: &TextMap) -> Vec<(String, String)> {
    let mut out: Vec<(String, String)> = Vec::new();
    for at in 0..table.len() {
        out.push((table.key_at(at).clone(), table.value_at(at).clone()));
    }
    out.sort();
    out
}

fn sample() -> Knowledge {
    let mut store = Knowledge::new();
    store.facts.insert("self_understanding".to_string(), "I am Alya.".to_string());
    store.facts.insert("personal_knowledge_u1".to_string(), "From u1.".to_string());
    store.search_history.push("q1".to_string());
    store.learned_urls.push("u1".to_string());
    store.external_url_count = 3;
    store.cached_content.insert("u1".to_string(), "raw one".to_string());
    store
}

fn same(left: &Knowledge, right: &Knowledge) -> bool {
    pairs(&left.facts) == pairs(&right.facts)
        && left.search_history == right.search_history
        && left.learned_urls == right.learned_urls
        && left.external_url_count == right.external_url_count
        && pairs(&left.cached_content) == pairs(&right.cached_content)
}

#[test]
fn a_store_is_saved_member_by_member() {
    let written = render(&sample().save());
    assert_eq!(
        written,
        "{\"facts\":{\"self_understanding\":\"I am Alya.\",\"personal_knowledge_u1\":\"From u1.\"},\
\"search_history\":[\"q1\"],\"learned_urls\":[\"u1\"],\"external_url_count\":3,\
\"cached_content\":{\"u1\":\"raw one\"}}"
    );
}

#[test]
fn an_empty_store_is_saved_with_every_member() {
    assert_eq!(
        render(&Knowledge::new().save()),
        "{\"facts\":{},\"search_history\":[],\"learned_urls\":[],\"external_url_count\":0,\
\"cached_content\":{}}"
    );
}

#[test]
fn a_saved_store_reads_back_as_it_was() {
    let store = sample();
    let read = Knowledge::restore(&store.save()).unwrap();
    assert!(same(&read, &store));
}

#[test]
fn load_without_a_snapshot_changes_nothing_and_a_saved_store_loads_elsewhere() {
    let mut store = sample();
    assert_eq!(store.load(None), Ok(()));
    assert!(same(&store, &sample()));
    let document = store.save();
    let mut elsewhere = Knowledge::new();
    assert_eq!(elsewhere.load(Some(&document)), Ok(()));
    assert!(same(&elsewhere, &store));
}

#[test]
fn load_merges_the_snapshot_into_what_is_there() {
    let mut store = Knowledge::new();
    store.facts.insert("self_understanding".to_string(), "old".to_string());
    store.learned_urls.push("u0".to_string());
    store.external_url_count = 8;
    assert_eq!(store.load(Some(&sample().save())), Ok(()));
    assert_eq!(store.facts.get(&"self_understanding".to_string()), Some(&"I am Alya.".to_string()));
    assert_eq!(store.learned_urls, vec!["u0", "u1"]);
    assert_eq!(store.external_url_count, 3);
}

#[test]
fn members_that_a_snapshot_lacks_are_empty() {
    let read = Knowledge::restore(&object(vec![])).unwrap();
    assert!(same(&read, &Knowledge::new()));
    let partly = object(vec![("learned_urls", list(vec![text("u7")])), ("added_later", Json::Other)]);
    let read = Knowledge::restore(&partly).unwrap();
    assert_eq!(read.learned_urls, vec!["u7"]);
    assert_eq!(read.facts.len(), 0);
    assert_eq!(read.external_url_count, 0);
}

#[test]
fn a_snapshot_of_another_shape_is_malformed() {
    let malformed = vec![
        Json::Other,
        text("facts"),
        list(vec![]),
        Json::Number(1),
        object(vec![("facts", list(vec![]))]),
        object(vec![("facts", object(vec![("k", Json::Number(1))]))]),
        object(vec![("search_history", object(vec![]))]),
        object(vec![("learned_urls", list(vec![text("u"), Json::Other]))]),
        object(vec![("external_url_count", text("3"))]),
        object(vec![("external_url_count", Json::Other)]),
        object(vec![("cached_content", text(""))]),
    ];
    for document in malformed.iter() {
        assert_eq!(
            Knowledge::restore(document).err(),
            Some(PersistenceError::Malformed),
            "{}",
            render(document)
        );
    }
}

#[test]
fn a_malformed_snapshot_leaves_the_store_as_it_was() {
    let mut store = sample();
    assert_eq!(store.load(Some(&text("not a store"))), Err(PersistenceError::Malformed));
    assert!(same(&store, &sample()));
}

#[test]
fn the_later_of_two_members_with_one_name_counts() {
    let document = object(vec![
        ("facts", list(vec![])),
        ("facts", object(vec![("k", Json::Other), ("k", text("kept")), ("j", text("too"))])),
        ("external_url_count", Json::Number(1)),
        ("external_url_count", Json::Number(2)),
    ]);
    let read = Knowledge::restore(&document).unwrap();
    assert_eq!(pairs(&read.facts), vec![("j".to_string(), "too".to_string()), ("k".to_string(), "kept".to_string())]);
    assert_eq!(read.external_url_count, 2);
    let shadowing = object(vec![("facts", object(vec![("k", text("first")), ("k", Json::Other)]))]);
    assert_eq!(Knowledge::restore(&shadowing).err(), Some(PersistenceError::Malformed));
}

#[test]
fn json_gives_what_stands_in_it() {
    let document = object(vec![
        ("n", Json::Number(4)),
        ("t", text("x")),
        ("l", list(vec![text("a"), text("b")])),
        ("t", text("y")),
    ]);
    assert!(document.is_object());
    assert!(!text("x").is_object());
    assert_eq!(document.member("t").and_then(|value| value.as_text()), Some(&"y".to_string()));
    assert_eq!(document.member("n").and_then(|value| value.as_number()), Some(4));
    assert!(document.member("missing").is_none());
    assert!(text("x").member("t").is_none());
    let items = document.member("l").unwrap();
    assert_eq!(items.item(1).and_then(|value| value.as_text()), Some(&"b".to_string()));
    assert!(items.item(2).is_none());
    assert!(document.item(0).is_none());
    assert_eq!(document.text_under("t"), Some("y".to_string()));
    assert_eq!(document.text_under("n"), None);
    assert_eq!(document.texts_under("l"), Some(vec!["a".to_string(), "b".to_string()]));
    assert_eq!(document.texts_under("t"), None);
    assert_eq!(document.count_under("n"), Some(4));
    assert_eq!(document.count_under("l"), None);
    assert_eq!(text("x").as_number(), None);
    assert!(Json::Number(1).as_text().is_none());
}
