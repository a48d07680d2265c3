use learning_chatbot::json::Json;
use learning_chatbot::knowledge::Knowledge;

fn text(value: &str) -> Json {
    Json::Text(value.to_string())
}

fn object(members: Vec<(&str, Json)>) -> Json {
    Json::Object(members.into_iter().map(|(name, value)| (name.to_string(), value)).collect())
}

fn service_reply(answer: &str) -> Json {
    object(vec![(
        "candidates",
        Json::List(vec![object(vec![(
            "content",
            object(vec![("parts", Json::List(vec![object(vec![("text", text(answer))])]))]),
        )])]),
    )])
}

#[test]
fn training_at_a_time_keeps_the_text_under_that_time() {
    let mut store = Knowledge::new();
    assert!(store.train_at(1700000000, &service_reply("I can sing.")));
    assert_eq!(store.facts.len(), 1);
    assert_eq!(
        store.facts.get(&"trained_knowledge_1700000000".to_string()),
        Some(&"I can sing.".to_string())
    );
    assert!(store.train_at(1700000000, &service_reply("I can dance.")));
    assert_eq!(store.facts.len(), 1);
    assert_eq!(
        store.facts.get(&"trained_knowledge_1700000000".to_string()),
        Some(&"I can dance.".to_string())
    );
}

#[test]
fn training_with_an_empty_reply_changes_nothing() {
    let mut store = Knowledge::new();
    assert!(!store.train_at(5, &service_reply("")));
    assert!(!store.train_at(5, &Json::Other));
    assert!(!store.train_at(5, &object(vec![])));
    assert_eq!(store.facts.len(), 0);
}

#[test]
fn trainings_at_other_times_stand_beside_each_other() {
    let mut store = Knowledge::new();
    assert!(store.train_at(1, &service_reply("first")));
    assert!(store.train_at(-1, &service_reply("before")));
    assert!(store.train_at(0, &service_reply("between")));
    assert_eq!(store.facts.len(), 3);
    assert_eq!(store.facts.get(&"trained_knowledge_1".to_string()), Some(&"first".to_string()));
    assert_eq!(store.facts.get(&"trained_knowledge_-1".to_string()), Some(&"before".to_string()));
    assert_eq!(store.facts.get(&"trained_knowledge_0".to_string()), Some(&"between".to_string()));
}
