use learning_chatbot::chatbot::Chatbot;
use learning_chatbot::json::Json;
use learning_chatbot::config::{
    CharacterConfig, ChatbotConfig, ConversationSettings, KnowledgeSources,
};

fn config(max_history: usize) -> ChatbotConfig {
    ChatbotConfig {
        character: CharacterConfig {
            name: "Alya".to_string(),
            personality: "proud".to_string(),
            description: "a transfer student".to_string(),
            traits: vec!["diligent".to_string(), "shy".to_string()],
            interests: vec!["ramen".to_string()],
        },
        knowledge_sources: KnowledgeSources {
            self_learning_urls: Vec::new(),
            additional_context: "speaks Russian".to_string(),
        },
        conversation_settings: ConversationSettings {
            max_history,
            learning_frequency: "daily".to_string(),
        },
    }
}

fn history(bot: &Chatbot) -> Vec<String> {
    bot.conversation_history.iter().cloned().collect()
}

#[test]
fn history_of_two_keeps_the_last_two() {
    let mut bot = Chatbot::new(config(2));
    bot.add_to_history("User: hi");
    bot.add_to_history("Bot: hello");
    bot.add_to_history("User: bye");
    assert_eq!(history(&bot), vec!["Bot: hello".to_string(), "User: bye".to_string()]);
}

#[test]
fn history_drops_the_oldest_after_one_too_many() {
    let max: usize = 5;
    let mut bot = Chatbot::new(config(max));
    for i in 0..=max {
        bot.add_to_history(&format!("message {}", i));
    }
    let kept = history(&bot);
    assert_eq!(kept.len(), max);
    assert!(!kept.contains(&"message 0".to_string()));
    assert_eq!(kept[0], "message 1");
    assert_eq!(kept[max - 1], "message 5");
}

#[test]
fn a_history_that_may_keep_nothing_stays_empty() {
    let mut bot = Chatbot::new(config(0));
    bot.add_to_history("one");
    assert!(history(&bot).is_empty());
    bot.add_to_history("two");
    assert!(history(&bot).is_empty());
    assert_eq!(bot.conversation_history.len(), 0);
}

#[test]
fn a_history_of_one_holds_the_last_message() {
    let mut bot = Chatbot::new(config(1));
    bot.add_to_history("one");
    assert_eq!(history(&bot), vec!["one".to_string()]);
    bot.add_to_history("two");
    assert_eq!(history(&bot), vec!["two".to_string()]);
}

#[test]
fn a_history_that_is_too_long_is_cut_to_what_it_may_keep() {
    let mut bot = Chatbot::new(config(5));
    for i in 0..5 {
        bot.add_to_history(&format!("message {}", i));
    }
    bot.config.conversation_settings.max_history = 2;
    bot.add_to_history("last");
    assert_eq!(history(&bot), vec!["message 4".to_string(), "last".to_string()]);
    bot.config.conversation_settings.max_history = 0;
    bot.add_to_history("gone");
    assert!(history(&bot).is_empty());
}

#[test]
fn a_history_is_never_longer_than_it_may_be() {
    for max in 0..6 {
        let mut bot = Chatbot::new(config(max));
        for i in 0..10 {
            bot.add_to_history(&format!("message {}", i));
            assert!(bot.conversation_history.len() <= max);
            assert_eq!(bot.conversation_history.len(), std::cmp::min(i + 1, max));
        }
    }
}

#[test]
fn context_of_a_new_chatbot() {
    let bot = Chatbot::new(config(2));
    let expected = "You are a chatbot named Alya. Your personality: proud. \
Description: a transfer student. Traits: diligent, shy. Interests: ramen.\n\
Additional context: speaks Russian\n\
\nRemember to stay in character and respond according to your personality traits. \
If you're asked about something you don't know, be honest about it. \
Use your learned knowledge to provide detailed and accurate responses.\n";
    assert_eq!(bot.get_context(), expected);
}

#[test]
fn context_holds_facts_and_history() {
    let mut bot = Chatbot::new(config(2));
    bot.knowledge.facts.insert("self_understanding".to_string(), "I am Alya.".to_string());
    bot.knowledge.facts.insert("personal_knowledge_u".to_string(), "I like ramen.".to_string());
    bot.add_to_history("User: hi");
    let context = bot.get_context();
    assert!(context.contains("\nKnowledge from self_understanding:\nI am Alya.\n"));
    assert!(context.contains("\nKnowledge from personal_knowledge_u:\nI like ramen.\n"));
    assert!(context.contains("\nPrevious conversation context:\nUser: hi\n"));
    assert!(context.starts_with("You are a chatbot named Alya."));
    assert!(context.ends_with("detailed and accurate responses.\n"));
}

fn object(members: Vec<(&str, Json)>) -> Json {
    Json::Object(members.into_iter().map(|(name, value)| (name.to_string(), value)).collect())
}

fn reply_with(part: Json) -> Json {
    object(vec![(
        "candidates",
        Json::List(vec![object(vec![("content", object(vec![("parts", Json::List(vec![part]))]))])]),
    )])
}

#[test]
fn asking_keeps_the_message_and_builds_the_prompt() {
    let mut bot = Chatbot::new(config(2));
    let prompt = bot.ask("How are you?");
    assert_eq!(history(&bot), vec!["User: How are you?".to_string()]);
    let context = bot.get_context();
    assert!(context.contains("\nPrevious conversation context:\nUser: How are you?\n"));
    assert_eq!(prompt, format!("{}\n\nUser: How are you?\nAlya: ", context));
}

#[test]
fn an_answer_is_kept_under_the_name_of_the_persona() {
    let mut bot = Chatbot::new(config(2));
    bot.ask("hi");
    let reply = reply_with(object(vec![("text", Json::Text("Hello!".to_string()))]));
    assert_eq!(bot.hear(&reply), Some("Hello!".to_string()));
    assert_eq!(history(&bot), vec!["User: hi".to_string(), "Alya: Hello!".to_string()]);
    let odd = reply_with(object(vec![("text", Json::Number(1))]));
    assert_eq!(bot.hear(&odd), Some("No response".to_string()));
    assert_eq!(history(&bot), vec!["Alya: Hello!".to_string(), "Alya: No response".to_string()]);
}

#[test]
fn a_reply_without_an_answer_changes_nothing() {
    let mut bot = Chatbot::new(config(2));
    bot.ask("hi");
    assert_eq!(bot.hear(&object(vec![])), None);
    assert_eq!(bot.hear(&reply_with(Json::Other)), None);
    assert_eq!(history(&bot), vec!["User: hi".to_string()]);
}

#[test]
fn a_chatbot_that_keeps_nothing_still_asks_and_hears() {
    let mut bot = Chatbot::new(config(0));
    let prompt = bot.ask("hi");
    assert!(history(&bot).is_empty());
    assert!(!prompt.contains("Previous conversation context"));
    assert!(prompt.ends_with("\n\nUser: hi\nAlya: "));
    let reply = reply_with(object(vec![("text", Json::Text("Hello!".to_string()))]));
    assert_eq!(bot.hear(&reply), Some("Hello!".to_string()));
    assert!(history(&bot).is_empty());
}
