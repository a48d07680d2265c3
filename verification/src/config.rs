//! The configuration of a chatbot, and the JSON document that it is kept
//! as.

use crate::error::ConfigError;
use crate::json::{
    lemma_texts_round_trip, member_views, push_member, texts_json, texts_to_json, Json, JsonView,
};
use crate::table::map_of;
use vstd::prelude::*;
use vstd::string::StringExecFns;

verus! {

/// Who the persona is.
#[derive(Debug)]
pub struct CharacterConfig {
    pub name: String,
    pub personality: String,
    pub description: String,
    pub traits: Vec<String>,
    pub interests: Vec<String>,
}

/// Where the persona learns from.
#[derive(Debug)]
pub struct KnowledgeSources {
    /// The pages that every learning run visits.
    pub self_learning_urls: Vec<String>,
    pub additional_context: String,
}

/// How a conversation is kept.
#[derive(Debug)]
pub struct ConversationSettings {
    /// How many recent messages are kept.
    pub max_history: usize,
    /// How often the persona should learn. Nothing acts on it.
    pub learning_frequency: String,
}

/// The whole configuration of a chatbot.
#[derive(Debug)]
pub struct ChatbotConfig {
    pub character: CharacterConfig,
    pub knowledge_sources: KnowledgeSources,
    pub conversation_settings: ConversationSettings,
}

/// What a `CharacterConfig` means.
pub struct CharacterView {
    pub name: Seq<char>,
    pub personality: Seq<char>,
    pub description: Seq<char>,
    pub traits: Seq<Seq<char>>,
    pub interests: Seq<Seq<char>>,
}

/// What a `KnowledgeSources` means.
pub struct SourcesView {
    pub self_learning_urls: Seq<Seq<char>>,
    pub additional_context: Seq<char>,
}

/// What a `ConversationSettings` means.
pub struct SettingsView {
    pub max_history: usize,
    pub learning_frequency: Seq<char>,
}

/// What a `ChatbotConfig` means.
pub struct ConfigView {
    pub character: CharacterView,
    pub knowledge_sources: SourcesView,
    pub conversation_settings: SettingsView,
}

impl View for CharacterConfig {
    type V = CharacterView;

    open spec fn view(&self) -> CharacterView {
        CharacterView {
            name: self.name@,
            personality: self.personality@,
            description: self.description@,
            traits: self.traits.deep_view(),
            interests: self.interests.deep_view(),
        }
    }
}

impl View for KnowledgeSources {
    type V = SourcesView;

    open spec fn view(&self) -> SourcesView {
        SourcesView {
            self_learning_urls: self.self_learning_urls.deep_view(),
            additional_context: self.additional_context@,
        }
    }
}

impl View for ConversationSettings {
    type V = SettingsView;

    open spec fn view(&self) -> SettingsView {
        SettingsView {
            max_history: self.max_history,
            learning_frequency: self.learning_frequency@,
        }
    }
}

impl View for ChatbotConfig {
    type V = ConfigView;

    open spec fn view(&self) -> ConfigView {
        ConfigView {
            character: self.character@,
            knowledge_sources: self.knowledge_sources@,
            conversation_settings: self.conversation_settings@,
        }
    }
}

/// How many messages a chatbot keeps where nothing else is configured.
pub const DEFAULT_MAX_HISTORY: usize = 5;

impl ConfigView {
    /// The configuration of a chatbot that has not been set up: nothing is
    /// known of the persona, and the conversation is kept as usual.
    pub open spec fn blank() -> ConfigView {
        ConfigView {
            character: CharacterView {
                name: Seq::empty(),
                personality: Seq::empty(),
                description: Seq::empty(),
                traits: Seq::empty(),
                interests: Seq::empty(),
            },
            knowledge_sources: SourcesView {
                self_learning_urls: Seq::empty(),
                additional_context: Seq::empty(),
            },
            conversation_settings: SettingsView {
                max_history: DEFAULT_MAX_HISTORY,
                learning_frequency: "daily"@,
            },
        }
    }

    /// Whether the persona has a name, and so has been set up.
    pub open spec fn is_set_up(self) -> bool {
        self.character.name.len() > 0
    }
}

/// The part of the document that says who the persona is.
pub open spec fn character_json(character: CharacterView) -> JsonView {
    JsonView::Object(
        Map::empty().insert("name"@, JsonView::Text(character.name)).insert(
            "personality"@,
            JsonView::Text(character.personality),
        ).insert("description"@, JsonView::Text(character.description)).insert(
            "traits"@,
            texts_json(character.traits),
        ).insert("interests"@, texts_json(character.interests)),
    )
}

/// The part of the document that says where the persona learns from.
pub open spec fn sources_json(sources: SourcesView) -> JsonView {
    JsonView::Object(
        Map::empty().insert("self_learning_urls"@, texts_json(sources.self_learning_urls)).insert(
            "additional_context"@,
            JsonView::Text(sources.additional_context),
        ),
    )
}

/// The part of the document that says how a conversation is kept.
pub open spec fn settings_json(settings: SettingsView) -> JsonView {
    JsonView::Object(
        Map::empty().insert("max_history"@, JsonView::Number(settings.max_history as nat)).insert(
            "learning_frequency"@,
            JsonView::Text(settings.learning_frequency),
        ),
    )
}

/// The document that a configuration is kept as.
pub open spec fn config_json(config: ConfigView) -> JsonView {
    JsonView::Object(
        Map::empty().insert("character"@, character_json(config.character)).insert(
            "knowledge_sources"@,
            sources_json(config.knowledge_sources),
        ).insert("conversation_settings"@, settings_json(config.conversation_settings)),
    )
}

/// Who the persona is, as a part of the document says it. Every member
/// has to be there.
pub open spec fn character_of(json: JsonView) -> Option<CharacterView> {
    let name = json.text_under("name"@);
    let personality = json.text_under("personality"@);
    let description = json.text_under("description"@);
    let traits = json.texts_under("traits"@);
    let interests = json.texts_under("interests"@);
    if name is Some && personality is Some && description is Some && traits is Some
        && interests is Some {
        Some(
            CharacterView {
                name: name->0,
                personality: personality->0,
                description: description->0,
                traits: traits->0,
                interests: interests->0,
            },
        )
    } else {
        None
    }
}

/// Where the persona learns from, as a part of the document says it.
/// Every member has to be there.
pub open spec fn sources_of(json: JsonView) -> Option<SourcesView> {
    let self_learning_urls = json.texts_under("self_learning_urls"@);
    let additional_context = json.text_under("additional_context"@);
    if self_learning_urls is Some && additional_context is Some {
        Some(
            SourcesView {
                self_learning_urls: self_learning_urls->0,
                additional_context: additional_context->0,
            },
        )
    } else {
        None
    }
}

/// How a conversation is kept, as a part of the document says it. Every
/// member has to be there.
pub open spec fn settings_of(json: JsonView) -> Option<SettingsView> {
    let max_history = json.count_under("max_history"@);
    let learning_frequency = json.text_under("learning_frequency"@);
    if max_history is Some && learning_frequency is Some {
        Some(
            SettingsView {
                max_history: max_history->0,
                learning_frequency: learning_frequency->0,
            },
        )
    } else {
        None
    }
}

/// The configuration that a document holds. Every part has to be there.
pub open spec fn config_of(document: JsonView) -> Option<ConfigView> {
    let character = match document.member("character"@) {
        Some(part) => character_of(part),
        None => None,
    };
    let knowledge_sources = match document.member("knowledge_sources"@) {
        Some(part) => sources_of(part),
        None => None,
    };
    let conversation_settings = match document.member("conversation_settings"@) {
        Some(part) => settings_of(part),
        None => None,
    };
    if character is Some && knowledge_sources is Some && conversation_settings is Some {
        Some(
            ConfigView {
                character: character->0,
                knowledge_sources: knowledge_sources->0,
                conversation_settings: conversation_settings->0,
            },
        )
    } else {
        None
    }
}

/// A configuration that is written and read back is the configuration
/// that was written.
pub proof fn lemma_config_round_trip(config: ConfigView)
    ensures
        config_of(config_json(config)) == Some(config),
{
    reveal_strlit("name");
    reveal_strlit("personality");
    reveal_strlit("description");
    reveal_strlit("traits");
    reveal_strlit("interests");
    reveal_strlit("self_learning_urls");
    reveal_strlit("additional_context");
    reveal_strlit("max_history");
    reveal_strlit("learning_frequency");
    reveal_strlit("character");
    reveal_strlit("knowledge_sources");
    reveal_strlit("conversation_settings");
    assert("name"@.len() == 4);
    assert("personality"@.len() == 11);
    assert("description"@.len() == 11);
    assert("personality"@[0] != "description"@[0]);
    assert("traits"@.len() == 6);
    assert("interests"@.len() == 9);
    assert("self_learning_urls"@.len() == 18);
    assert("additional_context"@.len() == 18);
    assert("self_learning_urls"@[0] != "additional_context"@[0]);
    assert("max_history"@.len() == 11);
    assert("learning_frequency"@.len() == 18);
    assert("character"@.len() == 9);
    assert("knowledge_sources"@.len() == 17);
    assert("conversation_settings"@.len() == 21);
    lemma_texts_round_trip(config.character.traits);
    lemma_texts_round_trip(config.character.interests);
    lemma_texts_round_trip(config.knowledge_sources.self_learning_urls);
    let character = character_json(config.character);
    assert(character.text_under("name"@) == Some(config.character.name));
    assert(character.text_under("personality"@) == Some(config.character.personality));
    assert(character.text_under("description"@) == Some(config.character.description));
    assert(character.texts_under("traits"@) == Some(config.character.traits));
    assert(character.texts_under("interests"@) == Some(config.character.interests));
    assert(character_of(character) == Some(config.character));
    let sources = sources_json(config.knowledge_sources);
    assert(sources.texts_under("self_learning_urls"@) == Some(
        config.knowledge_sources.self_learning_urls,
    ));
    assert(sources.text_under("additional_context"@) == Some(
        config.knowledge_sources.additional_context,
    ));
    assert(sources_of(sources) == Some(config.knowledge_sources));
    let settings = settings_json(config.conversation_settings);
    assert(settings.count_under("max_history"@) == Some(
        config.conversation_settings.max_history,
    ));
    assert(settings.text_under("learning_frequency"@) == Some(
        config.conversation_settings.learning_frequency,
    ));
    assert(settings_of(settings) == Some(config.conversation_settings));
    let document = config_json(config);
    assert(document.member("character"@) == Some(character));
    assert(document.member("knowledge_sources"@) == Some(sources));
    assert(document.member("conversation_settings"@) == Some(settings));
}

/// The members of an object that is being written.
fn no_members() -> (members: Vec<(String, Json)>)
    ensures
        map_of(member_views(members@)) == Map::<Seq<char>, JsonView>::empty(),
{
    let members: Vec<(String, Json)> = Vec::new();
    proof {
        assert(member_views(members@) =~= Seq::empty());
    }
    members
}

/// The object with the members `members`.
fn object_of(members: Vec<(String, Json)>) -> (out: Json)
    ensures
        out@ == JsonView::Object(map_of(member_views(members@))),
{
    let out = Json::Object(members);
    proof {
        assert(out@ == JsonView::Object(map_of(member_views(members@))));
    }
    out
}

/// A JSON text.
fn text_json(text: &String) -> (out: Json)
    ensures
        out@ == JsonView::Text(text@),
{
    Json::Text(text.clone())
}

impl CharacterConfig {
    fn save(&self) -> (out: Json)
        ensures
            out@ == character_json(self@),
    {
        let mut members = no_members();
        push_member(&mut members, "name", text_json(&self.name));
        push_member(&mut members, "personality", text_json(&self.personality));
        push_member(&mut members, "description", text_json(&self.description));
        push_member(&mut members, "traits", texts_to_json(&self.traits));
        push_member(&mut members, "interests", texts_to_json(&self.interests));
        object_of(members)
    }

    fn restore(json: &Json) -> (out: Option<CharacterConfig>)
        ensures
            match out {
                Some(character) => character_of(json@) == Some(character@),
                None => character_of(json@) is None,
            },
    {
        let name = json.text_under("name");
        let personality = json.text_under("personality");
        let description = json.text_under("description");
        let traits = json.texts_under("traits");
        let interests = json.texts_under("interests");
        match (name, personality, description, traits, interests) {
            (Some(name), Some(personality), Some(description), Some(traits), Some(interests)) => {
                Some(CharacterConfig { name, personality, description, traits, interests })
            },
            _ => None,
        }
    }
}

impl KnowledgeSources {
    fn save(&self) -> (out: Json)
        ensures
            out@ == sources_json(self@),
    {
        let mut members = no_members();
        push_member(&mut members, "self_learning_urls", texts_to_json(&self.self_learning_urls));
        push_member(&mut members, "additional_context", text_json(&self.additional_context));
        object_of(members)
    }

    fn restore(json: &Json) -> (out: Option<KnowledgeSources>)
        ensures
            match out {
                Some(sources) => sources_of(json@) == Some(sources@),
                None => sources_of(json@) is None,
            },
    {
        let self_learning_urls = json.texts_under("self_learning_urls");
        let additional_context = json.text_under("additional_context");
        match (self_learning_urls, additional_context) {
            (Some(self_learning_urls), Some(additional_context)) => Some(
                KnowledgeSources { self_learning_urls, additional_context },
            ),
            _ => None,
        }
    }
}

impl ConversationSettings {
    fn save(&self) -> (out: Json)
        ensures
            out@ == settings_json(self@),
    {
        let mut members = no_members();
        push_member(&mut members, "max_history", Json::Number(self.max_history as u64));
        push_member(&mut members, "learning_frequency", text_json(&self.learning_frequency));
        object_of(members)
    }

    fn restore(json: &Json) -> (out: Option<ConversationSettings>)
        ensures
            match out {
                Some(settings) => settings_of(json@) == Some(settings@),
                None => settings_of(json@) is None,
            },
    {
        let max_history = json.count_under("max_history");
        let learning_frequency = json.text_under("learning_frequency");
        match (max_history, learning_frequency) {
            (Some(max_history), Some(learning_frequency)) => Some(
                ConversationSettings { max_history, learning_frequency },
            ),
            _ => None,
        }
    }
}

impl ChatbotConfig {
    /// The configuration of a chatbot that has not been set up.
    pub fn blank() -> (config: ChatbotConfig)
        ensures
            config@ == ConfigView::blank(),
    {
        let config = ChatbotConfig {
            character: CharacterConfig {
                name: String::new(),
                personality: String::new(),
                description: String::new(),
                traits: Vec::new(),
                interests: Vec::new(),
            },
            knowledge_sources: KnowledgeSources {
                self_learning_urls: Vec::new(),
                additional_context: String::new(),
            },
            conversation_settings: ConversationSettings {
                max_history: DEFAULT_MAX_HISTORY,
                learning_frequency: String::from_str("daily"),
            },
        };
        proof {
            assert(config.character.traits.deep_view() =~= Seq::empty());
            assert(config.character.interests.deep_view() =~= Seq::empty());
            assert(config.knowledge_sources.self_learning_urls.deep_view() =~= Seq::empty());
        }
        config
    }

    /// Whether the persona has a name, and so has been set up.
    pub fn is_set_up(&self) -> (out: bool)
        ensures
            out == self@.is_set_up(),
    {
        !self.character.name.as_str().is_empty()
    }

    /// The document that this configuration is kept as.
    pub fn save(&self) -> (document: Json)
        ensures
            document@ == config_json(self@),
    {
        let mut members = no_members();
        push_member(&mut members, "character", self.character.save());
        push_member(&mut members, "knowledge_sources", self.knowledge_sources.save());
        push_member(&mut members, "conversation_settings", self.conversation_settings.save());
        object_of(members)
    }

    /// The configuration that `document` holds.
    pub fn restore(document: &Json) -> (out: Result<ChatbotConfig, ConfigError>)
        ensures
            match out {
                Ok(config) => config_of(document@) == Some(config@),
                Err(error) => error == ConfigError::Malformed && config_of(document@) is None,
            },
    {
        let character = match document.member("character") {
            Some(part) => CharacterConfig::restore(part),
            None => None,
        };
        let knowledge_sources = match document.member("knowledge_sources") {
            Some(part) => KnowledgeSources::restore(part),
            None => None,
        };
        let conversation_settings = match document.member("conversation_settings") {
            Some(part) => ConversationSettings::restore(part),
            None => None,
        };
        match (character, knowledge_sources, conversation_settings) {
            (Some(character), Some(knowledge_sources), Some(conversation_settings)) => Ok(
                ChatbotConfig { character, knowledge_sources, conversation_settings },
            ),
            _ => Err(ConfigError::Malformed),
        }
    }

    /// Adds `url` to the pages that every learning run visits.
    pub fn add_url(&mut self, url: &str)
        ensures
            final(self)@ == (ConfigView {
                knowledge_sources: SourcesView {
                    self_learning_urls: old(self)@.knowledge_sources.self_learning_urls.push(url@),
                    ..old(self)@.knowledge_sources
                },
                ..old(self)@
            }),
    {
        let ghost before = self.knowledge_sources.self_learning_urls.deep_view();
        self.knowledge_sources.self_learning_urls.push(String::from_str(url));
        proof {
            assert(self.knowledge_sources.self_learning_urls.deep_view() =~= before.push(url@));
        }
    }
}

/// What the providers are reached with.
#[derive(Debug)]
pub struct Credentials {
    /// The key of the text service.
    pub service_key: String,
    /// The key of the search provider.
    pub search_key: String,
    /// The search engine that the search provider is to use.
    pub search_engine: String,
}

impl Credentials {
    /// The credentials, where each of them is there. The program does not
    /// start without one of them.
    pub fn gather(
        service_key: Option<String>,
        search_key: Option<String>,
        search_engine: Option<String>,
    ) -> (out: Result<Credentials, ConfigError>)
        ensures
            match out {
                Ok(credentials) => service_key == Some(credentials.service_key) && search_key
                    == Some(credentials.search_key) && search_engine == Some(
                    credentials.search_engine,
                ),
                Err(error) => error == ConfigError::Missing && (service_key is None
                    || search_key is None || search_engine is None),
            },
    {
        match (service_key, search_key, search_engine) {
            (Some(service_key), Some(search_key), Some(search_engine)) => Ok(
                Credentials { service_key, search_key, search_engine },
            ),
            _ => Err(ConfigError::Missing),
        }
    }
}

} // verus!
