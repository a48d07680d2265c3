//! The persona, the recent conversation and the context that each turn of
//! the conversation is answered from.

use crate::config::ChatbotConfig;
use crate::json::{Json, JsonView};
use crate::knowledge::{Knowledge, KnowledgeView};
use crate::provider::{find_reply_part, reply_part};
use crate::table::Pair;
use crate::text::{join, joined};
use std::collections::VecDeque;
use vstd::prelude::*;
use vstd::string::StringExecFns;

verus! {

/// A persona with its recent conversation and its knowledge.
#[derive(Debug)]
pub struct Chatbot {
    pub config: ChatbotConfig,
    /// The most recent messages, oldest first.
    pub conversation_history: VecDeque<String>,
    pub knowledge: Knowledge,
}

/// The last `count` of `messages`, or all of them where they are fewer.
pub open spec fn latest(messages: Seq<Seq<char>>, count: nat) -> Seq<Seq<char>> {
    if messages.len() <= count {
        messages
    } else {
        messages.subrange(messages.len() - count, messages.len() as int)
    }
}

/// The history after `message` has come in: the latest `max_history` of
/// what it held and the message, oldest first. A history that may keep
/// nothing holds nothing.
pub open spec fn history_after(
    history: Seq<Seq<char>>,
    max_history: nat,
    message: Seq<char>,
) -> Seq<Seq<char>> {
    latest(history.push(message), max_history)
}

/// The history after each of `messages` has come in, the first of them
/// first.
pub open spec fn history_after_all(
    history: Seq<Seq<char>>,
    max_history: nat,
    messages: Seq<Seq<char>>,
) -> Seq<Seq<char>>
    decreases messages.len(),
{
    if messages.len() == 0 {
        history
    } else {
        history_after(
            history_after_all(history, max_history, messages.drop_last()),
            max_history,
            messages.last(),
        )
    }
}

/// A history is never longer than it may be once a message has come in,
/// whatever it held before. Where it may keep anything, the message is
/// its latest; where it was shorter than it may be, nothing has left it.
pub proof fn lemma_history_stays_bounded(
    history: Seq<Seq<char>>,
    max_history: nat,
    message: Seq<char>,
)
    ensures
        history_after(history, max_history, message).len() <= max_history,
        max_history >= 1 ==> history_after(history, max_history, message).last() == message,
        history.len() < max_history ==> history_after(history, max_history, message)
            == history.push(message),
        history.len() == max_history && max_history >= 1 ==> history_after(
            history,
            max_history,
            message,
        ) == history.drop_first().push(message),
{
    if history.len() == max_history && max_history >= 1 {
        assert(history_after(history, max_history, message) =~= history.drop_first().push(
            message,
        ));
    }
}

/// After any run of messages a history holds the latest of what it held
/// before and of them: as many as it may keep, in the order in which they
/// came.
pub proof fn lemma_history_keeps_latest(
    history: Seq<Seq<char>>,
    max_history: nat,
    messages: Seq<Seq<char>>,
)
    requires
        history.len() <= max_history,
    ensures
        history_after_all(history, max_history, messages) == latest(
            history + messages,
            max_history,
        ),
    decreases messages.len(),
{
    if messages.len() > 0 {
        let earlier = messages.drop_last();
        lemma_history_keeps_latest(history, max_history, earlier);
        assert((history + earlier).push(messages.last()) =~= history + messages);
        assert(latest(latest(history + earlier, max_history).push(messages.last()), max_history)
            =~= latest(history + messages, max_history));
    } else {
        assert(history + messages =~= history);
    }
}

/// A history that starts empty, keeps `max_history` messages and has taken
/// in one message more than that is `max_history` long and holds every
/// message but the oldest, in the order in which they came. The oldest is
/// gone from it, unless the same text came in again later.
pub proof fn lemma_history_bounded(max_history: nat, messages: Seq<Seq<char>>)
    requires
        messages.len() == max_history + 1,
    ensures
        history_after_all(Seq::empty(), max_history, messages).len() == max_history,
        history_after_all(Seq::empty(), max_history, messages) == messages.drop_first(),
        !messages.drop_first().contains(messages[0]) ==> !history_after_all(
            Seq::empty(),
            max_history,
            messages,
        ).contains(messages[0]),
{
    lemma_history_keeps_latest(Seq::empty(), max_history, messages);
    assert(Seq::<Seq<char>>::empty() + messages =~= messages);
    assert(latest(messages, max_history) =~= messages.drop_first());
}

/// What the context says of each fact, in the order of `facts`.
pub open spec fn facts_text(facts: Seq<Pair>) -> Seq<char>
    decreases facts.len(),
{
    if facts.len() == 0 {
        Seq::empty()
    } else {
        facts_text(facts.drop_last()) + "\nKnowledge from "@ + facts.last().0 + ":\n"@
            + facts.last().1 + "\n"@
    }
}

/// The messages, each on a line of its own.
pub open spec fn messages_text(messages: Seq<Seq<char>>) -> Seq<char>
    decreases messages.len(),
{
    if messages.len() == 0 {
        Seq::empty()
    } else {
        messages_text(messages.drop_last()) + messages.last() + "\n"@
    }
}

/// What the context says of the recent conversation: nothing where there
/// has been none.
pub open spec fn history_text(messages: Seq<Seq<char>>) -> Seq<char> {
    if messages.len() == 0 {
        Seq::empty()
    } else {
        "\nPrevious conversation context:\n"@ + messages_text(messages)
    }
}

impl ChatbotConfig {
    /// The opening of the context: who the persona is, and the additional
    /// context.
    pub open spec fn introduction(&self) -> Seq<char> {
        "You are a chatbot named "@ + self.character.name@ + ". Your personality: "@
            + self.character.personality@ + ". Description: "@ + self.character.description@
            + ". Traits: "@ + joined(self.character.traits.deep_view(), ", "@) + ". Interests: "@
            + joined(self.character.interests.deep_view(), ", "@) + ".\n"@
            + "Additional context: "@ + self.knowledge_sources.additional_context@ + "\n"@
    }
}

/// The closing of the context: how the persona is to behave.
pub open spec fn guidance() -> Seq<char> {
    "\nRemember to stay in character and respond according to your personality traits. "@
        + "If you're asked about something you don't know, be honest about it. "@
        + "Use your learned knowledge to provide detailed and accurate responses.\n"@
}

/// The context of a turn: the introduction, every fact, the recent
/// conversation, and the guidance.
pub open spec fn context_text(
    config: ChatbotConfig,
    facts: Seq<Pair>,
    history: Seq<Seq<char>>,
) -> Seq<char> {
    config.introduction() + facts_text(facts) + history_text(history) + guidance()
}

/// The line that a message of the user is kept as.
pub open spec fn user_line(input: Seq<char>) -> Seq<char> {
    "User: "@ + input
}

/// The line that an answer of the persona `name` is kept as.
pub open spec fn persona_line(name: Seq<char>, answer: Seq<char>) -> Seq<char> {
    name + ": "@ + answer
}

/// What the text service is asked, so that the persona `name` answers
/// `input` from `context`.
pub open spec fn chat_prompt_text(context: Seq<char>, input: Seq<char>, name: Seq<char>) -> Seq<
    char,
> {
    context + "\n\nUser: "@ + input + "\n"@ + name + ": "@
}

/// The answer that a reply of the text service carries: none where the
/// reply has another shape than an answer's, and a fixed text where
/// something else than text stands in the answer's place.
pub open spec fn answer_of(reply: JsonView) -> Option<Seq<char>> {
    match reply_part(reply) {
        Some(part) => match part.text() {
            Some(text) => Some(text),
            None => Some("No response"@),
        },
        None => None,
    }
}

impl Chatbot {
    /// A chatbot that has said and learned nothing yet.
    pub fn new(config: ChatbotConfig) -> (out: Self)
        ensures
            out.config == config,
            out.conversation_history.deep_view() == Seq::<Seq<char>>::empty(),
            out.knowledge@ == KnowledgeView::empty(),
    {
        let out = Chatbot {
            config,
            conversation_history: VecDeque::new(),
            knowledge: Knowledge::new(),
        };
        proof {
            assert(out.conversation_history.deep_view() =~= Seq::<Seq<char>>::empty());
        }
        out
    }

    /// Takes `message` into the recent conversation, and lets go of the
    /// oldest messages that the history may no longer keep.
    pub fn add_to_history(&mut self, message: &str)
        ensures
            final(self).conversation_history.deep_view() == history_after(
                old(self).conversation_history.deep_view(),
                old(self).config.conversation_settings.max_history as nat,
                message@,
            ),
            final(self).conversation_history.deep_view().len() <= old(
                self,
            ).config.conversation_settings.max_history,
            final(self).config == old(self).config,
            final(self).knowledge == old(self).knowledge,
    {
        broadcast use vstd::std_specs::vecdeque::group_vec_dequeue_axioms;

        let ghost before = self.conversation_history.deep_view();
        let max_history = self.config.conversation_settings.max_history;
        if max_history == 0 {
            self.conversation_history.clear();
            proof {
                assert(self.conversation_history.deep_view() =~= Seq::<Seq<char>>::empty());
                assert(history_after(before, 0, message@) =~= Seq::<Seq<char>>::empty());
            }
            return ;
        }
        while self.conversation_history.len() >= max_history
            invariant
                max_history >= 1,
                self.conversation_history.deep_view().len() <= before.len(),
                self.conversation_history.deep_view().len() == before.len()
                    || self.conversation_history.deep_view().len() >= max_history - 1,
                self.conversation_history.deep_view() == before.skip(
                    before.len() - self.conversation_history.deep_view().len(),
                ),
                self.config == old(self).config,
                self.knowledge == old(self).knowledge,
            decreases self.conversation_history.len(),
        {
            let ghost held = self.conversation_history.deep_view();
            let _ = self.conversation_history.pop_front();
            proof {
                assert(self.conversation_history.deep_view() =~= held.drop_first());
                assert(held.drop_first() =~= before.skip(before.len() - held.len() + 1));
            }
        }
        let ghost kept = self.conversation_history.deep_view();
        self.conversation_history.push_back(String::from_str(message));
        proof {
            assert(self.conversation_history.deep_view() =~= kept.push(message@));
            assert(kept.push(message@) =~= history_after(before, max_history as nat, message@));
        }
    }

    /// The context that the next turn is answered from. The facts stand in
    /// it in the order in which the fact table lists them.
    pub fn get_context(&self) -> (context: String)
        ensures
            context@ == context_text(
                self.config,
                self.knowledge.facts.listing(),
                self.conversation_history.deep_view(),
            ),
    {
        broadcast use vstd::std_specs::vecdeque::group_vec_dequeue_axioms;

        let mut context = String::from_str("You are a chatbot named ");
        context.append(self.config.character.name.as_str());
        context.append(". Your personality: ");
        context.append(self.config.character.personality.as_str());
        context.append(". Description: ");
        context.append(self.config.character.description.as_str());
        context.append(". Traits: ");
        context.append(join(&self.config.character.traits, ", ").as_str());
        context.append(". Interests: ");
        context.append(join(&self.config.character.interests, ", ").as_str());
        context.append(".\n");
        context.append("Additional context: ");
        context.append(self.config.knowledge_sources.additional_context.as_str());
        context.append("\n");
        let ghost introduction = self.config.introduction();
        assert(context@ == introduction);

        let ghost facts = self.knowledge.facts.listing();
        let count = self.knowledge.facts.len();
        let mut at: usize = 0;
        proof {
            assert(facts.take(0) =~= Seq::empty());
            assert(context@ =~= introduction + facts_text(facts.take(0)));
        }
        while at < count
            invariant
                at <= count,
                count == facts.len(),
                facts == self.knowledge.facts.listing(),
                context@ == introduction + facts_text(facts.take(at as int)),
            decreases count - at,
        {
            let ghost before = context@;
            let key = self.knowledge.facts.key_at(at);
            let value = self.knowledge.facts.value_at(at);
            context.append("\nKnowledge from ");
            context.append(key.as_str());
            context.append(":\n");
            context.append(value.as_str());
            context.append("\n");
            proof {
                assert(facts.take(at + 1).drop_last() =~= facts.take(at as int));
                assert(facts.take(at + 1).last() == facts[at as int]);
                assert(context@ =~= introduction + facts_text(facts.take(at + 1)));
            }
            at += 1;
        }
        proof {
            assert(facts.take(at as int) =~= facts);
        }

        let ghost history = self.conversation_history.deep_view();
        let ghost learned = context@;
        let length = self.conversation_history.len();
        if length > 0 {
            context.append("\nPrevious conversation context:\n");
            let ghost opened = context@;
            let mut at: usize = 0;
            proof {
                assert(history.take(0) =~= Seq::empty());
                assert(context@ =~= opened + messages_text(history.take(0)));
            }
            while at < length
                invariant
                    at <= length,
                    length == history.len(),
                    history == self.conversation_history.deep_view(),
                    context@ == opened + messages_text(history.take(at as int)),
                decreases length - at,
            {
                context.append(self.conversation_history[at].as_str());
                context.append("\n");
                proof {
                    assert(history.take(at + 1).drop_last() =~= history.take(at as int));
                    assert(history.take(at + 1).last() == history[at as int]);
                    assert(context@ =~= opened + messages_text(history.take(at + 1)));
                }
                at += 1;
            }
            proof {
                assert(history.take(at as int) =~= history);
                assert(context@ =~= learned + history_text(history));
            }
        } else {
            proof {
                assert(context@ =~= learned + history_text(history));
            }
        }
        let ghost recalled = context@;
        context.append(
            "\nRemember to stay in character and respond according to your personality traits. ",
        );
        context.append("If you're asked about something you don't know, be honest about it. ");
        context.append("Use your learned knowledge to provide detailed and accurate responses.\n");
        proof {
            assert(context@ =~= recalled + guidance());
        }
        context
    }

    /// Takes what the user said into the recent conversation, and gives
    /// what the text service is to be asked for the persona's answer.
    pub fn ask(&mut self, input: &str) -> (prompt: String)
        ensures
            final(self).conversation_history.deep_view() == history_after(
                old(self).conversation_history.deep_view(),
                old(self).config.conversation_settings.max_history as nat,
                user_line(input@),
            ),
            final(self).config == old(self).config,
            final(self).knowledge == old(self).knowledge,
            prompt@ == chat_prompt_text(
                context_text(
                    final(self).config,
                    final(self).knowledge.facts.listing(),
                    final(self).conversation_history.deep_view(),
                ),
                input@,
                final(self).config.character.name@,
            ),
    {
        let mut line = String::from_str("User: ");
        line.append(input);
        self.add_to_history(line.as_str());
        let mut prompt = self.get_context();
        prompt.append("\n\nUser: ");
        prompt.append(input);
        prompt.append("\n");
        prompt.append(self.config.character.name.as_str());
        prompt.append(": ");
        prompt
    }

    /// Takes the reply of the text service. Where it carries an answer,
    /// the answer comes back, and goes into the recent conversation under
    /// the persona's name; where it carries none, nothing changes.
    pub fn hear(&mut self, reply: &Json) -> (answer: Option<String>)
        ensures
            answer.deep_view() == answer_of(reply@),
            final(self).conversation_history.deep_view() == match answer_of(reply@) {
                Some(text) => history_after(
                    old(self).conversation_history.deep_view(),
                    old(self).config.conversation_settings.max_history as nat,
                    persona_line(old(self).config.character.name@, text),
                ),
                None => old(self).conversation_history.deep_view(),
            },
            final(self).config == old(self).config,
            final(self).knowledge == old(self).knowledge,
    {
        let answer = match find_reply_part(reply) {
            Some(part) => match part.as_text() {
                Some(text) => text.clone(),
                None => String::from_str("No response"),
            },
            None => { return None; },
        };
        let mut line = self.config.character.name.clone();
        line.append(": ");
        line.append(answer.as_str());
        self.add_to_history(line.as_str());
        Some(answer)
    }
}

} // verus!
