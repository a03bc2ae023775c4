//! Intent classification: the closed set of tasks, the canonical marker and
//! prompt description of each, the decision rule over a model reply, and the
//! selector's fixed configuration. Classification never fails: a reply that
//! names no marker falls back to `Unknown`.

use vstd::prelude::*;
use vstd::string::StringExecFns;
use crate::llm::{MessageView, MistralClient, MistralMessage, MistralRole, MistralModelType, ModelRequest, msgs_view};
use crate::template::{_parse_prompt, placeholder_spec, render_spec, replace_spec};
use crate::text::{chars_to_string, contains_seq, contains_sub, str_chars, trim_chars, trim_spec};

verus! {

/// What an incoming message asks the system to do.
#[derive(Clone, Copy, PartialEq, Eq, Debug, Structural)]
pub enum TaskType {
    Note,
    Help,
    Unknown,
}

/// The canonical marker the model answers with for a task.
pub open spec fn marker_spec(t: TaskType) -> Seq<char> {
    match t {
        TaskType::Note => seq!['[', 'n', 'o', 't', 'e', ']'],
        TaskType::Help => seq!['[', 'h', 'e', 'l', 'p', ']'],
        TaskType::Unknown => seq!['[', 'u', 'n', 'k', 'n', 'o', 'w', 'n', ']'],
    }
}

/// The free text describing a task in the selector's system prompt.
pub open spec fn description_body_spec(t: TaskType) -> Seq<char> {
    match t {
        TaskType::Note => "User typed anything that look like a note: shopping list, idea, some movie to watch etc. Probably any sentence that doesn't fit other categories and make at least remote sense."@,
        TaskType::Help => "User directly asked how to use bot, any specific or general question about available commands, bot's features etc."@,
        TaskType::Unknown => "User typed something that bot can't understand: gibberish, random letters, etc."@,
    }
}

/// The full description line: the marker in backticks, then the free text.
pub open spec fn description_spec(t: TaskType) -> Seq<char> {
    "`"@ + marker_spec(t) + "`: "@ + description_body_spec(t)
}

/// The decision rule over a model reply: the first task in declaration
/// order whose marker occurs in the reply; `Unknown` when none does.
pub open spec fn select_spec(reply: Seq<char>) -> TaskType {
    if contains_seq(reply, marker_spec(TaskType::Note)) {
        TaskType::Note
    } else if contains_seq(reply, marker_spec(TaskType::Help)) {
        TaskType::Help
    } else {
        TaskType::Unknown
    }
}

/// A reply that carries none of the canonical markers classifies as
/// `Unknown`: classification cannot fail, it can only fall back.
pub proof fn lemma_select_unmarked_is_unknown(reply: Seq<char>)
    requires
        !contains_seq(reply, marker_spec(TaskType::Note)),
        !contains_seq(reply, marker_spec(TaskType::Help)),
        !contains_seq(reply, marker_spec(TaskType::Unknown)),
    ensures
        select_spec(reply) == TaskType::Unknown,
{
}

/// A reply that carries a marker classifies as the first marked task in
/// declaration order; in particular the note marker wins outright.
pub proof fn lemma_select_marked(reply: Seq<char>)
    ensures
        contains_seq(reply, marker_spec(TaskType::Note)) ==> select_spec(reply)
            == TaskType::Note,
        !contains_seq(reply, marker_spec(TaskType::Note)) && contains_seq(
            reply,
            marker_spec(TaskType::Help),
        ) ==> select_spec(reply) == TaskType::Help,
{
}

impl TaskType {
    /// Every task, in declaration order.
    pub fn all() -> (r: Vec<TaskType>)
        ensures
            r@ == seq![TaskType::Note, TaskType::Help, TaskType::Unknown],
    {
        let mut v: Vec<TaskType> = Vec::new();
        v.push(TaskType::Note);
        v.push(TaskType::Help);
        v.push(TaskType::Unknown);
        proof {
            assert(v@ =~= seq![TaskType::Note, TaskType::Help, TaskType::Unknown]);
        }
        v
    }

    /// The canonical marker, as characters.
    pub fn marker_chars(self) -> (r: Vec<char>)
        ensures
            r@ == marker_spec(self),
    {
        let mut v: Vec<char> = Vec::new();
        v.push('[');
        match self {
            TaskType::Note => {
                v.push('n');
                v.push('o');
                v.push('t');
                v.push('e');
            },
            TaskType::Help => {
                v.push('h');
                v.push('e');
                v.push('l');
                v.push('p');
            },
            TaskType::Unknown => {
                v.push('u');
                v.push('n');
                v.push('k');
                v.push('n');
                v.push('o');
                v.push('w');
                v.push('n');
            },
        }
        v.push(']');
        proof {
            assert(v@ =~= marker_spec(self));
        }
        v
    }

    /// The canonical marker the model is asked to answer with.
    pub fn marker(self) -> (r: String)
        ensures
            r@ == marker_spec(self),
    {
        let v = self.marker_chars();
        chars_to_string(&v)
    }

    /// The description line used to build the selector's system prompt.
    pub fn description(self) -> (r: String)
        ensures
            r@ == description_spec(self),
    {
        let mut s = String::from_str("`");
        let marker = self.marker();
        s.append(marker.as_str());
        s.append("`: ");
        match self {
            TaskType::Note => {
                s.append(
                    "User typed anything that look like a note: shopping list, idea, some movie to watch etc. Probably any sentence that doesn't fit other categories and make at least remote sense.",
                );
            },
            TaskType::Help => {
                s.append(
                    "User directly asked how to use bot, any specific or general question about available commands, bot's features etc.",
                );
            },
            TaskType::Unknown => {
                s.append(
                    "User typed something that bot can't understand: gibberish, random letters, etc.",
                );
            },
        }
        proof {
            assert(s@ =~= description_spec(self));
        }
        s
    }
}

/// Apply the decision rule to a model reply.
pub fn select_from_reply(reply: &str) -> (t: TaskType)
    ensures
        t == select_spec(reply@),
{
    let hay = str_chars(reply);
    let note_marker = TaskType::Note.marker_chars();
    if contains_sub(&hay, &note_marker) {
        return TaskType::Note;
    }
    let help_marker = TaskType::Help.marker_chars();
    if contains_sub(&hay, &help_marker) {
        return TaskType::Help;
    }
    TaskType::Unknown
}

/// The selector's fixed few-shot priming: pairs of an input and the marker
/// the model is expected to answer with.
pub open spec fn selector_primer_spec() -> Seq<MessageView> {
    seq![
        MessageView { role: MistralRole::User, content: "Watch titanic"@ },
        MessageView { role: MistralRole::Assistant, content: "[note]"@ },
        MessageView { role: MistralRole::User, content: "start"@ },
        MessageView { role: MistralRole::Assistant, content: "[help]"@ },
        MessageView { role: MistralRole::User, content: "Platformer game about a cat"@ },
        MessageView { role: MistralRole::Assistant, content: "[note]"@ },
        MessageView { role: MistralRole::User, content: "zerxtcvbhjkm"@ },
        MessageView { role: MistralRole::Assistant, content: "[unknown]"@ },
        MessageView { role: MistralRole::User, content: "How to use this bot?"@ },
        MessageView { role: MistralRole::Assistant, content: "[help]"@ },
    ]
}

/// The selector's system-prompt template; `{{tags}}` receives the
/// description of every task.
pub open spec fn selector_template_spec() -> Seq<char> {
    "\nYou are the task selector manager bot. Your goal to select exact task that user want to do.\n\n# Tags\n{{tags}}\n"@
}

/// The rendered block describing every task, one dashed line each.
pub open spec fn intent_block_spec() -> Seq<char> {
    "- "@ + description_spec(TaskType::Note) + "\n- "@ + description_spec(TaskType::Help)
        + "\n- "@ + description_spec(TaskType::Unknown)
}

/// The selector's rendered system prompt.
pub open spec fn selector_prompt_spec() -> Seq<char> {
    replace_spec(selector_template_spec(), placeholder_spec("tags"@), intent_block_spec())
}

/// Classifies an incoming message into a task by asking the model for a
/// marker. Holds only immutable configuration; concurrent calls share it.
#[derive(Debug)]
pub struct TaskSelector {
    pub base_client: MistralClient,
}

impl TaskSelector {
    /// A selector priming the tiny model with the marker examples and the
    /// rendered task descriptions, capped at a ten-token answer.
    pub fn new(token: &str) -> (r: Self)
        ensures
            r.base_client.api_key@ == token@,
            r.base_client.model == MistralModelType::Tiny,
            r.base_client.max_tokens == Some(10usize),
            r.base_client.temperature_milli == 700,
            r.base_client.random_seed is None,
            r.base_client.api_url@ == "https://api.mistral.ai/v1/chat/completions"@,
            msgs_view(r.base_client.history@) == selector_primer_spec().push(
                MessageView { role: MistralRole::System, content: selector_prompt_spec() },
            ),
    {
        let mut block = String::from_str("- ");
        let d_note = TaskType::Note.description();
        block.append(d_note.as_str());
        block.append("\n- ");
        let d_help = TaskType::Help.description();
        block.append(d_help.as_str());
        block.append("\n- ");
        let d_unknown = TaskType::Unknown.description();
        block.append(d_unknown.as_str());
        proof {
            assert(block@ =~= intent_block_spec());
        }

        let mut bindings: Vec<(String, String)> = Vec::new();
        bindings.push((String::from_str("tags"), block));
        let prompt = _parse_prompt(
            "\nYou are the task selector manager bot. Your goal to select exact task that user want to do.\n\n# Tags\n{{tags}}\n",
            bindings.as_slice(),
        );
        proof {
            let bv = crate::template::bindings_view(bindings@);
            assert(bv.len() == 1);
            assert(bv[0].0 == "tags"@);
            assert(bv[0].1 == intent_block_spec());
            let inner = replace_spec(selector_template_spec(), placeholder_spec(bv[0].0), bv[0].1);
            assert(render_spec(selector_template_spec(), bv) == render_spec(inner, bv.skip(1)));
            assert(bv.skip(1).len() == 0);
            assert(render_spec(inner, bv.skip(1)) == inner);
            assert(prompt@ == selector_prompt_spec());
        }

        let mut history: Vec<MistralMessage> = Vec::new();
        history.push(MistralMessage::user("Watch titanic"));
        history.push(MistralMessage::assistant("[note]"));
        history.push(MistralMessage::user("start"));
        history.push(MistralMessage::assistant("[help]"));
        history.push(MistralMessage::user("Platformer game about a cat"));
        history.push(MistralMessage::assistant("[note]"));
        history.push(MistralMessage::user("zerxtcvbhjkm"));
        history.push(MistralMessage::assistant("[unknown]"));
        history.push(MistralMessage::user("How to use this bot?"));
        history.push(MistralMessage::assistant("[help]"));
        proof {
            assert(msgs_view(history@) =~= selector_primer_spec());
        }

        let base_client = MistralClient::new(token)
            .with_model(MistralModelType::Tiny)
            .with_max_tokens(Some(10))
            .with_history(history)
            .with_system_message(prompt.as_str());
        TaskSelector { base_client }
    }

    /// Set the sampling temperature, in thousandths.
    pub fn with_temperature(self, temperature_milli: u32) -> (r: Self)
        ensures
            r.base_client == (MistralClient { temperature_milli, ..self.base_client }),
    {
        TaskSelector { base_client: self.base_client.with_temperature(temperature_milli) }
    }

    /// Fix the provider-side random seed; `None` leaves it free.
    pub fn with_random_seed(self, random_seed: Option<i64>) -> (r: Self)
        ensures
            r.base_client == (MistralClient { random_seed, ..self.base_client }),
    {
        TaskSelector { base_client: self.base_client.with_random_seed(random_seed) }
    }

    /// Select the model family.
    pub fn with_model(self, model: MistralModelType) -> (r: Self)
        ensures
            r.base_client == (MistralClient { model, ..self.base_client }),
    {
        TaskSelector { base_client: self.base_client.with_model(model) }
    }

    /// The completion request classifying `text`: the primed conversation
    /// plus the trimmed text as the new user turn.
    pub fn request_for(&self, text: &str) -> (r: ModelRequest)
        ensures
            msgs_view(r.messages@) == msgs_view(self.base_client.history@).push(
                MessageView { role: MistralRole::User, content: trim_spec(text@) },
            ),
            r.api_url == self.base_client.api_url,
            r.api_key == self.base_client.api_key,
            r.model == self.base_client.model,
            r.temperature_milli == self.base_client.temperature_milli,
            r.max_tokens == self.base_client.max_tokens,
            r.random_seed == self.base_client.random_seed,
    {
        let chars = str_chars(text);
        let trimmed_chars = trim_chars(&chars);
        let trimmed = chars_to_string(&trimmed_chars);
        let m = MistralMessage::user(trimmed.as_str());
        let r = self.base_client.build_request(m);
        proof {
            assert(msgs_view(r.messages@) =~= msgs_view(self.base_client.history@).push(
                MessageView { role: MistralRole::User, content: trim_spec(text@) },
            ));
        }
        r
    }
}

} // verus!
