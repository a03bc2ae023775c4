//! Message-lifecycle decisions: one incoming message is answered through a
//! single outward status message that moves from acknowledgement through a
//! progress label to a result or a fixed apology. Every decision is a pure
//! step here; the transport performs the sends and edits it is handed, and
//! an edit whose content is already shown is skipped (the idempotence
//! guard). No generator failure escapes these steps: each becomes a fixed,
//! non-technical notice.

use vstd::prelude::*;
use vstd::string::StringExecFns;
use crate::help::{help_primer_spec, help_prompt_spec, HelpGenerator};
use crate::llm::{LlmError, MessageView, MistralModelType, MistralRole, msgs_view};
use crate::markdown::{escape_chars, escape_md, unescape_chars, unescape_md};
use crate::tags::{tags_primer_spec, tags_prompt_spec, TagsGenerator};
use crate::task::{selector_primer_spec, selector_prompt_spec, TaskSelector, TaskType};
use crate::text::str_eq;

verus! {

/// Build the three generators one message-handling context shares: each
/// primed as its constructor says, with the configured temperature (in
/// thousandths) and provider seed applied to all of them.
pub fn build_generators(token: &str, temperature_milli: u32, random_seed: i64) -> (r: (
    TagsGenerator,
    TaskSelector,
    HelpGenerator,
))
    ensures
        r.0.base_client.api_key@ == token@,
        r.0.base_client.temperature_milli == temperature_milli,
        r.0.base_client.random_seed == Some(random_seed),
        r.0.base_client.model == MistralModelType::Tiny,
        r.0.base_client.max_tokens == Some(60usize),
        r.0.max_tags_amount == 6,
        msgs_view(r.0.base_client.history@) == tags_primer_spec().push(
            MessageView { role: MistralRole::System, content: tags_prompt_spec() },
        ),
        r.1.base_client.api_key@ == token@,
        r.1.base_client.temperature_milli == temperature_milli,
        r.1.base_client.random_seed == Some(random_seed),
        r.1.base_client.model == MistralModelType::Tiny,
        r.1.base_client.max_tokens == Some(10usize),
        msgs_view(r.1.base_client.history@) == selector_primer_spec().push(
            MessageView { role: MistralRole::System, content: selector_prompt_spec() },
        ),
        r.2.base_client.api_key@ == token@,
        r.2.base_client.temperature_milli == temperature_milli,
        r.2.base_client.random_seed == Some(random_seed),
        r.2.base_client.model == MistralModelType::Tiny,
        r.2.base_client.max_tokens == Some(1000usize),
        r.2.token@ == token@,
        r.2.easter_egg_chance_permille == 0,
        msgs_view(r.2.base_client.history@) == help_primer_spec().push(
            MessageView {
                role: MistralRole::System,
                content: help_prompt_spec(Seq::<char>::empty()),
            },
        ),
{
    let tags_generator = TagsGenerator::new(token)
        .with_temperature(temperature_milli)
        .with_random_seed(Some(random_seed));
    let task_selector = TaskSelector::new(token)
        .with_temperature(temperature_milli)
        .with_random_seed(Some(random_seed));
    let help_generator = HelpGenerator::new(token)
        .with_temperature(temperature_milli)
        .with_random_seed(Some(random_seed));
    (tags_generator, task_selector, help_generator)
}

/// The notice for a message without processable text.
pub open spec fn text_only_notice_spec() -> Seq<char> {
    "I can only process text messages"@
}

/// The escaped acknowledgement label shown while classification runs.
pub open spec fn processing_label_spec() -> Seq<char> {
    "*Processing message\\.\\.\\.* "@
}

/// The escaped progress label shown while tags are generated.
pub open spec fn generating_tags_label_spec() -> Seq<char> {
    "*Generating tags\\.\\.\\.* "@
}

/// The escaped progress label shown while a help answer is generated.
pub open spec fn generating_help_label_spec() -> Seq<char> {
    "*Generating help message\\.\\.\\.* "@
}

/// The escaped, non-technical apology every caught failure turns into.
pub open spec fn failure_notice_spec() -> Seq<char> {
    "Something went wrong, sorry\\.\\.\\."@
}

/// The fixed default reply for input the system cannot place; sent
/// without consulting the model.
pub open spec fn default_reply_spec() -> Seq<char> {
    "Unexpected input. You can send me a note or ask for help (for example type /help)."@
}

/// The first decision for an incoming message.
pub enum InitialStep {
    /// No processable text: send the fixed notice and stop.
    RejectNonText(String),
    /// Text present: open the status message with the acknowledgement
    /// label, then classify.
    Acknowledge(String),
}

/// The decision after classification.
pub enum RouteStep {
    /// Classification failed: show the apology and stop.
    Fail(String),
    /// A note: show the tags progress label, then run the tag extractor.
    GenerateTags(String),
    /// A help question: show the help progress label, then run the
    /// answerer.
    GenerateHelp(String),
    /// Nothing the system can place: show the escaped default reply and
    /// stop, without any further model call.
    Finish(String),
}

/// Decide how to receive an incoming message: without text the fixed
/// notice ends the exchange before any classification.
pub fn on_message(text: Option<&str>) -> (step: InitialStep)
    ensures
        text is None ==> (step matches InitialStep::RejectNonText(n) && n@
            == text_only_notice_spec()),
        text is Some ==> (step matches InitialStep::Acknowledge(s) && s@
            == processing_label_spec()),
{
    match text {
        None => InitialStep::RejectNonText(String::from_str("I can only process text messages")),
        Some(_) => InitialStep::Acknowledge(
            String::from_str("*Processing message\\.\\.\\.* "),
        ),
    }
}

/// Decide where a classification outcome sends the exchange. A transport
/// or protocol failure becomes the apology; `Unknown` short-circuits to
/// the escaped default reply with no model call.
pub fn route_classification(outcome: &Result<TaskType, LlmError>) -> (step: RouteStep)
    ensures
        outcome is Err ==> (step matches RouteStep::Fail(s) && s@ == failure_notice_spec()),
        outcome == Ok::<TaskType, LlmError>(TaskType::Note) ==> (step
            matches RouteStep::GenerateTags(s) && s@ == generating_tags_label_spec()),
        outcome == Ok::<TaskType, LlmError>(TaskType::Help) ==> (step
            matches RouteStep::GenerateHelp(s) && s@ == generating_help_label_spec()),
        outcome == Ok::<TaskType, LlmError>(TaskType::Unknown) ==> (step
            matches RouteStep::Finish(s) && s@ == escape_chars(default_reply_spec())),
{
    match outcome {
        Err(_) => RouteStep::Fail(String::from_str("Something went wrong, sorry\\.\\.\\.")),
        Ok(TaskType::Note) => RouteStep::GenerateTags(
            String::from_str("*Generating tags\\.\\.\\.* "),
        ),
        Ok(TaskType::Help) => RouteStep::GenerateHelp(
            String::from_str("*Generating help message\\.\\.\\.* "),
        ),
        Ok(TaskType::Unknown) => RouteStep::Finish(
            escape_md(
                "Unexpected input. You can send me a note or ask for help (for example type /help).",
            ),
        ),
    }
}

/// The final status after tag extraction: the rendered tag line (or the
/// escaped fallback text), or the apology when the call failed.
pub fn conclude_tags(outcome: &Result<String, LlmError>) -> (status: String)
    ensures
        outcome matches Ok(md) ==> status@ == md@,
        outcome is Err ==> status@ == failure_notice_spec(),
{
    match outcome {
        Ok(md) => md.clone(),
        Err(_) => String::from_str("Something went wrong, sorry\\.\\.\\."),
    }
}

/// The final status after help answering: the escaped answer, or the
/// apology when the call failed.
pub fn conclude_help(outcome: &Result<String, LlmError>) -> (status: String)
    ensures
        outcome matches Ok(text) ==> status@ == escape_chars(text@),
        outcome is Err ==> status@ == failure_notice_spec(),
{
    match outcome {
        Ok(text) => escape_md(text.as_str()),
        Err(_) => String::from_str("Something went wrong, sorry\\.\\.\\."),
    }
}

/// What the transport is asked to do for one status update.
pub enum StatusOp {
    /// No status message yet: create one with this escaped content.
    Send(String),
    /// The shown content differs: edit to this escaped content.
    Edit(String),
    /// The shown content is already this content: no transport call.
    Skip,
}

/// Whether updating to escaped `text` needs a transport call at all.
pub open spec fn edit_needed(current: Option<Seq<char>>, text: Seq<char>) -> bool {
    match current {
        None => true,
        Some(shown) => shown != unescape_chars(text),
    }
}

/// Updating to content whose unescaped form is exactly what the message
/// already shows needs no transport call: the edit is idempotent.
pub proof fn lemma_idempotent_edit(current: Option<Seq<char>>, text: Seq<char>)
    requires
        current == Some(unescape_chars(text)),
    ensures
        !edit_needed(current, text),
{
}

/// The one outward status message of an exchange, tracked by what the
/// transport currently shows. Escaped markdown is handed to the
/// transport, which renders it unescaped; the tracker mirrors that
/// rendered text to keep edits idempotent.
pub struct StatusTracker {
    rendered: Option<String>,
}

impl StatusTracker {
    /// What the transport currently shows, if the status message exists.
    pub closed spec fn rendered_view(&self) -> Option<Seq<char>> {
        match self.rendered {
            None => None,
            Some(s) => Some(s@),
        }
    }

    /// Before any status message exists.
    pub fn new() -> (s: Self)
        ensures
            s.rendered_view() is None,
    {
        StatusTracker { rendered: None }
    }

    /// A tracker for a status message already showing `shown`.
    pub fn showing(shown: &str) -> (s: Self)
        ensures
            s.rendered_view() == Some(shown@),
    {
        StatusTracker { rendered: Some(String::from_str(shown)) }
    }

    /// Plan the transport work for updating the status to the escaped
    /// content `text`: create it when absent, edit it when it shows
    /// something else, and skip the call when it already shows exactly
    /// this content.
    pub fn plan(&mut self, text: &str) -> (op: StatusOp)
        ensures
            final(self).rendered_view() == Some(unescape_chars(text@)),
            (op is Skip) == !edit_needed(old(self).rendered_view(), text@),
            old(self).rendered_view() is None ==> (op matches StatusOp::Send(t) && t@ == text@),
            (old(self).rendered_view() matches Some(shown) && shown != unescape_chars(text@))
                ==> (op matches StatusOp::Edit(t) && t@ == text@),
    {
        let unescaped = unescape_md(text);
        let op = match &self.rendered {
            None => StatusOp::Send(String::from_str(text)),
            Some(shown) => {
                if str_eq(shown.as_str(), unescaped.as_str()) {
                    StatusOp::Skip
                } else {
                    StatusOp::Edit(String::from_str(text))
                }
            },
        };
        self.rendered = Some(unescaped);
        op
    }
}

} // verus!
