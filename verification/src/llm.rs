//! The model-client abstraction: conversation turns, per-call configuration,
//! the request value handed to the HTTP collaborator, and validation of what
//! comes back. The network call itself lives outside this crate; it receives
//! a `ModelRequest` and returns a `ModelResponse` built from plain values.

use vstd::prelude::*;
use vstd::string::StringExecFns;
use crate::text::str_eq;

verus! {

/// Who speaks in a conversation turn.
#[derive(Clone, Copy, PartialEq, Eq, Debug, Structural)]
pub enum MistralRole {
    User,
    Assistant,
    System,
}

/// The selectable model family.
#[derive(Clone, Copy, PartialEq, Eq, Debug, Structural)]
pub enum MistralModelType {
    Tiny,
    Small,
    Medium,
}

impl Default for MistralModelType {
    fn default() -> (r: Self)
        ensures
            r == MistralModelType::Tiny,
    {
        MistralModelType::Tiny
    }
}

/// One conversation turn: a role and its text.
#[derive(Debug)]
pub struct MistralMessage {
    pub role: MistralRole,
    pub content: String,
}

/// The mathematical value of a conversation turn.
pub struct MessageView {
    pub role: MistralRole,
    pub content: Seq<char>,
}

impl View for MistralMessage {
    type V = MessageView;

    open spec fn view(&self) -> MessageView {
        MessageView { role: self.role, content: self.content@ }
    }
}

/// A history of turns, seen as a sequence of turn values.
pub open spec fn msgs_view(h: Seq<MistralMessage>) -> Seq<MessageView> {
    h.map_values(|m: MistralMessage| m@)
}

impl MistralMessage {
    /// A turn spoken by the user.
    pub fn user(content: &str) -> (r: Self)
        ensures
            r.role == MistralRole::User,
            r.content@ == content@,
    {
        MistralMessage { role: MistralRole::User, content: String::from_str(content) }
    }

    /// A turn spoken by the model.
    pub fn assistant(content: &str) -> (r: Self)
        ensures
            r.role == MistralRole::Assistant,
            r.content@ == content@,
    {
        MistralMessage { role: MistralRole::Assistant, content: String::from_str(content) }
    }

    /// A turn that instructs the model.
    pub fn system(content: &str) -> (r: Self)
        ensures
            r.role == MistralRole::System,
            r.content@ == content@,
    {
        MistralMessage { role: MistralRole::System, content: String::from_str(content) }
    }

    /// An equal turn (the turn owns a `String`, so it is not `Copy`).
    pub fn duplicate(&self) -> (r: Self)
        ensures
            r == *self,
    {
        MistralMessage { role: self.role, content: self.content.clone() }
    }
}

impl MistralRole {
    /// The role name the provider's wire format uses.
    pub fn api_name(self) -> (r: String)
        ensures
            self == MistralRole::User ==> r@ == "user"@,
            self == MistralRole::Assistant ==> r@ == "assistant"@,
            self == MistralRole::System ==> r@ == "system"@,
    {
        match self {
            MistralRole::User => String::from_str("user"),
            MistralRole::Assistant => String::from_str("assistant"),
            MistralRole::System => String::from_str("system"),
        }
    }
}

impl MistralModelType {
    /// The model identifier the provider's wire format uses.
    pub fn api_name(self) -> (r: String)
        ensures
            self == MistralModelType::Tiny ==> r@ == "mistral-tiny"@,
            self == MistralModelType::Small ==> r@ == "mistral-small"@,
            self == MistralModelType::Medium ==> r@ == "mistral-medium"@,
    {
        match self {
            MistralModelType::Tiny => String::from_str("mistral-tiny"),
            MistralModelType::Small => String::from_str("mistral-small"),
            MistralModelType::Medium => String::from_str("mistral-medium"),
        }
    }
}

/// Why the model stopped generating. Any other value on the wire is a
/// decode failure of the response, not a variant here.
#[derive(Clone, Copy, PartialEq, Eq, Debug, Structural)]
pub enum FinishReason {
    Stop,
    Length,
    ModelLength,
}

/// The finish reason a wire string denotes, if any.
pub open spec fn finish_reason_spec(s: Seq<char>) -> Option<FinishReason> {
    if s == "stop"@ {
        Some(FinishReason::Stop)
    } else if s == "length"@ {
        Some(FinishReason::Length)
    } else if s == "model_length"@ {
        Some(FinishReason::ModelLength)
    } else {
        None
    }
}

/// Decode a wire finish reason; `None` is a protocol-shape failure.
pub fn parse_finish_reason(s: &str) -> (r: Option<FinishReason>)
    ensures
        r == finish_reason_spec(s@),
{
    if str_eq(s, "stop") {
        Some(FinishReason::Stop)
    } else if str_eq(s, "length") {
        Some(FinishReason::Length)
    } else if str_eq(s, "model_length") {
        Some(FinishReason::ModelLength)
    } else {
        None
    }
}

/// The failures a model call can surface: the network or HTTP layer failed,
/// or the provider answered with an unexpected shape. Malformed model *text*
/// is never an error here; the parsers turn it into fallbacks.
#[derive(Clone, Copy, PartialEq, Eq, Debug, Structural)]
pub enum LlmError {
    Transport,
    Protocol,
}

/// One completion choice of a response.
#[derive(Debug)]
pub struct ModelChoice {
    pub index: i64,
    pub message: MistralMessage,
    pub finish_reason: FinishReason,
}

/// Token accounting reported by the provider.
#[derive(Clone, Copy, PartialEq, Eq, Debug, Structural)]
pub struct ModelUsage {
    pub prompt_tokens: i64,
    pub completion_tokens: i64,
    pub total_tokens: i64,
}

/// A decoded provider response.
#[derive(Debug)]
pub struct ModelResponse {
    pub id: String,
    pub object: String,
    pub created: i64,
    pub model: String,
    pub choices: Vec<ModelChoice>,
    pub usage: ModelUsage,
}

/// The text of the first completion choice; a response without any choice
/// is a protocol failure.
pub fn first_choice_content(resp: &ModelResponse) -> (r: Result<String, LlmError>)
    ensures
        resp.choices@.len() == 0 ==> r == Err::<String, LlmError>(LlmError::Protocol),
        resp.choices@.len() > 0 ==> (r matches Ok(s) && s@ == resp.choices@[0].message.content@),
{
    if resp.choices.len() == 0 {
        Err(LlmError::Protocol)
    } else {
        Ok(resp.choices[0].message.content.clone())
    }
}

/// Everything the HTTP collaborator needs to perform one completion call:
/// the endpoint, the credential, and the JSON body's fields. The message
/// list already includes the new turn. `temperature_milli` carries the
/// sampling temperature in thousandths, so `700` stands for `0.7`.
#[derive(Debug)]
pub struct ModelRequest {
    pub api_url: String,
    pub api_key: String,
    pub model: MistralModelType,
    pub messages: Vec<MistralMessage>,
    pub temperature_milli: u32,
    pub max_tokens: Option<usize>,
    pub random_seed: Option<i64>,
}

/// Configuration and (for the stateful mode) accumulated history of one
/// model endpoint. Building a request never mutates the client; recording
/// an exchange is the single, explicit mutation.
#[derive(Debug)]
pub struct MistralClient {
    pub api_key: String,
    pub history: Vec<MistralMessage>,
    pub api_url: String,
    pub model: MistralModelType,
    pub temperature_milli: u32,
    pub max_tokens: Option<usize>,
    pub random_seed: Option<i64>,
}

/// The two clients agree on everything but their histories.
pub open spec fn same_config(a: MistralClient, b: MistralClient) -> bool {
    a.api_key == b.api_key && a.api_url == b.api_url && a.model == b.model
        && a.temperature_milli == b.temperature_milli && a.max_tokens == b.max_tokens
        && a.random_seed == b.random_seed
}

impl MistralClient {
    /// A client for the default endpoint: empty history, tiny model,
    /// temperature 0.7, no token cap, no seed.
    pub fn new(api_key: &str) -> (r: Self)
        ensures
            r.api_key@ == api_key@,
            r.history@ == Seq::<MistralMessage>::empty(),
            r.api_url@ == "https://api.mistral.ai/v1/chat/completions"@,
            r.model == MistralModelType::Tiny,
            r.temperature_milli == 700,
            r.max_tokens is None,
            r.random_seed is None,
    {
        MistralClient {
            api_key: String::from_str(api_key),
            history: Vec::new(),
            api_url: String::from_str("https://api.mistral.ai/v1/chat/completions"),
            model: MistralModelType::Tiny,
            temperature_milli: 700,
            max_tokens: None,
            random_seed: None,
        }
    }

    /// Set the sampling temperature, in thousandths.
    pub fn with_temperature(self, temperature_milli: u32) -> (r: Self)
        ensures
            r == (MistralClient { temperature_milli, ..self }),
    {
        MistralClient { temperature_milli, ..self }
    }

    /// Cap the number of generated tokens; `None` means unlimited.
    pub fn with_max_tokens(self, max_tokens: Option<usize>) -> (r: Self)
        ensures
            r == (MistralClient { max_tokens, ..self }),
    {
        MistralClient { max_tokens, ..self }
    }

    /// Fix the provider-side random seed; `None` leaves it free.
    pub fn with_random_seed(self, random_seed: Option<i64>) -> (r: Self)
        ensures
            r == (MistralClient { random_seed, ..self }),
    {
        MistralClient { random_seed, ..self }
    }

    /// Append one turn to the history.
    pub fn with_message(self, message: MistralMessage) -> (r: Self)
        ensures
            r.history@ == self.history@.push(message),
            same_config(r, self),
    {
        let mut c = self;
        c.history.push(message);
        c
    }

    /// Append a system turn to the history.
    pub fn with_system_message(self, message: &str) -> (r: Self)
        ensures
            msgs_view(r.history@) == msgs_view(self.history@).push(
                MessageView { role: MistralRole::System, content: message@ },
            ),
            same_config(r, self),
    {
        let m = MistralMessage::system(message);
        proof {
            assert(msgs_view(self.history@.push(m)) =~= msgs_view(self.history@).push(m@));
        }
        self.with_message(m)
    }

    /// Append a user turn to the history.
    pub fn with_user_message(self, message: &str) -> (r: Self)
        ensures
            msgs_view(r.history@) == msgs_view(self.history@).push(
                MessageView { role: MistralRole::User, content: message@ },
            ),
            same_config(r, self),
    {
        let m = MistralMessage::user(message);
        proof {
            assert(msgs_view(self.history@.push(m)) =~= msgs_view(self.history@).push(m@));
        }
        self.with_message(m)
    }

    /// Append an assistant turn to the history.
    pub fn with_assistant_message(self, message: &str) -> (r: Self)
        ensures
            msgs_view(r.history@) == msgs_view(self.history@).push(
                MessageView { role: MistralRole::Assistant, content: message@ },
            ),
            same_config(r, self),
    {
        let m = MistralMessage::assistant(message);
        proof {
            assert(msgs_view(self.history@.push(m)) =~= msgs_view(self.history@).push(m@));
        }
        self.with_message(m)
    }

    /// Replace the whole history.
    pub fn with_history(self, history: Vec<MistralMessage>) -> (r: Self)
        ensures
            r.history@ == history@,
            same_config(r, self),
    {
        let mut c = self;
        c.history = history;
        c
    }

    /// Point the client at another endpoint.
    pub fn with_api_url(self, api_url: &str) -> (r: Self)
        ensures
            r.api_url@ == api_url@,
            r.history == self.history,
            r.api_key == self.api_key,
            r.model == self.model,
            r.temperature_milli == self.temperature_milli,
            r.max_tokens == self.max_tokens,
            r.random_seed == self.random_seed,
    {
        let mut c = self;
        c.api_url = String::from_str(api_url);
        c
    }

    /// Select the model family.
    pub fn with_model(self, model: MistralModelType) -> (r: Self)
        ensures
            r == (MistralClient { model, ..self }),
    {
        MistralClient { model, ..self }
    }

    /// An equal history (turns own `String`s, so the vector is rebuilt).
    fn history_copy(&self) -> (r: Vec<MistralMessage>)
        ensures
            r@ == self.history@,
    {
        let n = self.history.len();
        let mut out: Vec<MistralMessage> = Vec::new();
        let mut i: usize = 0;
        while i < n
            invariant
                n == self.history@.len(),
                i <= n,
                out@ == self.history@.take(i as int),
            decreases n - i,
        {
            out.push(self.history[i].duplicate());
            proof {
                assert(self.history@.take(i + 1) =~= self.history@.take(i as int).push(
                    self.history@[i as int],
                ));
            }
            i = i + 1;
        }
        proof {
            assert(self.history@.take(n as int) =~= self.history@);
        }
        out
    }

    /// The request for one completion call: the configured conversation
    /// plus the new turn, under this client's configuration.
    pub fn build_request(&self, new_message: MistralMessage) -> (r: ModelRequest)
        ensures
            r.messages@ == self.history@.push(new_message),
            r.api_url == self.api_url,
            r.api_key == self.api_key,
            r.model == self.model,
            r.temperature_milli == self.temperature_milli,
            r.max_tokens == self.max_tokens,
            r.random_seed == self.random_seed,
    {
        let mut messages = self.history_copy();
        messages.push(new_message);
        ModelRequest {
            api_url: self.api_url.clone(),
            api_key: self.api_key.clone(),
            model: self.model,
            messages,
            temperature_milli: self.temperature_milli,
            max_tokens: self.max_tokens,
            random_seed: self.random_seed,
        }
    }

    /// Record a completed stateful exchange: the user turn and the model's
    /// reply join the history, in that order.
    pub fn record_exchange(&mut self, user_message: MistralMessage, reply: MistralMessage)
        ensures
            final(self).history@ == old(self).history@.push(user_message).push(reply),
            same_config(*final(self), *old(self)),
    {
        self.history.push(user_message);
        self.history.push(reply);
    }

    /// Forget the accumulated history.
    pub fn reset_chat(&mut self)
        ensures
            final(self).history@ == Seq::<MistralMessage>::empty(),
            same_config(*final(self), *old(self)),
    {
        self.history = Vec::new();
    }

    /// The text of the most recent turn, if any.
    pub fn last_response(&self) -> (r: Option<String>)
        ensures
            match r {
                None => self.history@.len() == 0,
                Some(s) => self.history@.len() > 0 && s@ == self.history@.last().content@,
            },
    {
        let n = self.history.len();
        if n == 0 {
            None
        } else {
            Some(self.history[n - 1].content.clone())
        }
    }
}

} // verus!
