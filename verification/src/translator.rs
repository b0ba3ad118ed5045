//! The translation client, without its transport.
//!
//! A translation is a short exchange between the client and whoever sends
//! its requests. The client says what to do next as a [`Step`]: post a
//! request, hand a result to the user, or give up. After a post the sender
//! reports what came back as a [`Reply`], and [`Translator::resume`] decides
//! how to go on: a reply that holds a translation ends the exchange, any
//! other one is tried again after a pause, up to [`MAX_ATTEMPTS`] attempts.

use crate::chat::{
    ChatMessage, ChatRequest, ChatRequestView, ChatMessageView, ChatResponse, ChatResponseView,
    HttpRequest, HttpRequestView, BEARER_PREFIX, COMPLETIONS_PATH, ROLE_SYSTEM, ROLE_USER,
};
use crate::config::{has_key, Config, ConfigView};
use crate::prompt::{
    build_line_translation_prompt, build_word_translation_prompt, line_prompt, word_prompt,
    LINE_SYSTEM_PROMPT, WORD_SYSTEM_PROMPT,
};
use crate::status::{is_success_code, status_display, HttpStatus};
use crate::text::{clean, cleaned, opt_str, opt_string};
use vstd::prelude::*;

verus! {

/// The number of attempts that one translation is given.
pub const MAX_ATTEMPTS: u32 = 3;

/// The pause after the first failed attempt, in milliseconds. The pause after
/// the n-th failed attempt is n times as long.
pub const BACKOFF_STEP_MS: u64 = 1000;

/// How the text is put to the service.
#[derive(Clone, Copy, Debug, PartialEq, Eq, Structural)]
pub enum Mode {
    /// A single lexical item, answered as a dictionary would.
    Word,
    /// Free-form text.
    Line,
}

/// One text to translate.
#[derive(Debug, PartialEq, Eq)]
pub struct Job {
    pub mode: Mode,
    pub text: String,
    /// Code of the language to translate into.
    pub target: String,
    /// Code of the language of the text; `None` leaves it to be detected.
    pub source: Option<String>,
}

/// A job with an attempt under way.
#[derive(Debug, PartialEq, Eq)]
pub struct Pending {
    pub job: Job,
    /// The number of the attempt, counted from 1.
    pub attempt: u32,
}

/// What came back from one post.
#[derive(Debug, PartialEq, Eq)]
pub enum Reply {
    /// No response arrived: the request could not be sent, the connection
    /// failed, or the timeout passed.
    Unreachable { detail: String },
    /// A response arrived.
    Arrived {
        status: HttpStatus,
        /// The body as text, empty where it could not be read. It is looked
        /// at where the status reports a failure.
        body: String,
        /// The body as a chat response, or why it is none. It is looked at
        /// where the status reports success.
        parsed: Result<ChatResponse, String>,
    },
}

/// Why an attempt gave no translation.
#[derive(Debug, PartialEq, Eq)]
pub enum TranslateError {
    /// No response arrived.
    Network { mode: Mode, detail: String },
    /// The service answered with a status outside 200 to 299.
    Status { status: HttpStatus, body: String },
    /// The body of a successful response was no chat response.
    Parse { detail: String },
    /// The response offered no choice.
    NoChoices,
}

/// What to do next for a translation.
#[derive(Debug, PartialEq, Eq)]
pub enum Step {
    /// Wait for `delay_ms` milliseconds, post `request`, and report the reply
    /// together with `pending`.
    Post { pending: Pending, delay_ms: u64, request: HttpRequest },
    /// Hand the translation to the user; the translation has succeeded.
    Deliver { original: String, translation: String },
    /// Give up; the translation has failed with `error`.
    Fail { error: TranslateError },
}

/// The client: a snapshot of the configuration that it was made with.
#[derive(Debug)]
pub struct Translator {
    config: Config,
}

/// The mathematical model of a [`Job`].
pub struct JobView {
    pub mode: Mode,
    pub text: Seq<char>,
    pub target: Seq<char>,
    pub source: Option<Seq<char>>,
}

/// The mathematical model of a [`Pending`].
pub struct PendingView {
    pub job: JobView,
    pub attempt: u32,
}

/// The mathematical model of a [`Reply`].
pub enum ReplyView {
    Unreachable { detail: Seq<char> },
    Arrived { status: u16, body: Seq<char>, parsed: Result<ChatResponseView, Seq<char>> },
}

/// The mathematical model of a [`TranslateError`].
pub enum ErrorView {
    Network { mode: Mode, detail: Seq<char> },
    Status { status: u16, body: Seq<char> },
    Parse { detail: Seq<char> },
    NoChoices,
}

/// The mathematical model of a [`Step`].
pub enum StepView {
    Post { pending: PendingView, delay_ms: u64, request: HttpRequestView },
    Deliver { original: Seq<char>, translation: Seq<char> },
    Fail { error: ErrorView },
}

impl View for Job {
    type V = JobView;

    open spec fn view(&self) -> JobView {
        JobView {
            mode: self.mode,
            text: self.text@,
            target: self.target@,
            source: opt_string(self.source),
        }
    }
}

impl View for Pending {
    type V = PendingView;

    open spec fn view(&self) -> PendingView {
        PendingView { job: self.job@, attempt: self.attempt }
    }
}

impl View for Reply {
    type V = ReplyView;

    open spec fn view(&self) -> ReplyView {
        match self {
            Reply::Unreachable { detail } => ReplyView::Unreachable { detail: detail@ },
            Reply::Arrived { status, body, parsed } => ReplyView::Arrived {
                status: status@,
                body: body@,
                parsed: match parsed {
                    Ok(response) => Ok(response@),
                    Err(detail) => Err(detail@),
                },
            },
        }
    }
}

impl View for TranslateError {
    type V = ErrorView;

    open spec fn view(&self) -> ErrorView {
        match self {
            TranslateError::Network { mode, detail } => ErrorView::Network {
                mode: *mode,
                detail: detail@,
            },
            TranslateError::Status { status, body } => ErrorView::Status {
                status: status@,
                body: body@,
            },
            TranslateError::Parse { detail } => ErrorView::Parse { detail: detail@ },
            TranslateError::NoChoices => ErrorView::NoChoices,
        }
    }
}

impl View for Step {
    type V = StepView;

    open spec fn view(&self) -> StepView {
        match self {
            Step::Post { pending, delay_ms, request } => StepView::Post {
                pending: pending@,
                delay_ms: *delay_ms,
                request: request@,
            },
            Step::Deliver { original, translation } => StepView::Deliver {
                original: original@,
                translation: translation@,
            },
            Step::Fail { error } => StepView::Fail { error: error@ },
        }
    }
}

impl View for Translator {
    type V = ConfigView;

    closed spec fn view(&self) -> ConfigView {
        self.config@
    }
}

/// The model of what reading a reply gives.
pub open spec fn result_view(result: Result<String, TranslateError>) -> Result<
    Seq<char>,
    ErrorView,
> {
    match result {
        Ok(translation) => Ok(translation@),
        Err(error) => Err(error@),
    }
}

/// The system prompt of a mode.
pub open spec fn system_prompt(mode: Mode) -> Seq<char> {
    match mode {
        Mode::Word => WORD_SYSTEM_PROMPT@,
        Mode::Line => LINE_SYSTEM_PROMPT@,
    }
}

/// The user prompt of a job.
pub open spec fn user_prompt(job: JobView) -> Seq<char> {
    match job.mode {
        Mode::Word => word_prompt(job.text, job.target, job.source),
        Mode::Line => line_prompt(job.text, job.target, job.source),
    }
}

/// The request that a client configured with `config` posts for `job`: to
/// the completions path below the endpoint; with a bearer token exactly
/// where a key that is not empty is configured; with the configured timeout;
/// and with the configured model, temperature and token limit around the two
/// prompts.
pub open spec fn request_for(config: ConfigView, job: JobView) -> HttpRequestView {
    HttpRequestView {
        url: config.endpoint + COMPLETIONS_PATH@,
        authorization: if has_key(config) {
            Some(BEARER_PREFIX@ + config.api_key->0)
        } else {
            None
        },
        timeout_seconds: config.timeout,
        body: ChatRequestView {
            model: config.model,
            messages: seq![
                ChatMessageView { role: ROLE_SYSTEM@, content: system_prompt(job.mode) },
                ChatMessageView { role: ROLE_USER@, content: user_prompt(job) },
            ],
            temperature: config.temperature,
            max_tokens: config.max_tokens,
        },
    }
}

/// A request carries credentials exactly where a key that is not empty is
/// configured, and a token limit exactly where one is configured: without a
/// limit the body holds none, neither zero nor any other number. Its two
/// messages are the system prompt of the mode and the user prompt of the job.
pub proof fn law_request_shape(config: ConfigView, job: JobView)
    ensures
        request_for(config, job).authorization is None <==> !has_key(config),
        has_key(config) ==> request_for(config, job).authorization == Some(
            BEARER_PREFIX@ + config.api_key->0,
        ),
        request_for(config, job).body.max_tokens is None <==> config.max_tokens is None,
        request_for(config, job).body.max_tokens == config.max_tokens,
        request_for(config, job).body.messages.len() == 2,
        request_for(config, job).body.messages[0].role == ROLE_SYSTEM@,
        request_for(config, job).body.messages[1].role == ROLE_USER@,
        request_for(config, job).body.messages[1].content == user_prompt(job),
{
}

/// What a reply to a job of mode `mode` amounts to: the cleaned content of
/// the first choice, where a response with a success status holds one; the
/// reason for the failure otherwise. The status is looked at first, then the
/// parsing, then the choices.
pub open spec fn reading(mode: Mode, reply: ReplyView) -> Result<Seq<char>, ErrorView> {
    match reply {
        ReplyView::Unreachable { detail } => Err(ErrorView::Network { mode, detail }),
        ReplyView::Arrived { status, body, parsed } => {
            if !is_success_code(status) {
                Err(ErrorView::Status { status, body })
            } else {
                match parsed {
                    Err(detail) => Err(ErrorView::Parse { detail }),
                    Ok(response) => {
                        if response.choices.len() == 0 {
                            Err(ErrorView::NoChoices)
                        } else {
                            Ok(cleaned(response.choices[0].content))
                        }
                    },
                }
            }
        },
    }
}

/// The pause before the attempt that follows the failed attempt number
/// `failed`, in milliseconds.
pub open spec fn backoff_ms(failed: u32) -> int {
    failed * BACKOFF_STEP_MS
}

/// The step that opens the exchange for a job: the first post, at once.
pub open spec fn first_step(config: ConfigView, job: JobView) -> StepView {
    StepView::Post {
        pending: PendingView { job, attempt: 1 },
        delay_ms: 0,
        request: request_for(config, job),
    }
}

/// The step that opens the exchange for a line job: an empty text is
/// delivered at once with an empty translation and is never posted; any other
/// text starts with the first post.
pub open spec fn line_start(config: ConfigView, job: JobView) -> StepView {
    if job.text.len() == 0 {
        StepView::Deliver { original: job.text, translation: Seq::empty() }
    } else {
        first_step(config, job)
    }
}

/// The step that follows the reply to an attempt. A reply that reads as a
/// translation is delivered. Any other one is a failure, whatever its kind:
/// below the limit of attempts the same request is posted again after the
/// pause of `backoff_ms`; at the limit the exchange fails with that reply's
/// error.
pub open spec fn next_step(config: ConfigView, pending: PendingView, reply: ReplyView) -> StepView {
    match reading(pending.job.mode, reply) {
        Ok(translation) => StepView::Deliver { original: pending.job.text, translation },
        Err(error) => {
            if pending.attempt < MAX_ATTEMPTS {
                StepView::Post {
                    pending: PendingView { job: pending.job, attempt: (pending.attempt + 1) as u32 },
                    delay_ms: backoff_ms(pending.attempt) as u64,
                    request: request_for(config, pending.job),
                }
            } else {
                StepView::Fail { error }
            }
        },
    }
}

/// The message for a response whose status reports a failure: the status
/// as it is displayed, and the body.
pub open spec fn status_message_of(status_line: Seq<char>, body: Seq<char>) -> Seq<char> {
    "API request failed with status "@ + status_line + ": "@ + body
}

/// The message that an error is reported with.
pub open spec fn message_of(error: ErrorView) -> Seq<char> {
    match error {
        ErrorView::Network { mode, detail } => match mode {
            Mode::Line => "Failed to send translation request"@,
            Mode::Word => "Failed to send word translation request"@,
        },
        ErrorView::Status { status, body } => status_message_of(status_display(status), body),
        ErrorView::Parse { detail } => "Failed to parse API response"@,
        ErrorView::NoChoices => "No translation choices returned from API"@,
    }
}

/// The message for a response whose status, displayed as `status_line`,
/// reports a failure.
pub fn status_message(status_line: &str, body: &str) -> (message: String)
    ensures
        message@ == status_message_of(status_line@, body@),
{
    let mut message = String::from_str("API request failed with status ");
    message.append(status_line);
    message.append(": ");
    message.append(body);
    message
}

impl TranslateError {
    /// The message that the error is reported with. The detail of a network
    /// or parse failure is not part of it.
    pub fn message(&self) -> (message: String)
        ensures
            message@ == message_of(self@),
    {
        match self {
            TranslateError::Network { mode, detail } => match mode {
                Mode::Line => String::from_str("Failed to send translation request"),
                Mode::Word => String::from_str("Failed to send word translation request"),
            },
            TranslateError::Status { status, body } => {
                let line = status.describe();
                status_message(line.as_str(), body.as_str())
            },
            TranslateError::Parse { detail } => String::from_str("Failed to parse API response"),
            TranslateError::NoChoices => String::from_str(
                "No translation choices returned from API",
            ),
        }
    }
}

/// Reads the reply to an attempt of mode `mode`: the translation, cleaned,
/// or the error that the attempt failed with.
pub fn read_reply(mode: Mode, reply: Reply) -> (result: Result<String, TranslateError>)
    ensures
        result_view(result) == reading(mode, reply@),
{
    match reply {
        Reply::Unreachable { detail } => Err(TranslateError::Network { mode, detail }),
        Reply::Arrived { status, body, parsed } => {
            if !status.is_success() {
                Err(TranslateError::Status { status, body })
            } else {
                match parsed {
                    Err(detail) => Err(TranslateError::Parse { detail }),
                    Ok(response) => {
                        if response.choices.len() == 0 {
                            Err(TranslateError::NoChoices)
                        } else {
                            Ok(clean(response.choices[0].message.content.as_str()))
                        }
                    },
                }
            }
        },
    }
}

impl Job {
    /// A job for `text`, to be translated into `target_lang` from
    /// `source_lang`.
    pub fn new(mode: Mode, text: &str, target_lang: &str, source_lang: Option<&str>) -> (job: Job)
        ensures
            job@ == (JobView {
                mode,
                text: text@,
                target: target_lang@,
                source: opt_str(source_lang),
            }),
    {
        Job {
            mode,
            text: String::from_str(text),
            target: String::from_str(target_lang),
            source: match source_lang {
                Some(source) => Some(String::from_str(source)),
                None => None,
            },
        }
    }
}

impl Translator {
    /// A client for the configuration as it is now. The client keeps its own
    /// copy: later changes to `config` do not reach it.
    pub fn new(config: &Config) -> (translator: Translator)
        ensures
            translator@ == config@,
    {
        Translator { config: config.clone() }
    }

    /// The configuration that the client was made with.
    pub fn config(&self) -> (config: &Config)
        ensures
            config@ == self@,
    {
        &self.config
    }

    /// The request that asks for the translation of `job`.
    pub fn request(&self, job: &Job) -> (request: HttpRequest)
        ensures
            request@ == request_for(self@, job@),
    {
        let source = match &job.source {
            Some(source) => Some(source.as_str()),
            None => None,
        };
        let system = match job.mode {
            Mode::Word => ChatMessage::new(ROLE_SYSTEM, WORD_SYSTEM_PROMPT),
            Mode::Line => ChatMessage::new(ROLE_SYSTEM, LINE_SYSTEM_PROMPT),
        };
        let prompt = match job.mode {
            Mode::Word => build_word_translation_prompt(
                job.text.as_str(),
                job.target.as_str(),
                source,
            ),
            Mode::Line => build_line_translation_prompt(
                job.text.as_str(),
                job.target.as_str(),
                source,
            ),
        };
        let user = ChatMessage::new(ROLE_USER, prompt.as_str());
        let mut messages: Vec<ChatMessage> = Vec::new();
        messages.push(system);
        messages.push(user);
        let mut url = String::from_str(self.config.endpoint());
        url.append(COMPLETIONS_PATH);
        let authorization = if self.config.has_api_key() {
            match self.config.api_key() {
                Some(key) => {
                    let mut value = String::from_str(BEARER_PREFIX);
                    value.append(key);
                    Some(value)
                },
                None => None,
            }
        } else {
            None
        };
        let body = ChatRequest {
            model: String::from_str(self.config.model()),
            messages,
            temperature: self.config.temperature(),
            max_tokens: self.config.max_tokens(),
        };
        assert(body@.messages =~= request_for(self@, job@).body.messages);
        HttpRequest { url, authorization, timeout_seconds: self.config.timeout(), body }
    }

    /// Starts the translation of a line of free-form text. An empty text
    /// needs no request: it is delivered at once, with an empty translation.
    pub fn translate_line(&self, text: &str, target_lang: &str, source_lang: Option<&str>) -> (step:
        Step)
        ensures
            step@ == line_start(
                self@,
                JobView {
                    mode: Mode::Line,
                    text: text@,
                    target: target_lang@,
                    source: opt_str(source_lang),
                },
            ),
    {
        if text.is_empty() {
            Step::Deliver { original: String::from_str(text), translation: String::new() }
        } else {
            self.start(Job::new(Mode::Line, text, target_lang, source_lang))
        }
    }

    /// Starts the translation of a single word. The word is posted whatever
    /// it holds, an empty one too.
    pub fn translate_word(&self, word: &str, target_lang: &str, source_lang: Option<&str>) -> (step:
        Step)
        ensures
            step@ == first_step(
                self@,
                JobView {
                    mode: Mode::Word,
                    text: word@,
                    target: target_lang@,
                    source: opt_str(source_lang),
                },
            ),
    {
        self.start(Job::new(Mode::Word, word, target_lang, source_lang))
    }

    /// The first post for `job`.
    pub fn start(&self, job: Job) -> (step: Step)
        ensures
            step@ == first_step(self@, job@),
    {
        let request = self.request(&job);
        Step::Post { pending: Pending { job, attempt: 1 }, delay_ms: 0, request }
    }

    /// Decides how to go on after the attempt `pending` got `reply`.
    pub fn resume(&self, pending: Pending, reply: Reply) -> (step: Step)
        ensures
            step@ == next_step(self@, pending@, reply@),
    {
        let Pending { job, attempt } = pending;
        match read_reply(job.mode, reply) {
            Ok(translation) => Step::Deliver { original: job.text, translation },
            Err(error) => {
                if attempt < MAX_ATTEMPTS {
                    let request = self.request(&job);
                    Step::Post {
                        pending: Pending { job, attempt: attempt + 1 },
                        delay_ms: BACKOFF_STEP_MS * (attempt as u64),
                        request,
                    }
                } else {
                    Step::Fail { error }
                }
            },
        }
    }
}

} // verus!
