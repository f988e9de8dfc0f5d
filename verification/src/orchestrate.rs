//! The completion orchestrator: a per-message state machine.
//!
//! The machine never performs an external call itself. Each step classifies
//! the message or consumes one driver event and returns the ordered batch of
//! actions the driver must perform next; actions that produce a value (a sent
//! message's reference, the loaded session, fetched bytes, recognized text,
//! the completion reply) are answered with the matching event, which drives
//! the next step. One machine instance handles exactly one inbound message.

use vstd::prelude::*;
use crate::chunk::{chunk_message, spec_chunks};
use crate::extract::{
    attachment_views, base64_of, base64_standard_encode, image_urls, spec_image_urls, Attachment,
    AttachmentView,
};
use crate::router::{route, spec_route, CommandAction};
use crate::session::{SessionState, SessionStateView};

verus! {

/// Fixed configuration, constructed once at process start and passed into the
/// orchestrator; there is no ambient state.
pub struct Settings {
    pub bot_id: u64,
    pub placeholder_text: String,
    pub help_text: String,
    pub model: String,
    pub max_tokens: u16,
    pub segment_limit: usize,
}

/// Spec-level image of `Settings`.
#[verifier::ext_equal]
pub struct SettingsView {
    pub bot_id: u64,
    pub placeholder_text: Seq<char>,
    pub help_text: Seq<char>,
    pub model: Seq<char>,
    pub max_tokens: u16,
    pub segment_limit: nat,
}

impl SettingsView {
    /// A settings value is usable when its segment limit is positive, so that
    /// chunking a reply is defined.
    pub open spec fn wf(self) -> bool {
        self.segment_limit > 0
    }
}

impl View for Settings {
    type V = SettingsView;

    open spec fn view(&self) -> SettingsView {
        SettingsView {
            bot_id: self.bot_id,
            placeholder_text: self.placeholder_text@,
            help_text: self.help_text@,
            model: self.model@,
            max_tokens: self.max_tokens,
            segment_limit: self.segment_limit as nat,
        }
    }
}

/// One inbound message, reduced to the plain values the dispatch logic reads.
pub struct IncomingMessage {
    pub author_is_bot: bool,
    pub from_guild: bool,
    pub mentions: Vec<u64>,
    pub conversation_id: u64,
    pub text: String,
    pub attachments: Vec<Attachment>,
}

/// Spec-level image of an `IncomingMessage`.
#[verifier::ext_equal]
pub struct MessageView {
    pub author_is_bot: bool,
    pub from_guild: bool,
    pub mentions: Seq<u64>,
    pub conversation_id: u64,
    pub text: Seq<char>,
    pub attachments: Seq<AttachmentView>,
}

impl View for IncomingMessage {
    type V = MessageView;

    open spec fn view(&self) -> MessageView {
        MessageView {
            author_is_bot: self.author_is_bot,
            from_guild: self.from_guild,
            mentions: self.mentions@,
            conversation_id: self.conversation_id,
            text: self.text@,
            attachments: attachment_views(self.attachments@),
        }
    }
}

/// One completion-backend call, fully assembled.
pub struct CompletionRequest {
    pub conversation_id: u64,
    pub persona_prompt: String,
    pub user_text: String,
    pub reset_continuity: bool,
    pub model: String,
    pub max_tokens: u16,
}

/// Spec-level image of a `CompletionRequest`.
#[verifier::ext_equal]
pub struct CompletionRequestView {
    pub conversation_id: u64,
    pub persona_prompt: Seq<char>,
    pub user_text: Seq<char>,
    pub reset_continuity: bool,
    pub model: Seq<char>,
    pub max_tokens: u16,
}

impl View for CompletionRequest {
    type V = CompletionRequestView;

    open spec fn view(&self) -> CompletionRequestView {
        CompletionRequestView {
            conversation_id: self.conversation_id,
            persona_prompt: self.persona_prompt@,
            user_text: self.user_text@,
            reset_continuity: self.reset_continuity,
            model: self.model@,
            max_tokens: self.max_tokens,
        }
    }
}

/// One effect the orchestrator asks its driver to perform, in batch order.
/// All of them address the conversation the machine was started for.
pub enum Action {
    /// Send a new transport message; answered with `Event::Sent`.
    SendMessage { text: String },
    /// Edit a previously sent transport message in place.
    EditMessage { message_ref: u64, text: String },
    /// Persist the conversation's continuity-reset flag.
    WriteContinuity { value: bool },
    /// Persist the conversation's persona prompt.
    WritePersona { prompt: String },
    /// Read the conversation's session state; answered with
    /// `Event::SessionLoaded`.
    ReadSession,
    /// Fetch an attachment's bytes; answered with `Event::ImageFetched`.
    FetchImage { url: String },
    /// Hand base64-encoded image bytes to the text-recognition collaborator;
    /// answered with `Event::TextRecognized`.
    RecognizeText { image_base64: String },
    /// Call the completion backend; answered with `Event::CompletionDone`.
    RequestCompletion { request: CompletionRequest },
}

/// Spec-level image of an `Action`.
#[verifier::ext_equal]
pub enum ActionView {
    SendMessage { text: Seq<char> },
    EditMessage { message_ref: u64, text: Seq<char> },
    WriteContinuity { value: bool },
    WritePersona { prompt: Seq<char> },
    ReadSession,
    FetchImage { url: Seq<char> },
    RecognizeText { image_base64: Seq<char> },
    RequestCompletion { request: CompletionRequestView },
}

impl View for Action {
    type V = ActionView;

    open spec fn view(&self) -> ActionView {
        match self {
            Action::SendMessage { text } => ActionView::SendMessage { text: text@ },
            Action::EditMessage { message_ref, text } => ActionView::EditMessage {
                message_ref: *message_ref,
                text: text@,
            },
            Action::WriteContinuity { value } => ActionView::WriteContinuity { value: *value },
            Action::WritePersona { prompt } => ActionView::WritePersona { prompt: prompt@ },
            Action::ReadSession => ActionView::ReadSession,
            Action::FetchImage { url } => ActionView::FetchImage { url: url@ },
            Action::RecognizeText { image_base64 } => ActionView::RecognizeText {
                image_base64: image_base64@,
            },
            Action::RequestCompletion { request } => ActionView::RequestCompletion {
                request: request@,
            },
        }
    }
}

/// The views of a batch of actions.
pub open spec fn action_views(acts: Seq<Action>) -> Seq<ActionView> {
    acts.map_values(|a: Action| a@)
}

/// What the driver reports back after performing the awaited action of a
/// batch.
pub enum Event {
    /// A transport message went out under this reference.
    Sent { message_ref: u64 },
    /// The conversation's session state, defaults already resolved.
    SessionLoaded { state: SessionState },
    /// An attachment fetch ended: whether the transfer worked, whether the
    /// status reported success, and the body bytes.
    ImageFetched { transport_ok: bool, status_ok: bool, body: Vec<u8> },
    /// The text-recognition collaborator answered; an error covers the
    /// no-text-found case.
    TextRecognized { result: Result<String, String> },
    /// The completion backend answered, after its own bounded retries.
    CompletionDone { result: Result<String, String> },
}

/// Spec-level image of an `Event`.
#[verifier::ext_equal]
pub enum EventView {
    Sent { message_ref: u64 },
    SessionLoaded { state: SessionStateView },
    ImageFetched { transport_ok: bool, status_ok: bool, body: Seq<u8> },
    TextRecognized { result: Result<Seq<char>, Seq<char>> },
    CompletionDone { result: Result<Seq<char>, Seq<char>> },
}

impl View for Event {
    type V = EventView;

    open spec fn view(&self) -> EventView {
        match self {
            Event::Sent { message_ref } => EventView::Sent { message_ref: *message_ref },
            Event::SessionLoaded { state } => EventView::SessionLoaded { state: state@ },
            Event::ImageFetched { transport_ok, status_ok, body } => EventView::ImageFetched {
                transport_ok: *transport_ok,
                status_ok: *status_ok,
                body: body@,
            },
            Event::TextRecognized { result } => EventView::TextRecognized {
                result: match result {
                    Ok(t) => Ok(t@),
                    Err(e) => Err(e@),
                },
            },
            Event::CompletionDone { result } => EventView::CompletionDone {
                result: match result {
                    Ok(t) => Ok(t@),
                    Err(e) => Err(e@),
                },
            },
        }
    }
}

/// How the handling of one message ended. The three families — ignored,
/// command-handled, content-handled — are mutually exclusive: one message
/// reaches exactly one of them.
#[derive(Clone, Copy, Debug, PartialEq, Eq, Structural)]
pub enum Outcome {
    IgnoredBotAuthor,
    IgnoredUntargetedGuildMessage,
    CommandHandled,
    NoInputFound,
    AnsweredFromText,
    AnsweredFromImage,
    UpstreamError,
}

/// Progress through the image attachments of one message whose text was
/// empty: which address is up next and the question text synthesized so far.
pub struct ExtractionJob {
    pub placeholder: u64,
    pub urls: Vec<String>,
    pub next: usize,
    pub question: String,
    pub persona_prompt: String,
    pub reset_continuity: bool,
}

/// Spec-level image of an `ExtractionJob`.
#[verifier::ext_equal]
pub struct ExtractionJobView {
    pub placeholder: u64,
    pub urls: Seq<Seq<char>>,
    pub next: int,
    pub question: Seq<char>,
    pub persona_prompt: Seq<char>,
    pub reset_continuity: bool,
}

impl View for ExtractionJob {
    type V = ExtractionJobView;

    open spec fn view(&self) -> ExtractionJobView {
        ExtractionJobView {
            placeholder: self.placeholder,
            urls: self.urls@.map_values(|u: String| u@),
            next: self.next as int,
            question: self.question@,
            persona_prompt: self.persona_prompt@,
            reset_continuity: self.reset_continuity,
        }
    }
}

/// Where the machine stands between batches.
pub enum Phase {
    /// The placeholder send is out; awaiting its reference.
    AwaitingPlaceholder,
    /// The session read is out.
    AwaitingSession { placeholder: u64 },
    /// An attachment fetch is out.
    FetchingImage { job: ExtractionJob },
    /// A text-recognition call is out.
    RecognizingText { job: ExtractionJob },
    /// The completion call is out.
    AwaitingCompletion { placeholder: u64, from_image: bool },
    /// Nothing is outstanding; the message is fully handled.
    Finished { outcome: Outcome },
}

/// Spec-level image of a `Phase`.
#[verifier::ext_equal]
pub enum PhaseView {
    AwaitingPlaceholder,
    AwaitingSession { placeholder: u64 },
    FetchingImage { job: ExtractionJobView },
    RecognizingText { job: ExtractionJobView },
    AwaitingCompletion { placeholder: u64, from_image: bool },
    Finished { outcome: Outcome },
}

impl View for Phase {
    type V = PhaseView;

    open spec fn view(&self) -> PhaseView {
        match self {
            Phase::AwaitingPlaceholder => PhaseView::AwaitingPlaceholder,
            Phase::AwaitingSession { placeholder } => PhaseView::AwaitingSession {
                placeholder: *placeholder,
            },
            Phase::FetchingImage { job } => PhaseView::FetchingImage { job: job@ },
            Phase::RecognizingText { job } => PhaseView::RecognizingText { job: job@ },
            Phase::AwaitingCompletion { placeholder, from_image } => PhaseView::AwaitingCompletion {
                placeholder: *placeholder,
                from_image: *from_image,
            },
            Phase::Finished { outcome } => PhaseView::Finished { outcome: *outcome },
        }
    }
}

/// The user-visible note when a message has neither text nor a usable image.
pub open spec fn no_input_text() -> Seq<char> {
    "Sorry, I cannot understand your message. Can you try again?"@
}

/// The user-visible note when an attachment could not be fetched.
pub open spec fn file_problem_text() -> Seq<char> {
    "There is a problem with the uploaded file. Can you try again?"@
}

/// The user-visible note when an image holds no recognizable text.
pub open spec fn no_text_found_text() -> Seq<char> {
    "Sorry, the input image does not contain text. Can you try again"@
}

/// The user-visible apology when the completion backend failed.
pub open spec fn upstream_apology_text() -> Seq<char> {
    "Sorry an error has occurred with OpenAI"@
}

pub fn no_input_message() -> (s: String)
    ensures
        s@ == no_input_text(),
{
    String::from_str("Sorry, I cannot understand your message. Can you try again?")
}

pub fn file_problem_message() -> (s: String)
    ensures
        s@ == file_problem_text(),
{
    String::from_str("There is a problem with the uploaded file. Can you try again?")
}

pub fn no_text_found_message() -> (s: String)
    ensures
        s@ == no_text_found_text(),
{
    String::from_str("Sorry, the input image does not contain text. Can you try again")
}

pub fn upstream_apology_message() -> (s: String)
    ensures
        s@ == upstream_apology_text(),
{
    String::from_str("Sorry an error has occurred with OpenAI")
}

/// Classification and first batch: ignore machine authors, ignore untargeted
/// multi-party messages, announce a matched command and persist its persona,
/// and otherwise open content handling with the placeholder send.
pub open spec fn spec_start(cfg: SettingsView, msg: MessageView) -> (PhaseView, Seq<ActionView>) {
    if msg.author_is_bot {
        (PhaseView::Finished { outcome: Outcome::IgnoredBotAuthor }, Seq::empty())
    } else if msg.from_guild && !msg.mentions.contains(cfg.bot_id) {
        (PhaseView::Finished { outcome: Outcome::IgnoredUntargetedGuildMessage }, Seq::empty())
    } else {
        match spec_route(msg.text, cfg.help_text) {
            Some(act) => (
                PhaseView::Finished { outcome: Outcome::CommandHandled },
                if act.resets_continuity {
                    seq![
                        ActionView::SendMessage { text: act.announcement },
                        ActionView::WriteContinuity { value: true },
                        ActionView::WritePersona { prompt: act.persona_prompt },
                    ]
                } else {
                    seq![ActionView::SendMessage { text: act.announcement }]
                },
            ),
            None => (
                PhaseView::AwaitingPlaceholder,
                seq![ActionView::SendMessage { text: cfg.placeholder_text }],
            ),
        }
    }
}

/// After one attachment is dealt with: fetch the next address if any is left;
/// otherwise close the message, either with the no-input note when nothing
/// was recognized or with the one completion call over the synthesized
/// question.
pub open spec fn spec_advance(
    cfg: SettingsView,
    msg: MessageView,
    job: ExtractionJobView,
    lead: Seq<ActionView>,
) -> (PhaseView, Seq<ActionView>) {
    if job.next < job.urls.len() {
        (
            PhaseView::FetchingImage { job },
            lead.push(ActionView::FetchImage { url: job.urls[job.next] }),
        )
    } else if job.question.len() == 0 {
        (
            PhaseView::Finished { outcome: Outcome::NoInputFound },
            lead.push(
                ActionView::EditMessage { message_ref: job.placeholder, text: no_input_text() },
            ),
        )
    } else {
        (
            PhaseView::AwaitingCompletion { placeholder: job.placeholder, from_image: true },
            lead.push(
                ActionView::RequestCompletion {
                    request: CompletionRequestView {
                        conversation_id: msg.conversation_id,
                        persona_prompt: job.persona_prompt,
                        user_text: job.question,
                        reset_continuity: job.reset_continuity,
                        model: cfg.model,
                        max_tokens: cfg.max_tokens,
                    },
                },
            ),
        )
    }
}

/// One transition of the machine: the phase the event answers, the event, and
/// the resulting phase and batch of actions.
pub open spec fn spec_step(
    cfg: SettingsView,
    msg: MessageView,
    p: PhaseView,
    e: EventView,
) -> (PhaseView, Seq<ActionView>) {
    match (p, e) {
        (PhaseView::AwaitingPlaceholder, EventView::Sent { message_ref }) => (
            PhaseView::AwaitingSession { placeholder: message_ref },
            seq![ActionView::ReadSession],
        ),
        (PhaseView::AwaitingSession { placeholder }, EventView::SessionLoaded { state }) => {
            let lead: Seq<ActionView> = if state.continuity_reset {
                seq![ActionView::WriteContinuity { value: false }]
            } else {
                Seq::empty()
            };
            if msg.text.len() > 0 {
                (
                    PhaseView::AwaitingCompletion { placeholder, from_image: false },
                    lead.push(
                        ActionView::RequestCompletion {
                            request: CompletionRequestView {
                                conversation_id: msg.conversation_id,
                                persona_prompt: state.persona_prompt,
                                user_text: msg.text,
                                reset_continuity: state.continuity_reset,
                                model: cfg.model,
                                max_tokens: cfg.max_tokens,
                            },
                        },
                    ),
                )
            } else {
                let urls = spec_image_urls(msg.attachments);
                if urls.len() == 0 {
                    (
                        PhaseView::Finished { outcome: Outcome::NoInputFound },
                        lead.push(
                            ActionView::EditMessage {
                                message_ref: placeholder,
                                text: no_input_text(),
                            },
                        ),
                    )
                } else {
                    spec_advance(
                        cfg,
                        msg,
                        ExtractionJobView {
                            placeholder,
                            urls,
                            next: 0,
                            question: Seq::empty(),
                            persona_prompt: state.persona_prompt,
                            reset_continuity: state.continuity_reset,
                        },
                        lead,
                    )
                }
            }
        },
        (
            PhaseView::FetchingImage { job },
            EventView::ImageFetched { transport_ok, status_ok, body },
        ) => {
            if transport_ok && status_ok {
                (
                    PhaseView::RecognizingText { job },
                    seq![ActionView::RecognizeText { image_base64: base64_of(body) }],
                )
            } else {
                spec_advance(
                    cfg,
                    msg,
                    ExtractionJobView { next: job.next + 1, ..job },
                    seq![
                        ActionView::EditMessage {
                            message_ref: job.placeholder,
                            text: file_problem_text(),
                        },
                    ],
                )
            }
        },
        (PhaseView::RecognizingText { job }, EventView::TextRecognized { result }) => {
            match result {
                Ok(t) => spec_advance(
                    cfg,
                    msg,
                    ExtractionJobView {
                        next: job.next + 1,
                        question: job.question + t + "\n"@,
                        ..job
                    },
                    Seq::empty(),
                ),
                Err(_) => spec_advance(
                    cfg,
                    msg,
                    ExtractionJobView { next: job.next + 1, ..job },
                    seq![
                        ActionView::EditMessage {
                            message_ref: job.placeholder,
                            text: no_text_found_text(),
                        },
                    ],
                ),
            }
        },
        (
            PhaseView::AwaitingCompletion { placeholder, from_image },
            EventView::CompletionDone { result },
        ) => {
            match result {
                Ok(reply) => {
                    let outcome = if from_image {
                        Outcome::AnsweredFromImage
                    } else {
                        Outcome::AnsweredFromText
                    };
                    let segs = spec_chunks(reply, cfg.segment_limit);
                    if segs.len() == 0 {
                        (
                            PhaseView::Finished { outcome },
                            seq![
                                ActionView::EditMessage {
                                    message_ref: placeholder,
                                    text: Seq::empty(),
                                },
                            ],
                        )
                    } else {
                        (
                            PhaseView::Finished { outcome },
                            seq![ActionView::EditMessage { message_ref: placeholder, text: segs[0] }]
                                + segs.drop_first().map_values(
                                |s: Seq<char>| ActionView::SendMessage { text: s },
                            ),
                        )
                    }
                },
                Err(_) => (
                    PhaseView::Finished { outcome: Outcome::UpstreamError },
                    seq![
                        ActionView::EditMessage {
                            message_ref: placeholder,
                            text: upstream_apology_text(),
                        },
                    ],
                ),
            }
        },
        (_, _) => (p, Seq::empty()),
    }
}

/// Which event answers which phase: the driver must answer the awaited action
/// of the last batch with its matching event.
pub open spec fn event_fits(p: PhaseView, e: EventView) -> bool {
    match (p, e) {
        (PhaseView::AwaitingPlaceholder, EventView::Sent { .. }) => true,
        (PhaseView::AwaitingSession { .. }, EventView::SessionLoaded { .. }) => true,
        (PhaseView::FetchingImage { .. }, EventView::ImageFetched { .. }) => true,
        (PhaseView::RecognizingText { .. }, EventView::TextRecognized { .. }) => true,
        (PhaseView::AwaitingCompletion { .. }, EventView::CompletionDone { .. }) => true,
        (_, _) => false,
    }
}

/// The per-message state machine. `start` classifies the message and returns
/// the first batch of actions; each `step` consumes the event answering the
/// previous batch and returns the next one, until the machine is finished.
pub struct Orchestrator {
    pub settings: Settings,
    pub message: IncomingMessage,
    pub phase: Phase,
}

impl Orchestrator {
    /// The machine is well-formed: its segment limit is usable and, while an
    /// attachment is being worked on, the job still points at one.
    pub open spec fn wf(self) -> bool {
        &&& self.settings@.wf()
        &&& match self.phase@ {
            PhaseView::FetchingImage { job } => 0 <= job.next < job.urls.len(),
            PhaseView::RecognizingText { job } => 0 <= job.next < job.urls.len(),
            _ => true,
        }
    }

    /// Whether the message is fully handled and no action is awaited.
    pub open spec fn is_finished_spec(self) -> bool {
        self.phase@ is Finished
    }

    pub fn is_finished(&self) -> (r: bool)
        ensures
            r == self.is_finished_spec(),
    {
        match &self.phase {
            Phase::Finished { .. } => true,
            _ => false,
        }
    }

    /// Whether `event` answers the currently awaited action, so a driver can
    /// test `step`'s precondition at run time.
    pub fn accepts(&self, event: &Event) -> (r: bool)
        ensures
            r == event_fits(self.phase@, event@),
    {
        match (&self.phase, event) {
            (Phase::AwaitingPlaceholder, Event::Sent { .. }) => true,
            (Phase::AwaitingSession { .. }, Event::SessionLoaded { .. }) => true,
            (Phase::FetchingImage { .. }, Event::ImageFetched { .. }) => true,
            (Phase::RecognizingText { .. }, Event::TextRecognized { .. }) => true,
            (Phase::AwaitingCompletion { .. }, Event::CompletionDone { .. }) => true,
            (_, _) => false,
        }
    }

    /// The outcome, once the machine is finished.
    pub fn outcome(&self) -> (r: Option<Outcome>)
        ensures
            match self.phase@ {
                PhaseView::Finished { outcome } => r == Some(outcome),
                _ => r is None,
            },
    {
        match &self.phase {
            Phase::Finished { outcome } => Some(*outcome),
            _ => None,
        }
    }

    /// Classify one inbound message and emit the first batch of effects.
    pub fn start(settings: Settings, message: IncomingMessage) -> (r: (Orchestrator, Vec<Action>))
        requires
            settings@.wf(),
        ensures
            r.0.settings == settings,
            r.0.message == message,
            r.0.wf(),
            r.0.phase@ == spec_start(settings@, message@).0,
            action_views(r.1@) == spec_start(settings@, message@).1,
    {
        let ghost cfg = settings@;
        let ghost msgv = message@;
        if message.author_is_bot {
            let acts: Vec<Action> = Vec::new();
            proof {
                assert(action_views(acts@) =~~= spec_start(cfg, msgv).1);
            }
            return (
                Orchestrator {
                    settings,
                    message,
                    phase: Phase::Finished { outcome: Outcome::IgnoredBotAuthor },
                },
                acts,
            );
        }
        if message.from_guild && !contains_u64(&message.mentions, settings.bot_id) {
            let acts: Vec<Action> = Vec::new();
            proof {
                assert(action_views(acts@) =~~= spec_start(cfg, msgv).1);
            }
            return (
                Orchestrator {
                    settings,
                    message,
                    phase: Phase::Finished { outcome: Outcome::IgnoredUntargetedGuildMessage },
                },
                acts,
            );
        }
        match route(message.text.as_str(), settings.help_text.as_str()) {
            Some(act) => {
                let CommandAction { announcement, persona_prompt, resets_continuity } = act;
                let mut acts: Vec<Action> = Vec::new();
                acts.push(Action::SendMessage { text: announcement });
                if resets_continuity {
                    acts.push(Action::WriteContinuity { value: true });
                    acts.push(Action::WritePersona { prompt: persona_prompt });
                }
                proof {
                    assert(action_views(acts@) =~~= spec_start(cfg, msgv).1);
                }
                (
                    Orchestrator {
                        settings,
                        message,
                        phase: Phase::Finished { outcome: Outcome::CommandHandled },
                    },
                    acts,
                )
            },
            None => {
                let mut acts: Vec<Action> = Vec::new();
                acts.push(Action::SendMessage { text: settings.placeholder_text.clone() });
                proof {
                    assert(action_views(acts@) =~~= spec_start(cfg, msgv).1);
                }
                (Orchestrator { settings, message, phase: Phase::AwaitingPlaceholder }, acts)
            },
        }
    }

    /// Consume the event answering the previous batch and emit the next one.
    pub fn step(self, event: Event) -> (r: (Orchestrator, Vec<Action>))
        requires
            self.wf(),
            !self.is_finished_spec(),
            event_fits(self.phase@, event@),
        ensures
            r.0.settings == self.settings,
            r.0.message == self.message,
            r.0.wf(),
            r.0.phase@ == spec_step(self.settings@, self.message@, self.phase@, event@).0,
            action_views(r.1@) == spec_step(self.settings@, self.message@, self.phase@, event@).1,
    {
        let ghost cfg = self.settings@;
        let ghost msgv = self.message@;
        let ghost pv = self.phase@;
        let ghost ev = event@;
        let Orchestrator { settings, message, phase } = self;
        match (phase, event) {
            (Phase::AwaitingPlaceholder, Event::Sent { message_ref }) => {
                let mut acts: Vec<Action> = Vec::new();
                acts.push(Action::ReadSession);
                proof {
                    assert(action_views(acts@) =~~= spec_step(cfg, msgv, pv, ev).1);
                }
                (
                    Orchestrator {
                        settings,
                        message,
                        phase: Phase::AwaitingSession { placeholder: message_ref },
                    },
                    acts,
                )
            },
            (Phase::AwaitingSession { placeholder }, Event::SessionLoaded { state }) => {
                let SessionState { continuity_reset, persona_prompt } = state;
                let mut acts: Vec<Action> = Vec::new();
                if continuity_reset {
                    acts.push(Action::WriteContinuity { value: false });
                }
                if !message.text.as_str().is_empty() {
                    let request = CompletionRequest {
                        conversation_id: message.conversation_id,
                        persona_prompt,
                        user_text: message.text.clone(),
                        reset_continuity: continuity_reset,
                        model: settings.model.clone(),
                        max_tokens: settings.max_tokens,
                    };
                    acts.push(Action::RequestCompletion { request });
                    proof {
                        assert(action_views(acts@) =~~= spec_step(cfg, msgv, pv, ev).1);
                    }
                    (
                        Orchestrator {
                            settings,
                            message,
                            phase: Phase::AwaitingCompletion { placeholder, from_image: false },
                        },
                        acts,
                    )
                } else {
                    let urls = image_urls(&message.attachments);
                    if urls.len() == 0 {
                        acts.push(
                            Action::EditMessage {
                                message_ref: placeholder,
                                text: no_input_message(),
                            },
                        );
                        proof {
                            assert(spec_image_urls(msgv.attachments).len() == 0);
                            assert(action_views(acts@) =~~= spec_step(cfg, msgv, pv, ev).1);
                        }
                        (
                            Orchestrator {
                                settings,
                                message,
                                phase: Phase::Finished { outcome: Outcome::NoInputFound },
                            },
                            acts,
                        )
                    } else {
                        let job = ExtractionJob {
                            placeholder,
                            urls,
                            next: 0,
                            question: String::new(),
                            persona_prompt,
                            reset_continuity: continuity_reset,
                        };
                        proof {
                            assert(job@ =~~= (ExtractionJobView {
                                placeholder,
                                urls: spec_image_urls(msgv.attachments),
                                next: 0,
                                question: Seq::empty(),
                                persona_prompt: persona_prompt@,
                                reset_continuity: continuity_reset,
                            }));
                        }
                        let r = Self::advance(settings, message, job, acts);
                        proof {
                            assert(r.0.phase@ == spec_step(cfg, msgv, pv, ev).0);
                            assert(action_views(r.1@) =~~= spec_step(cfg, msgv, pv, ev).1);
                        }
                        r
                    }
                }
            },
            (
                Phase::FetchingImage { job },
                Event::ImageFetched { transport_ok, status_ok, body },
            ) => {
                if transport_ok && status_ok {
                    let encoded = base64_standard_encode(&body);
                    let mut acts: Vec<Action> = Vec::new();
                    acts.push(Action::RecognizeText { image_base64: encoded });
                    proof {
                        assert(action_views(acts@) =~~= spec_step(cfg, msgv, pv, ev).1);
                    }
                    (
                        Orchestrator { settings, message, phase: Phase::RecognizingText { job } },
                        acts,
                    )
                } else {
                    let mut acts: Vec<Action> = Vec::new();
                    acts.push(
                        Action::EditMessage {
                            message_ref: job.placeholder,
                            text: file_problem_message(),
                        },
                    );
                    proof {
                        assert(pv == PhaseView::FetchingImage { job: job@ });
                        assert(job.urls.len() == job.urls@.len());
                        assert(job@.next < job@.urls.len());
                    }
                    let job2 = ExtractionJob { next: job.next + 1, ..job };
                    proof {
                        assert(job2@ =~~= (ExtractionJobView { next: job@.next + 1, ..job@ }));
                    }
                    let r = Self::advance(settings, message, job2, acts);
                    proof {
                        assert(r.0.phase@ == spec_step(cfg, msgv, pv, ev).0);
                        assert(action_views(r.1@) =~~= spec_step(cfg, msgv, pv, ev).1);
                    }
                    r
                }
            },
            (Phase::RecognizingText { job }, Event::TextRecognized { result }) => {
                match result {
                    Ok(t) => {
                        let ExtractionJob {
                            placeholder,
                            urls,
                            next,
                            question,
                            persona_prompt,
                            reset_continuity,
                        } = job;
                        let mut question = question;
                        question.append(t.as_str());
                        question.append("\n");
                        proof {
                            assert(pv->RecognizingText_job.next < pv->RecognizingText_job.urls.len());
                            assert(urls.len() == urls@.len());
                            assert(next < urls@.len());
                        }
                        let job2 = ExtractionJob {
                            placeholder,
                            urls,
                            next: next + 1,
                            question,
                            persona_prompt,
                            reset_continuity,
                        };
                        let acts: Vec<Action> = Vec::new();
                        proof {
                            assert(job2@ =~~= (ExtractionJobView {
                                next: pv->RecognizingText_job.next + 1,
                                question: pv->RecognizingText_job.question + t@ + "\n"@,
                                ..pv->RecognizingText_job
                            }));
                            assert(action_views(acts@) =~~= Seq::<ActionView>::empty());
                        }
                        let r = Self::advance(settings, message, job2, acts);
                        proof {
                            assert(r.0.phase@ == spec_step(cfg, msgv, pv, ev).0);
                            assert(action_views(r.1@) =~~= spec_step(cfg, msgv, pv, ev).1);
                        }
                        r
                    },
                    Err(_detail) => {
                        let mut acts: Vec<Action> = Vec::new();
                        acts.push(
                            Action::EditMessage {
                                message_ref: job.placeholder,
                                text: no_text_found_message(),
                            },
                        );
                        proof {
                            assert(pv == PhaseView::RecognizingText { job: job@ });
                            assert(job.urls.len() == job.urls@.len());
                            assert(job@.next < job@.urls.len());
                        }
                        let job2 = ExtractionJob { next: job.next + 1, ..job };
                        proof {
                            assert(job2@ =~~= (ExtractionJobView { next: job@.next + 1, ..job@ }));
                        }
                        let r = Self::advance(settings, message, job2, acts);
                        proof {
                            assert(r.0.phase@ == spec_step(cfg, msgv, pv, ev).0);
                            assert(action_views(r.1@) =~~= spec_step(cfg, msgv, pv, ev).1);
                        }
                        r
                    },
                }
            },
            (
                Phase::AwaitingCompletion { placeholder, from_image },
                Event::CompletionDone { result },
            ) => {
                let outcome = if from_image {
                    Outcome::AnsweredFromImage
                } else {
                    Outcome::AnsweredFromText
                };
                match result {
                    Ok(reply) => {
                        let segs = chunk_message(reply.as_str(), settings.segment_limit);
                        let ghost segsv = spec_chunks(reply@, cfg.segment_limit);
                        let mut acts: Vec<Action> = Vec::new();
                        if segs.len() == 0 {
                            acts.push(
                                Action::EditMessage { message_ref: placeholder, text: String::new() },
                            );
                            proof {
                                assert(action_views(acts@) =~~= spec_step(cfg, msgv, pv, ev).1);
                            }
                        } else {
                            let first = segs[0].clone();
                            acts.push(Action::EditMessage { message_ref: placeholder, text: first });
                            let mut i: usize = 1;
                            while i < segs.len()
                                invariant
                                    1 <= i <= segs@.len(),
                                    segs@.map_values(|s: String| s@) == segsv,
                                    acts@.len() == i,
                                    acts@[0]@ == (ActionView::EditMessage {
                                        message_ref: placeholder,
                                        text: segsv[0],
                                    }),
                                    forall|j: int|
                                        1 <= j < i ==> (#[trigger] acts@[j])@
                                            == (ActionView::SendMessage { text: segsv[j] }),
                                decreases segs@.len() - i,
                            {
                                acts.push(Action::SendMessage { text: segs[i].clone() });
                                i = i + 1;
                            }
                            proof {
                                let expected = seq![
                                    ActionView::EditMessage { message_ref: placeholder, text: segsv[0] },
                                ] + segsv.drop_first().map_values(
                                    |s: Seq<char>| ActionView::SendMessage { text: s },
                                );
                                assert forall|j: int|
                                    0 <= j < acts@.len() implies action_views(acts@)[j]
                                    == expected[j] by {
                                    if j >= 1 {
                                        assert(expected[j] == ActionView::SendMessage {
                                            text: segsv.drop_first()[j - 1],
                                        });
                                        assert(segsv.drop_first()[j - 1] == segsv[j]);
                                    }
                                }
                                assert(action_views(acts@) =~~= expected);
                                assert(action_views(acts@) =~~= spec_step(cfg, msgv, pv, ev).1);
                            }
                        }
                        (
                            Orchestrator { settings, message, phase: Phase::Finished { outcome } },
                            acts,
                        )
                    },
                    Err(_detail) => {
                        let mut acts: Vec<Action> = Vec::new();
                        acts.push(
                            Action::EditMessage {
                                message_ref: placeholder,
                                text: upstream_apology_message(),
                            },
                        );
                        proof {
                            assert(action_views(acts@) =~~= spec_step(cfg, msgv, pv, ev).1);
                        }
                        (
                            Orchestrator {
                                settings,
                                message,
                                phase: Phase::Finished { outcome: Outcome::UpstreamError },
                            },
                            acts,
                        )
                    },
                }
            },
            (_, _) => unreached(),
        }
    }

    /// Shared tail of the attachment loop: fetch the next address or close
    /// the message.
    fn advance(settings: Settings, message: IncomingMessage, job: ExtractionJob, acts: Vec<Action>)
        -> (r: (Orchestrator, Vec<Action>))
        requires
            settings@.wf(),
        ensures
            r.0.settings == settings,
            r.0.message == message,
            r.0.wf(),
            r.0.phase@ == spec_advance(settings@, message@, job@, action_views(acts@)).0,
            action_views(r.1@) == spec_advance(settings@, message@, job@, action_views(acts@)).1,
    {
        let ghost cfg = settings@;
        let ghost msgv = message@;
        let ghost jobv = job@;
        let ghost lead = action_views(acts@);
        let mut acts = acts;
        if job.next < job.urls.len() {
            let url = job.urls[job.next].clone();
            acts.push(Action::FetchImage { url });
            proof {
                assert(action_views(acts@) =~~= spec_advance(cfg, msgv, jobv, lead).1);
            }
            (Orchestrator { settings, message, phase: Phase::FetchingImage { job } }, acts)
        } else if job.question.as_str().is_empty() {
            acts.push(Action::EditMessage { message_ref: job.placeholder, text: no_input_message() });
            proof {
                assert(action_views(acts@) =~~= spec_advance(cfg, msgv, jobv, lead).1);
            }
            (
                Orchestrator {
                    settings,
                    message,
                    phase: Phase::Finished { outcome: Outcome::NoInputFound },
                },
                acts,
            )
        } else {
            let ExtractionJob { placeholder, urls: _, next: _, question, persona_prompt, reset_continuity } =
                job;
            let request = CompletionRequest {
                conversation_id: message.conversation_id,
                persona_prompt,
                user_text: question,
                reset_continuity,
                model: settings.model.clone(),
                max_tokens: settings.max_tokens,
            };
            acts.push(Action::RequestCompletion { request });
            proof {
                assert(action_views(acts@) =~~= spec_advance(cfg, msgv, jobv, lead).1);
            }
            (
                Orchestrator {
                    settings,
                    message,
                    phase: Phase::AwaitingCompletion { placeholder, from_image: true },
                },
                acts,
            )
        }
    }
}

/// Linear scan for a mention of the agent's own id.
fn contains_u64(values: &Vec<u64>, needle: u64) -> (r: bool)
    ensures
        r == values@.contains(needle),
{
    let mut i: usize = 0;
    while i < values.len()
        invariant
            i <= values@.len(),
            forall|j: int| 0 <= j < i ==> values@[j] != needle,
        decreases values@.len() - i,
    {
        if values[i] == needle {
            return true;
        }
        i = i + 1;
    }
    proof {
        if values@.contains(needle) {
            let k = choose|k: int| 0 <= k < values@.len() && values@[k] == needle;
            assert(values@[k] != needle);
        }
    }
    false
}

} // verus!

