use chat_dispatch::extract::{image_urls, Attachment};
use chat_dispatch::orchestrate::{
    Action, Event, IncomingMessage, Orchestrator, Outcome, Settings,
};
use chat_dispatch::session::SessionState;

fn settings() -> Settings {
    Settings {
        bot_id: 99,
        placeholder_text: "Typing ...".to_string(),
        help_text: "Type a command to start.".to_string(),
        model: "llama-chat-7b".to_string(),
        max_tokens: 512,
        segment_limit: 1800,
    }
}

fn text_message(text: &str) -> IncomingMessage {
    IncomingMessage {
        author_is_bot: false,
        from_guild: false,
        mentions: vec![],
        conversation_id: 7,
        text: text.to_string(),
        attachments: vec![],
    }
}

fn default_session() -> SessionState {
    SessionState { continuity_reset: false, persona_prompt: String::new() }
}

fn expect_send(action: &Action) -> &str {
    match action {
        Action::SendMessage { text } => text,
        other => panic!("expected a send, got {:?}", action_name(other)),
    }
}

fn expect_edit(action: &Action) -> (u64, &str) {
    match action {
        Action::EditMessage { message_ref, text } => (*message_ref, text),
        other => panic!("expected an edit, got {:?}", action_name(other)),
    }
}

fn action_name(action: &Action) -> &'static str {
    match action {
        Action::SendMessage { .. } => "SendMessage",
        Action::EditMessage { .. } => "EditMessage",
        Action::WriteContinuity { .. } => "WriteContinuity",
        Action::WritePersona { .. } => "WritePersona",
        Action::ReadSession => "ReadSession",
        Action::FetchImage { .. } => "FetchImage",
        Action::RecognizeText { .. } => "RecognizeText",
        Action::RequestCompletion { .. } => "RequestCompletion",
    }
}

#[test]
fn bot_author_is_ignored_without_any_action() {
    let mut msg = text_message("hello");
    msg.author_is_bot = true;
    let (machine, actions) = Orchestrator::start(settings(), msg);
    assert!(actions.is_empty());
    assert!(machine.is_finished());
    assert_eq!(machine.outcome(), Some(Outcome::IgnoredBotAuthor));
}

#[test]
fn untargeted_guild_message_is_ignored_without_any_action() {
    let mut msg = text_message("hello");
    msg.from_guild = true;
    msg.mentions = vec![1, 2, 3];
    let (machine, actions) = Orchestrator::start(settings(), msg);
    assert!(actions.is_empty());
    assert!(machine.is_finished());
    assert_eq!(machine.outcome(), Some(Outcome::IgnoredUntargetedGuildMessage));
}

#[test]
fn guild_message_mentioning_the_agent_is_handled() {
    let mut msg = text_message("hello");
    msg.from_guild = true;
    msg.mentions = vec![1, 99];
    let (machine, actions) = Orchestrator::start(settings(), msg);
    assert!(!machine.is_finished());
    assert_eq!(actions.len(), 1);
    assert_eq!(expect_send(&actions[0]), "Typing ...");
}

#[test]
fn command_sends_one_announcement_and_writes_the_session() {
    let (machine, actions) = Orchestrator::start(settings(), text_message("/qa"));
    assert!(machine.is_finished());
    assert_eq!(machine.outcome(), Some(Outcome::CommandHandled));
    assert_eq!(actions.len(), 3);
    assert_eq!(expect_send(&actions[0]), "I am ready for general QA");
    match &actions[1] {
        Action::WriteContinuity { value } => assert!(*value),
        other => panic!("expected a continuity write, got {}", action_name(other)),
    }
    match &actions[2] {
        Action::WritePersona { prompt } => {
            assert_eq!(prompt, "You are a helpful assistant answering questions on Discord.")
        }
        other => panic!("expected a persona write, got {}", action_name(other)),
    }
}

#[test]
fn help_command_only_announces() {
    let (machine, actions) = Orchestrator::start(settings(), text_message("/help"));
    assert!(machine.is_finished());
    assert_eq!(machine.outcome(), Some(Outcome::CommandHandled));
    assert_eq!(actions.len(), 1);
    assert_eq!(expect_send(&actions[0]), "Type a command to start.");
}

#[test]
fn empty_message_without_images_gets_one_placeholder_and_one_edit() {
    let (machine, actions) = Orchestrator::start(settings(), text_message(""));
    assert_eq!(actions.len(), 1);
    assert_eq!(expect_send(&actions[0]), "Typing ...");

    let (machine, actions) = machine.step(Event::Sent { message_ref: 55 });
    assert_eq!(actions.len(), 1);
    assert!(matches!(actions[0], Action::ReadSession));

    let (machine, actions) = machine.step(Event::SessionLoaded { state: default_session() });
    assert_eq!(actions.len(), 1);
    let (target, text) = expect_edit(&actions[0]);
    assert_eq!(target, 55);
    assert_eq!(text, "Sorry, I cannot understand your message. Can you try again?");
    assert!(machine.is_finished());
    assert_eq!(machine.outcome(), Some(Outcome::NoInputFound));
}

#[test]
fn short_answer_edits_the_placeholder_and_sends_nothing_else() {
    let (machine, _) = Orchestrator::start(settings(), text_message("2+2?"));
    let (machine, _) = machine.step(Event::Sent { message_ref: 55 });
    let (machine, actions) = machine.step(Event::SessionLoaded { state: default_session() });
    assert_eq!(actions.len(), 1);
    match &actions[0] {
        Action::RequestCompletion { request } => {
            assert_eq!(request.user_text, "2+2?");
            assert_eq!(request.persona_prompt, "");
            assert!(!request.reset_continuity);
            assert_eq!(request.model, "llama-chat-7b");
            assert_eq!(request.max_tokens, 512);
            assert_eq!(request.conversation_id, 7);
        }
        other => panic!("expected a completion call, got {}", action_name(other)),
    }
    let (machine, actions) = machine.step(Event::CompletionDone { result: Ok("4".to_string()) });
    assert_eq!(actions.len(), 1);
    let (target, text) = expect_edit(&actions[0]);
    assert_eq!(target, 55);
    assert_eq!(text, "4");
    assert_eq!(machine.outcome(), Some(Outcome::AnsweredFromText));
}

#[test]
fn long_answer_is_chunked_into_ordered_segments() {
    let reply: String =
        "abcdefghij".repeat(400);
    let (machine, _) = Orchestrator::start(settings(), text_message("tell me everything"));
    let (machine, _) = machine.step(Event::Sent { message_ref: 55 });
    let (machine, _) = machine.step(Event::SessionLoaded { state: default_session() });
    let (machine, actions) = machine.step(Event::CompletionDone { result: Ok(reply.clone()) });
    assert_eq!(actions.len(), 3);
    let (target, first) = expect_edit(&actions[0]);
    assert_eq!(target, 55);
    assert_eq!(first, &reply[0..1800]);
    assert_eq!(expect_send(&actions[1]), &reply[1800..3600]);
    assert_eq!(expect_send(&actions[2]), &reply[3600..4000]);
    assert_eq!(machine.outcome(), Some(Outcome::AnsweredFromText));
}

#[test]
fn pending_continuity_reset_is_consumed_and_forwarded() {
    let (machine, _) = Orchestrator::start(settings(), text_message("hi"));
    let (machine, _) = machine.step(Event::Sent { message_ref: 55 });
    let state = SessionState { continuity_reset: true, persona_prompt: "be brief".to_string() };
    let (_machine, actions) = machine.step(Event::SessionLoaded { state });
    assert_eq!(actions.len(), 2);
    match &actions[0] {
        Action::WriteContinuity { value } => assert!(!*value),
        other => panic!("expected a continuity write, got {}", action_name(other)),
    }
    match &actions[1] {
        Action::RequestCompletion { request } => {
            assert!(request.reset_continuity);
            assert_eq!(request.persona_prompt, "be brief");
        }
        other => panic!("expected a completion call, got {}", action_name(other)),
    }
}

#[test]
fn image_message_is_fetched_recognized_and_answered() {
    let mut msg = text_message("");
    msg.attachments = vec![
        Attachment { content_type: Some("text/plain".to_string()), url: "u0".to_string() },
        Attachment { content_type: Some("image/png".to_string()), url: "u1".to_string() },
        Attachment { content_type: None, url: "u2".to_string() },
    ];
    let (machine, _) = Orchestrator::start(settings(), msg);
    let (machine, _) = machine.step(Event::Sent { message_ref: 55 });
    let (machine, actions) = machine.step(Event::SessionLoaded { state: default_session() });
    assert_eq!(actions.len(), 1);
    match &actions[0] {
        Action::FetchImage { url } => assert_eq!(url, "u1"),
        other => panic!("expected a fetch, got {}", action_name(other)),
    }
    let (machine, actions) = machine.step(Event::ImageFetched {
        transport_ok: true,
        status_ok: true,
        body: b"hello".to_vec(),
    });
    assert_eq!(actions.len(), 1);
    match &actions[0] {
        // The standard base64 encoding of the fetched bytes.
        Action::RecognizeText { image_base64 } => assert_eq!(image_base64, "aGVsbG8="),
        other => panic!("expected a recognition call, got {}", action_name(other)),
    }
    let (machine, actions) =
        machine.step(Event::TextRecognized { result: Ok("what is 2+2?".to_string()) });
    assert_eq!(actions.len(), 1);
    match &actions[0] {
        Action::RequestCompletion { request } => {
            assert_eq!(request.user_text, "what is 2+2?\n");
        }
        other => panic!("expected a completion call, got {}", action_name(other)),
    }
    let (machine, actions) = machine.step(Event::CompletionDone { result: Ok("4".to_string()) });
    assert_eq!(actions.len(), 1);
    let (target, text) = expect_edit(&actions[0]);
    assert_eq!(target, 55);
    assert_eq!(text, "4");
    assert_eq!(machine.outcome(), Some(Outcome::AnsweredFromImage));
}

#[test]
fn failed_download_is_reported_and_the_message_closed() {
    let mut msg = text_message("");
    msg.attachments =
        vec![Attachment { content_type: Some("image/jpeg".to_string()), url: "u".to_string() }];
    let (machine, _) = Orchestrator::start(settings(), msg);
    let (machine, _) = machine.step(Event::Sent { message_ref: 55 });
    let (machine, _) = machine.step(Event::SessionLoaded { state: default_session() });
    let (machine, actions) = machine.step(Event::ImageFetched {
        transport_ok: false,
        status_ok: false,
        body: vec![],
    });
    assert_eq!(actions.len(), 2);
    let (_, report) = expect_edit(&actions[0]);
    assert_eq!(report, "There is a problem with the uploaded file. Can you try again?");
    let (_, closing) = expect_edit(&actions[1]);
    assert_eq!(closing, "Sorry, I cannot understand your message. Can you try again?");
    assert_eq!(machine.outcome(), Some(Outcome::NoInputFound));
}

#[test]
fn failed_recognition_is_reported_and_the_next_image_tried() {
    let mut msg = text_message("");
    msg.attachments = vec![
        Attachment { content_type: Some("image/png".to_string()), url: "a".to_string() },
        Attachment { content_type: Some("image/png".to_string()), url: "b".to_string() },
    ];
    let (machine, _) = Orchestrator::start(settings(), msg);
    let (machine, _) = machine.step(Event::Sent { message_ref: 55 });
    let (machine, _) = machine.step(Event::SessionLoaded { state: default_session() });
    let (machine, _) = machine.step(Event::ImageFetched {
        transport_ok: true,
        status_ok: true,
        body: vec![1, 2, 3],
    });
    let (machine, actions) =
        machine.step(Event::TextRecognized { result: Err("no text".to_string()) });
    assert_eq!(actions.len(), 2);
    let (_, report) = expect_edit(&actions[0]);
    assert_eq!(report, "Sorry, the input image does not contain text. Can you try again");
    match &actions[1] {
        Action::FetchImage { url } => assert_eq!(url, "b"),
        other => panic!("expected a fetch, got {}", action_name(other)),
    }
    assert!(!machine.is_finished());
}

#[test]
fn upstream_failure_turns_into_one_apology_edit() {
    let (machine, _) = Orchestrator::start(settings(), text_message("hi"));
    let (machine, _) = machine.step(Event::Sent { message_ref: 55 });
    let (machine, _) = machine.step(Event::SessionLoaded { state: default_session() });
    let (machine, actions) =
        machine.step(Event::CompletionDone { result: Err("boom".to_string()) });
    assert_eq!(actions.len(), 1);
    let (target, text) = expect_edit(&actions[0]);
    assert_eq!(target, 55);
    assert_eq!(text, "Sorry an error has occurred with OpenAI");
    assert_eq!(machine.outcome(), Some(Outcome::UpstreamError));
}

#[test]
fn only_image_attachments_are_selected() {
    let attachments = vec![
        Attachment { content_type: Some("image/png".to_string()), url: "a".to_string() },
        Attachment { content_type: Some("video/mp4".to_string()), url: "b".to_string() },
        Attachment { content_type: Some("image".to_string()), url: "c".to_string() },
        Attachment { content_type: None, url: "d".to_string() },
        Attachment { content_type: Some("imag".to_string()), url: "e".to_string() },
    ];
    assert_eq!(image_urls(&attachments), vec!["a".to_string(), "c".to_string()]);
}

#[test]
fn empty_completion_reply_edits_the_placeholder_to_empty() {
    let (machine, _) = Orchestrator::start(settings(), text_message("hi"));
    let (machine, _) = machine.step(Event::Sent { message_ref: 55 });
    let (machine, _) = machine.step(Event::SessionLoaded { state: default_session() });
    let (machine, actions) = machine.step(Event::CompletionDone { result: Ok(String::new()) });
    assert_eq!(actions.len(), 1);
    let (_, text) = expect_edit(&actions[0]);
    assert_eq!(text, "");
    assert_eq!(machine.outcome(), Some(Outcome::AnsweredFromText));
}
