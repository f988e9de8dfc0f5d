use chat_dispatch::router::route;

const HELP: &str = "Type a command to start.";

#[test]
fn help_is_announcement_only() {
    let act = route("/help", HELP).unwrap();
    assert_eq!(act.announcement, HELP);
    assert_eq!(act.persona_prompt, "");
    assert!(!act.resets_continuity);
}

#[test]
fn start_selects_the_qa_persona() {
    let act = route("/start", HELP).unwrap();
    assert_eq!(act.announcement, HELP);
    assert_eq!(
        act.persona_prompt,
        "You are a helpful assistant answering questions on Discord."
    );
    assert!(act.resets_continuity);
}

#[test]
fn qa_matches() {
    let act = route("/qa", HELP).unwrap();
    assert_eq!(act.announcement, "I am ready for general QA");
    assert_eq!(
        act.persona_prompt,
        "You are a helpful assistant answering questions on Discord."
    );
    assert!(act.resets_continuity);
}

#[test]
fn summarize_matches() {
    let act = route("/summarize", HELP).unwrap();
    assert_eq!(act.announcement, "I am ready to summarize text");
    assert!(act.persona_prompt.starts_with("You are a helpful assistant. Please summarize"));
    assert!(act.resets_continuity);
}

#[test]
fn code_matches() {
    let act = route("/code", HELP).unwrap();
    assert_eq!(act.announcement, "I am ready to review source code");
    assert!(act.persona_prompt.starts_with("You are an experienced software developer."));
    assert!(act.resets_continuity);
}

#[test]
fn medical_matches() {
    let act = route("/medical", HELP).unwrap();
    assert_eq!(
        act.announcement,
        "I am ready to review and summarize doctor notes or medical test results"
    );
    assert!(act.persona_prompt.starts_with("You are a medical doctor,"));
    assert!(act.resets_continuity);
}

#[test]
fn translate_matches() {
    let act = route("/translate", HELP).unwrap();
    assert_eq!(act.announcement, "I am ready to translate anything into English");
    assert!(act.persona_prompt.starts_with("You are an English language translator."));
    assert!(act.resets_continuity);
}

#[test]
fn reply_tweet_matches() {
    let act = route("/reply_tweet", HELP).unwrap();
    assert_eq!(act.announcement, "I am ready to reply a tweet for you");
    assert!(act.persona_prompt.starts_with("You are a social media marketing expert."));
    assert!(act.resets_continuity);
}

#[test]
fn trailing_space_does_not_match() {
    assert!(route("/qa ", HELP).is_none());
    assert!(route(" /qa", HELP).is_none());
}

#[test]
fn case_matters() {
    assert!(route("/QA", HELP).is_none());
    assert!(route("/Help", HELP).is_none());
}

#[test]
fn free_text_falls_through() {
    assert!(route("", HELP).is_none());
    assert!(route("hello", HELP).is_none());
    assert!(route("/qaa", HELP).is_none());
    assert!(route("/q", HELP).is_none());
    assert!(route("/unknown", HELP).is_none());
}
