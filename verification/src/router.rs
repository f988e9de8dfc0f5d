//! The command router: exact, case-sensitive matching of a message text
//! against the fixed slash-command table.

use vstd::prelude::*;
use crate::strutil::str_eq;

verus! {

/// What a matched command does: the announcement sent back to the user, the
/// persona prompt it selects, and whether it resets conversation continuity.
/// The help command is the one announcement-only entry: it selects nothing.
pub struct CommandAction {
    pub announcement: String,
    pub persona_prompt: String,
    pub resets_continuity: bool,
}

/// Spec-level image of a `CommandAction`.
#[verifier::ext_equal]
pub struct CommandActionView {
    pub announcement: Seq<char>,
    pub persona_prompt: Seq<char>,
    pub resets_continuity: bool,
}

impl View for CommandAction {
    type V = CommandActionView;

    open spec fn view(&self) -> CommandActionView {
        CommandActionView {
            announcement: self.announcement@,
            persona_prompt: self.persona_prompt@,
            resets_continuity: self.resets_continuity,
        }
    }
}

pub open spec fn qa_persona_text() -> Seq<char> {
    "You are a helpful assistant answering questions on Discord."@
}

pub open spec fn summarize_persona_text() -> Seq<char> {
    "You are a helpful assistant. Please summarize the next message in short bullet points. Please always answer in English even if the original text is not English."@
}

pub open spec fn code_persona_text() -> Seq<char> {
    "You are an experienced software developer. Please review the computer source code in the next message, explain what it does, and identify potential problems. Please also make suggestions on how to improve it."@
}

pub open spec fn medical_persona_text() -> Seq<char> {
    "You are a medical doctor, you'll read a lab report and tell the user the most important findings of the report in short bullets, please use the following template: The major findings are:\n 1) [the name of the measurement] [status of the reading]\n ... \n one sentence summary about the subject's health status."@
}

pub open spec fn translate_persona_text() -> Seq<char> {
    "You are an English language translator. For every message you receive, please translate it to English. Please respond with just the English translation and nothing more. If the input message is already in English, please fix any grammar errors and improve the writing."@
}

pub open spec fn reply_tweet_persona_text() -> Seq<char> {
    "You are a social media marketing expert. You will receive the text from a tweet. Please generate 3 clever replies to it. Then follow user suggestions to improve the reply tweets."@
}

/// The fixed trigger table. A text routes to a command exactly when it equals
/// one of the eight triggers, character for character; everything else falls
/// through to content handling. The help text doubles as the announcement of
/// the help and start commands.
pub open spec fn spec_route(text: Seq<char>, help_text: Seq<char>) -> Option<CommandActionView> {
    if text == "/help"@ {
        Some(
            CommandActionView {
                announcement: help_text,
                persona_prompt: Seq::empty(),
                resets_continuity: false,
            },
        )
    } else if text == "/start"@ {
        Some(
            CommandActionView {
                announcement: help_text,
                persona_prompt: qa_persona_text(),
                resets_continuity: true,
            },
        )
    } else if text == "/qa"@ {
        Some(
            CommandActionView {
                announcement: "I am ready for general QA"@,
                persona_prompt: qa_persona_text(),
                resets_continuity: true,
            },
        )
    } else if text == "/summarize"@ {
        Some(
            CommandActionView {
                announcement: "I am ready to summarize text"@,
                persona_prompt: summarize_persona_text(),
                resets_continuity: true,
            },
        )
    } else if text == "/code"@ {
        Some(
            CommandActionView {
                announcement: "I am ready to review source code"@,
                persona_prompt: code_persona_text(),
                resets_continuity: true,
            },
        )
    } else if text == "/medical"@ {
        Some(
            CommandActionView {
                announcement: "I am ready to review and summarize doctor notes or medical test results"@,
                persona_prompt: medical_persona_text(),
                resets_continuity: true,
            },
        )
    } else if text == "/translate"@ {
        Some(
            CommandActionView {
                announcement: "I am ready to translate anything into English"@,
                persona_prompt: translate_persona_text(),
                resets_continuity: true,
            },
        )
    } else if text == "/reply_tweet"@ {
        Some(
            CommandActionView {
                announcement: "I am ready to reply a tweet for you"@,
                persona_prompt: reply_tweet_persona_text(),
                resets_continuity: true,
            },
        )
    } else {
        None
    }
}

/// Routing is exact match: a text routes to a command if and only if it is,
/// character for character, one of the eight fixed triggers. In particular a
/// trigger with trailing whitespace or in different case routes to nothing.
pub proof fn lemma_route_exact(text: Seq<char>, help_text: Seq<char>)
    ensures
        spec_route(text, help_text) is Some <==> (text == "/help"@ || text == "/start"@ || text
            == "/qa"@ || text == "/summarize"@ || text == "/code"@ || text == "/medical"@ || text
            == "/translate"@ || text == "/reply_tweet"@),
{
}

/// The help command is the only one that leaves the session untouched: every
/// other trigger selects a persona and schedules a continuity reset.
pub proof fn lemma_help_is_the_only_silent_command(text: Seq<char>, help_text: Seq<char>)
    ensures
        spec_route(text, help_text) matches Some(act) ==> (act.resets_continuity <==> text
            != "/help"@),
{
    reveal_strlit("/help");
    reveal_strlit("/start");
    reveal_strlit("/qa");
    reveal_strlit("/summarize");
    reveal_strlit("/code");
    reveal_strlit("/medical");
    reveal_strlit("/translate");
    reveal_strlit("/reply_tweet");
}

/// A text with no characters routes to no command at all.
pub proof fn lemma_empty_text_routes_none(text: Seq<char>, help_text: Seq<char>)
    requires
        text.len() == 0,
    ensures
        spec_route(text, help_text) is None,
{
    reveal_strlit("/help");
    reveal_strlit("/start");
    reveal_strlit("/qa");
    reveal_strlit("/summarize");
    reveal_strlit("/code");
    reveal_strlit("/medical");
    reveal_strlit("/translate");
    reveal_strlit("/reply_tweet");
}

/// Match `text` against the fixed trigger table.
pub fn route(text: &str, help_text: &str) -> (r: Option<CommandAction>)
    ensures
        match r {
            Some(act) => spec_route(text@, help_text@) == Some(act@),
            None => spec_route(text@, help_text@) is None,
        },
{
    if str_eq(text, "/help") {
        let act = CommandAction {
            announcement: String::from_str(help_text),
            persona_prompt: String::new(),
            resets_continuity: false,
        };
        proof {
            assert(Some(act@) =~~= spec_route(text@, help_text@));
        }
        Some(act)
    } else if str_eq(text, "/start") {
        let act = CommandAction {
            announcement: String::from_str(help_text),
            persona_prompt: String::from_str(
                "You are a helpful assistant answering questions on Discord.",
            ),
            resets_continuity: true,
        };
        proof {
            assert(Some(act@) =~~= spec_route(text@, help_text@));
        }
        Some(act)
    } else if str_eq(text, "/qa") {
        let act = CommandAction {
            announcement: String::from_str("I am ready for general QA"),
            persona_prompt: String::from_str(
                "You are a helpful assistant answering questions on Discord.",
            ),
            resets_continuity: true,
        };
        proof {
            assert(Some(act@) =~~= spec_route(text@, help_text@));
        }
        Some(act)
    } else if str_eq(text, "/summarize") {
        let act = CommandAction {
            announcement: String::from_str("I am ready to summarize text"),
            persona_prompt: String::from_str(
                "You are a helpful assistant. Please summarize the next message in short bullet points. Please always answer in English even if the original text is not English.",
            ),
            resets_continuity: true,
        };
        proof {
            assert(Some(act@) =~~= spec_route(text@, help_text@));
        }
        Some(act)
    } else if str_eq(text, "/code") {
        let act = CommandAction {
            announcement: String::from_str("I am ready to review source code"),
            persona_prompt: String::from_str(
                "You are an experienced software developer. Please review the computer source code in the next message, explain what it does, and identify potential problems. Please also make suggestions on how to improve it.",
            ),
            resets_continuity: true,
        };
        proof {
            assert(Some(act@) =~~= spec_route(text@, help_text@));
        }
        Some(act)
    } else if str_eq(text, "/medical") {
        let act = CommandAction {
            announcement: String::from_str(
                "I am ready to review and summarize doctor notes or medical test results",
            ),
            persona_prompt: String::from_str(
                "You are a medical doctor, you'll read a lab report and tell the user the most important findings of the report in short bullets, please use the following template: The major findings are:\n 1) [the name of the measurement] [status of the reading]\n ... \n one sentence summary about the subject's health status.",
            ),
            resets_continuity: true,
        };
        proof {
            assert(Some(act@) =~~= spec_route(text@, help_text@));
        }
        Some(act)
    } else if str_eq(text, "/translate") {
        let act = CommandAction {
            announcement: String::from_str("I am ready to translate anything into English"),
            persona_prompt: String::from_str(
                "You are an English language translator. For every message you receive, please translate it to English. Please respond with just the English translation and nothing more. If the input message is already in English, please fix any grammar errors and improve the writing.",
            ),
            resets_continuity: true,
        };
        proof {
            assert(Some(act@) =~~= spec_route(text@, help_text@));
        }
        Some(act)
    } else if str_eq(text, "/reply_tweet") {
        let act = CommandAction {
            announcement: String::from_str("I am ready to reply a tweet for you"),
            persona_prompt: String::from_str(
                "You are a social media marketing expert. You will receive the text from a tweet. Please generate 3 clever replies to it. Then follow user suggestions to improve the reply tweets.",
            ),
            resets_continuity: true,
        };
        proof {
            assert(Some(act@) =~~= spec_route(text@, help_text@));
        }
        Some(act)
    } else {
        None
    }
}

} // verus!
