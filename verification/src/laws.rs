//! The dispatcher's laws: what whole runs of the orchestrator emit, stated
//! over the spec-level machine and proved for every message, configuration
//! and driver answer.

use vstd::prelude::*;
use crate::extract::spec_image_urls;
use crate::orchestrate::{
    spec_start, spec_step, ActionView, EventView, MessageView, Outcome, PhaseView,
    SettingsView, no_input_text,
};
use crate::router::{lemma_empty_text_routes_none, spec_route, CommandActionView};
use crate::session::SessionStateView;

verus! {

/// The actions the machine emits from phase `p` while consuming `events` in
/// order, stopping when the machine finishes or the events run out.
pub open spec fn spec_run(
    cfg: SettingsView,
    msg: MessageView,
    p: PhaseView,
    events: Seq<EventView>,
) -> Seq<ActionView>
    decreases events.len(),
{
    if events.len() == 0 || p is Finished {
        Seq::empty()
    } else {
        spec_step(cfg, msg, p, events[0]).1 + spec_run(
            cfg,
            msg,
            spec_step(cfg, msg, p, events[0]).0,
            events.drop_first(),
        )
    }
}

/// Everything the machine emits for one message, from classification to the
/// end, given the events the driver feeds back.
pub open spec fn spec_full_run(
    cfg: SettingsView,
    msg: MessageView,
    events: Seq<EventView>,
) -> Seq<ActionView> {
    spec_start(cfg, msg).1 + spec_run(cfg, msg, spec_start(cfg, msg).0, events)
}

/// One message is handled in exactly one of the three ways — ignored,
/// command-handled, content-handled — and the classification is decided
/// before anything else happens: by the author, the addressing, and the
/// command table alone.
pub proof fn lemma_message_is_classified_once(cfg: SettingsView, msg: MessageView)
    ensures
        ({
            let ignored = msg.author_is_bot || (msg.from_guild && !msg.mentions.contains(
                cfg.bot_id,
            ));
            let command = !ignored && spec_route(msg.text, cfg.help_text) is Some;
            let p = spec_start(cfg, msg).0;
            &&& (ignored <==> (p == PhaseView::Finished { outcome: Outcome::IgnoredBotAuthor } || p
                == PhaseView::Finished { outcome: Outcome::IgnoredUntargetedGuildMessage }))
            &&& (command <==> p == PhaseView::Finished { outcome: Outcome::CommandHandled })
            &&& (!ignored && !command <==> p == PhaseView::AwaitingPlaceholder)
        }),
{
}

/// A message authored by a machine account produces nothing at all — no
/// transport send or edit, no store write, no completion call — whatever the
/// driver would have answered.
pub proof fn lemma_bot_author_is_silent(cfg: SettingsView, msg: MessageView, events: Seq<EventView>)
    requires
        msg.author_is_bot,
    ensures
        spec_full_run(cfg, msg, events) == Seq::<ActionView>::empty(),
{
    assert(spec_full_run(cfg, msg, events) =~= Seq::<ActionView>::empty());
}

/// A multi-party message that does not mention the agent produces nothing at
/// all, whatever the driver would have answered.
pub proof fn lemma_untargeted_guild_message_is_silent(
    cfg: SettingsView,
    msg: MessageView,
    events: Seq<EventView>,
)
    requires
        msg.from_guild,
        !msg.mentions.contains(cfg.bot_id),
    ensures
        spec_full_run(cfg, msg, events) == Seq::<ActionView>::empty(),
{
    assert(spec_full_run(cfg, msg, events) =~= Seq::<ActionView>::empty());
}

/// A command message costs exactly one announcement send, plus the continuity
/// and persona writes unless the command is the announcement-only help entry —
/// and never a placeholder, an edit, or a completion call, whatever the driver
/// would have answered.
pub proof fn lemma_command_message_run(
    cfg: SettingsView,
    msg: MessageView,
    act: CommandActionView,
    events: Seq<EventView>,
)
    requires
        !msg.author_is_bot,
        msg.from_guild ==> msg.mentions.contains(cfg.bot_id),
        spec_route(msg.text, cfg.help_text) == Some(act),
    ensures
        spec_full_run(cfg, msg, events) == (if act.resets_continuity {
            seq![
                ActionView::SendMessage { text: act.announcement },
                ActionView::WriteContinuity { value: true },
                ActionView::WritePersona { prompt: act.persona_prompt },
            ]
        } else {
            seq![ActionView::SendMessage { text: act.announcement }]
        }),
{
    if act.resets_continuity {
        assert(spec_full_run(cfg, msg, events) =~~= seq![
            ActionView::SendMessage { text: act.announcement },
            ActionView::WriteContinuity { value: true },
            ActionView::WritePersona { prompt: act.persona_prompt },
        ]);
    } else {
        assert(spec_full_run(cfg, msg, events) =~~= seq![
            ActionView::SendMessage { text: act.announcement },
        ]);
    }
}

/// A message with no text and no image attachment costs exactly one
/// placeholder send, the session read, the continuity write when one was
/// pending, and one edit that carries the no-input note — and never a
/// completion call. The driver's two answers (the placeholder reference and
/// the loaded session) are arbitrary, and so is whatever it would have
/// answered afterwards.
pub proof fn lemma_no_input_message_run(
    cfg: SettingsView,
    msg: MessageView,
    message_ref: u64,
    state: SessionStateView,
    rest: Seq<EventView>,
)
    requires
        !msg.author_is_bot,
        msg.from_guild ==> msg.mentions.contains(cfg.bot_id),
        msg.text.len() == 0,
        spec_image_urls(msg.attachments).len() == 0,
    ensures
        spec_full_run(
            cfg,
            msg,
            seq![EventView::Sent { message_ref }, EventView::SessionLoaded { state }] + rest,
        ) == seq![ActionView::SendMessage { text: cfg.placeholder_text }, ActionView::ReadSession]
            + (if state.continuity_reset {
            seq![ActionView::WriteContinuity { value: false }]
        } else {
            Seq::<ActionView>::empty()
        }) + seq![ActionView::EditMessage { message_ref, text: no_input_text() }],
{
    lemma_empty_text_routes_none(msg.text, cfg.help_text);
    let e1 = EventView::Sent { message_ref };
    let e2 = EventView::SessionLoaded { state };
    let events = seq![e1, e2] + rest;
    let s0 = spec_start(cfg, msg);
    assert(s0.0 == PhaseView::AwaitingPlaceholder);
    assert(events[0] == e1);
    let st1 = spec_step(cfg, msg, s0.0, events[0]);
    assert(st1.0 == PhaseView::AwaitingSession { placeholder: message_ref });
    let tail1 = events.drop_first();
    assert(tail1 =~= seq![e2] + rest);
    assert(tail1[0] == e2);
    let st2 = spec_step(cfg, msg, st1.0, tail1[0]);
    assert(st2.0 == PhaseView::Finished { outcome: Outcome::NoInputFound });
    assert(spec_run(cfg, msg, st2.0, tail1.drop_first()) == Seq::<ActionView>::empty());
    assert(spec_run(cfg, msg, st1.0, tail1) =~~= st2.1);
    assert(spec_run(cfg, msg, s0.0, events) =~~= st1.1 + st2.1);
    assert(spec_full_run(cfg, msg, events) =~~= seq![
        ActionView::SendMessage { text: cfg.placeholder_text },
        ActionView::ReadSession,
    ] + (if state.continuity_reset {
        seq![ActionView::WriteContinuity { value: false }]
    } else {
        Seq::<ActionView>::empty()
    }) + seq![ActionView::EditMessage { message_ref, text: no_input_text() }]);
}

} // verus!
