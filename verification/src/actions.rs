//! What running a pad's action does: which input script to play, which text to
//! paste, which address to open, or which custom action to look up.
use vstd::prelude::*;
use crate::domain::integration::{params_view, ActionParams, ActionType};
use crate::input::script::{
    for_line, for_pause, for_shortcut, for_text, parse_spec, shortcut_events, steps_are_events, steps_view,
    text_or_line_steps, CharKeys, InputScript,
};
use crate::input::steps::StepView;
use crate::model::handle::board_named;
use crate::settings::settings::{lemma_name_position, name_position, Settings};
use crate::settings::validation::board_names;
use crate::text::owned;

verus! {

/// How running an action ended.
#[derive(Debug, Clone, PartialEq, Eq)]
pub enum ActionResult {
    Success,
    Error(String),
}

/// What an action does when it runs.
#[derive(Debug)]
pub enum ActionPlan {
    /// Play this input script.
    Play(InputScript),
    /// Put the text on the clipboard and paste it, then press Enter if asked.
    Paste { text: String, enter: bool },
    /// Open this address with the system's handler.
    OpenUrl(String),
    /// Run the custom action that the factory of its type makes, if any.
    Custom(ActionParams),
}

/// The plan of an action: shortcuts, texts, lines and pauses become input
/// scripts for the keyboard layout; the others carry their arguments.
pub fn plan_action(action: &ActionType, layout: &CharKeys) -> (r: ActionPlan)
    ensures
        match *action {
            ActionType::Shortcut(t) => r matches ActionPlan::Play(s) && steps_are_events(
                s.steps@,
                shortcut_events(parse_spec(t@, layout.entries@)),
            ),
            ActionType::Text(t) => r matches ActionPlan::Play(s) && steps_view(s.steps@) == text_or_line_steps(
                t@,
                false,
                layout.entries@,
            ),
            ActionType::Line(t) => r matches ActionPlan::Play(s) && steps_view(s.steps@) == text_or_line_steps(
                t@,
                true,
                layout.entries@,
            ),
            ActionType::Paste(t) => r matches ActionPlan::Paste { text, enter } && text@ == t@ && !enter,
            ActionType::PasteEnter(t) => r matches ActionPlan::Paste { text, enter } && text@ == t@ && enter,
            ActionType::Pause(d) => r matches ActionPlan::Play(s) && s.steps@.len() == 1 && s.steps@[0]@
                == StepView::Pause(d),
            ActionType::OpenUrl(u) => r matches ActionPlan::OpenUrl(x) && x@ == u@,
            ActionType::Custom(p) => r matches ActionPlan::Custom(q) && q.action_type@ == p.action_type@
                && params_view(q.params@) == params_view(p.params@),
        },
{
    match action {
        ActionType::Shortcut(text) => ActionPlan::Play(for_shortcut(text.clone(), layout)),
        ActionType::Text(text) => ActionPlan::Play(for_text(text.clone(), layout)),
        ActionType::Line(text) => ActionPlan::Play(for_line(text.clone(), layout)),
        ActionType::Paste(text) => ActionPlan::Paste { text: text.clone(), enter: false },
        ActionType::PasteEnter(text) => ActionPlan::Paste { text: text.clone(), enter: true },
        ActionType::Pause(duration) => ActionPlan::Play(for_pause(*duration)),
        ActionType::OpenUrl(url) => ActionPlan::OpenUrl(url.clone()),
        ActionType::Custom(custom) => ActionPlan::Custom(custom.clone()),
    }
}

/// The keys that paste: Ctrl+V, then Enter when asked.
pub open spec fn paste_text(enter: bool) -> Seq<char> {
    if enter {
        "Ctrl V + Enter"@
    } else {
        "Ctrl V"@
    }
}

/// The script that pastes the clipboard: Ctrl+V, then Enter when asked.
pub fn paste_script(enter: bool, layout: &CharKeys) -> (r: InputScript)
    ensures
        steps_are_events(r.steps@, shortcut_events(parse_spec(paste_text(enter), layout.entries@))),
{
    let text = if enter {
        owned("Ctrl V + Enter")
    } else {
        owned("Ctrl V")
    };
    for_shortcut(text, layout)
}


/// What running one of a pad's actions gave: whether it succeeded, and whether
/// it asks for the settings to be reloaded or the application to restart.
#[derive(Debug, Clone, Copy, PartialEq, Eq, Structural)]
pub struct ActionOutcome {
    pub success: bool,
    pub reload: bool,
    pub restart: bool,
}

/// Some action succeeded and asks for a reload.
pub open spec fn any_reload(os: Seq<ActionOutcome>) -> bool {
    exists|i: int| 0 <= i < os.len() && #[trigger] os[i].success && os[i].reload
}

/// Some action succeeded and asks for a restart.
pub open spec fn any_restart(os: Seq<ActionOutcome>) -> bool {
    exists|i: int| 0 <= i < os.len() && #[trigger] os[i].success && os[i].restart
}

/// Whether the settings are to be reloaded and whether the application is to
/// restart after a pad's actions ran: when a successful action asks for it.
pub fn reload_and_restart(outcomes: &Vec<ActionOutcome>) -> (r: (bool, bool))
    ensures
        r.0 == any_reload(outcomes@),
        r.1 == any_restart(outcomes@),
{
    let mut reload = false;
    let mut restart = false;
    let mut i: usize = 0;
    while i < outcomes.len()
        invariant
            i <= outcomes@.len(),
            reload == exists|j: int| 0 <= j < i && #[trigger] outcomes@[j].success && outcomes@[j].reload,
            restart == exists|j: int| 0 <= j < i && #[trigger] outcomes@[j].success && outcomes@[j].restart,
        decreases outcomes.len() - i,
    {
        let o = outcomes[i];
        if o.success && o.reload {
            reload = true;
        }
        if o.success && o.restart {
            restart = true;
        }
        proof {
            assert(outcomes@[i as int] == o);
        }
        i = i + 1;
    }
    (reload, restart)
}

/// What follows a pad's actions.
#[derive(Debug, Clone, PartialEq, Eq)]
pub enum NextStep {
    /// Restart the application, opening this board if any.
    Restart(Option<String>),
    /// Show this board.
    ShowBoard(String),
    /// Nothing more.
    Stay,
}

/// What follows a pad's actions, once the settings were reloaded if asked: a
/// restart when asked, towards the pad's board; else the pad's board when the
/// settings have it; else nothing.
pub fn next_step(settings: &Settings, restart: bool, pad_board: Option<String>) -> (r: NextStep)
    ensures
        restart ==> r == NextStep::Restart(pad_board),
        !restart ==> match pad_board {
            Some(n) => if board_named(settings, n@) is Some {
                r matches NextStep::ShowBoard(m) && m@ == n@
            } else {
                r == NextStep::Stay
            },
            None => r == NextStep::Stay,
        },
{
    if restart {
        return NextStep::Restart(pad_board);
    }
    match pad_board {
        Some(n) => {
            proof {
                lemma_name_position(board_names(settings.boards_v()), n@);
            }
            match settings.get_board(n.as_str()) {
                Ok(b) => {
                    proof {
                        let k = name_position(board_names(settings.boards_v()), n@)->0;
                        assert(board_names(settings.boards_v())[k] == settings.boards_v()[k].name);
                    }
                    NextStep::ShowBoard(b.name)
                },
                Err(_) => NextStep::Stay,
            }
        },
        None => NextStep::Stay,
    }
}

} // verus!
