//! What the keys of the overlay of an attached client lead to, and what they never lead to.
use crate::keys::{KeyCode, KeyEvent, KeyModifiers};
use crate::overlay::{
    palette, OutcomeView, OverlayCommand, OverlayEffectView, OverlayMode, OverlayView,
};
use crate::session::is_session_name;
use crate::session::SessionRecord;
use crate::text::trimmed;
use vstd::prelude::*;

verus! {

/// A key without others.
pub open spec fn plain(code: KeyCode) -> KeyEvent {
    KeyEvent { code, modifiers: KeyModifiers { shift: false, control: false, other: false } }
}

/// Whether a key picks a command of the palette.
pub open spec fn picks(overlay: OverlayView, key: KeyEvent, command: OverlayCommand) -> bool {
    overlay.mode == OverlayMode::Palette && key.code == KeyCode::Enter && 0
        <= overlay.palette_selected < overlay.commands().len()
        && overlay.commands()[overlay.palette_selected].command == command
}

/// The session is stopped by Enter at the question whether to stop it, and by nothing else. The
/// question comes up where that command is picked, and nowhere else, and asks for nothing yet.
pub proof fn session_is_stopped_when_asked(overlay: OverlayView, key: KeyEvent)
    requires
        0 <= overlay.palette_selected,
    ensures
        overlay.key(key).1 == OverlayEffectView::Stop <==> overlay.mode == OverlayMode::StopConfirm
            && key.code == KeyCode::Enter,
        overlay.mode != OverlayMode::StopConfirm ==> (overlay.key(key).0.mode
            == OverlayMode::StopConfirm <==> picks(overlay, key, OverlayCommand::StopSession)),
        picks(overlay, key, OverlayCommand::StopSession) ==> overlay.key(key) == (
            OverlayView { mode: OverlayMode::StopConfirm, ..overlay },
            OverlayEffectView::Stay,
        ),
        overlay.mode == OverlayMode::StopConfirm && key.code != KeyCode::Esc ==> overlay.key(key).0
            == overlay,
        overlay.mode == OverlayMode::StopConfirm && key.code != KeyCode::Enter ==> overlay.key(
            key,
        ).1 == OverlayEffectView::Stay,
{
}

/// Sessions, the session and its changes are loaded where the command for it is picked from the
/// palette, and nowhere else. A new session is asked for with nothing typed as its name.
pub proof fn palette_does_what_is_picked(overlay: OverlayView, key: KeyEvent)
    requires
        0 <= overlay.palette_selected,
    ensures
        overlay.key(key).1 == OverlayEffectView::LoadSessions <==> picks(
            overlay,
            key,
            OverlayCommand::SessionSwitcher,
        ),
        overlay.key(key).1 == OverlayEffectView::LoadSession <==> picks(
            overlay,
            key,
            OverlayCommand::GitStatus,
        ),
        overlay.key(key).1 == OverlayEffectView::LoadDiff <==> picks(
            overlay,
            key,
            OverlayCommand::Diff,
        ),
        picks(overlay, key, OverlayCommand::NewSession) ==> {
            let (after, effect) = overlay.key(key);
            &&& effect == OverlayEffectView::Stay
            &&& after.mode == (OverlayMode::NewSession { edit_agent: false })
            &&& after.name_input.len() == 0
            &&& after.agent_input == "codex"@
            &&& after.sessions == overlay.sessions
        },
{
}

/// The overlay is closed by Escape at the palette, passes Ctrl-b on to the session from there, and
/// goes to another session by Enter at one of those that the switcher shows; by nothing else.
pub proof fn overlay_is_left(overlay: OverlayView, key: KeyEvent, id: Seq<char>, data: Seq<u8>)
    requires
        0 <= overlay.switcher_selected,
    ensures
        overlay.key(key).1 == OverlayEffectView::Finish(OutcomeView::Close) <==> overlay.mode
            == OverlayMode::Palette && key.code == KeyCode::Esc,
        overlay.key(key).1 == OverlayEffectView::Finish(OutcomeView::ForwardInput(data))
            <==> overlay.mode == OverlayMode::Palette && key.code == KeyCode::Char('b')
            && key.modifiers.control && data == seq![2u8],
        overlay.key(key).1 == OverlayEffectView::Finish(OutcomeView::SwitchSession(id))
            <==> overlay.mode == OverlayMode::SessionSwitcher && key.code == KeyCode::Enter
            && overlay.switcher_selected < overlay.found().len()
            && overlay.found()[overlay.switcher_selected].session_id@ == id,
{
}

/// A session is created by Enter where one is asked for, with an agent and without a name that no
/// session may have. It gets what was typed, without white space around it.
pub proof fn sessions_are_created_as_typed(overlay: OverlayView, key: KeyEvent)
    requires
        0 <= overlay.palette_selected,
    ensures
        ({
            let (after, effect) = overlay.key(key);
            let name = trimmed(overlay.name_input);
            let agent = trimmed(overlay.agent_input);
            let asks = overlay.mode is NewSession && key.code == KeyCode::Enter;
            let may = agent.len() > 0 && (name.len() == 0 || is_session_name(name));
            &&& effect is Create <==> asks && may
            &&& effect matches OverlayEffectView::Create { name: named, agent: chosen, model } ==> {
                &&& chosen == agent
                &&& named is Some <==> name.len() > 0
                &&& named is Some ==> named->0 == name
                &&& model is Some <==> agent == "codex"@
                &&& model is Some ==> model->0 == "gpt-5.4"@
                &&& after == overlay
            }
            &&& asks && agent.len() == 0 ==> after.toast == Some("agent cannot be empty"@)
            &&& asks && !may ==> after.toast is Some && after == (OverlayView {
                toast: after.toast,
                ..overlay
            })
        }),
{
}

/// A character goes behind what is being typed, and Backspace takes the last one off; so do pasted
/// texts go behind it. The palette and the switcher then start at their first entry.
pub proof fn texts_are_typed(overlay: OverlayView, c: char, data: Seq<char>)
    ensures
        ({
            let typed = overlay.key(plain(KeyCode::Char(c)));
            let cut = overlay.key(plain(KeyCode::Backspace));
            let pasted = overlay.pasted(data);
            &&& typed.1 == OverlayEffectView::Stay && cut.1 == OverlayEffectView::Stay
            &&& overlay.mode == OverlayMode::Palette ==> {
                &&& typed.0 == (OverlayView {
                    palette_query: overlay.palette_query.push(c),
                    palette_selected: 0,
                    ..overlay
                })
                &&& overlay.palette_query.len() > 0 ==> cut.0 == (OverlayView {
                    palette_query: overlay.palette_query.drop_last(),
                    palette_selected: 0,
                    ..overlay
                })
                &&& pasted == (OverlayView {
                    palette_query: overlay.palette_query + data,
                    ..overlay
                })
            }
            &&& overlay.mode == OverlayMode::SessionSwitcher ==> {
                &&& typed.0 == (OverlayView {
                    switcher_query: overlay.switcher_query.push(c),
                    switcher_selected: 0,
                    ..overlay
                })
                &&& overlay.switcher_query.len() > 0 ==> cut.0 == (OverlayView {
                    switcher_query: overlay.switcher_query.drop_last(),
                    switcher_selected: 0,
                    ..overlay
                })
                &&& pasted == (OverlayView {
                    switcher_query: overlay.switcher_query + data,
                    ..overlay
                })
            }
            &&& overlay.mode == (OverlayMode::NewSession { edit_agent: false }) ==> {
                &&& typed.0 == (OverlayView { name_input: overlay.name_input.push(c), ..overlay })
                &&& overlay.name_input.len() > 0 ==> cut.0 == (OverlayView {
                    name_input: overlay.name_input.drop_last(),
                    ..overlay
                })
                &&& pasted == (OverlayView { name_input: overlay.name_input + data, ..overlay })
            }
            &&& overlay.mode == (OverlayMode::NewSession { edit_agent: true }) ==> {
                &&& typed.0 == (OverlayView { agent_input: overlay.agent_input.push(c), ..overlay })
                &&& overlay.agent_input.len() > 0 ==> cut.0 == (OverlayView {
                    agent_input: overlay.agent_input.drop_last(),
                    ..overlay
                })
                &&& pasted == (OverlayView { agent_input: overlay.agent_input + data, ..overlay })
            }
            &&& overlay.mode == OverlayMode::StopConfirm || overlay.mode == OverlayMode::Diff
                || overlay.mode == OverlayMode::GitStatus ==> typed.0 == overlay && cut.0 == overlay
                && pasted == overlay
        }),
{
}

/// Tab goes from the name to the agent of a new session and back.
pub proof fn tab_goes_to_the_other_field(overlay: OverlayView, edit_agent: bool)
    requires
        overlay.mode == (OverlayMode::NewSession { edit_agent }),
    ensures
        overlay.key(plain(KeyCode::Tab)) == (
            OverlayView { mode: OverlayMode::NewSession { edit_agent: !edit_agent }, ..overlay },
            OverlayEffectView::Stay,
        ),
{
}

/// Where an entry or a line goes with Up and Down: one up or down, without leaving the list.
pub open spec fn one_on(at: int, count: int, down: bool) -> int {
    if down && at + 1 < count {
        at + 1
    } else if !down && at > 0 {
        at - 1
    } else {
        at
    }
}

/// In the palette and the switcher, Up and Down go to the entry above and below and stop at the
/// ends. A text moves by one line with them and by ten with the page keys.
pub proof fn lists_are_walked(overlay: OverlayView, key: KeyEvent)
    requires
        key.code == KeyCode::Up || key.code == KeyCode::Down || key.code == KeyCode::PageUp
            || key.code == KeyCode::PageDown,
        0 <= overlay.detail_scroll <= u16::MAX,
        0 <= overlay.palette_selected,
        0 <= overlay.switcher_selected,
    ensures
        ({
            let (after, effect) = overlay.key(key);
            let down = key.code == KeyCode::Down;
            let step = key.code == KeyCode::Up || down;
            let lines = match key.code {
                KeyCode::Up => -1int,
                KeyCode::Down => 1int,
                KeyCode::PageUp => -10int,
                _ => 10int,
            };
            let due = overlay.detail_scroll + lines;
            &&& effect == OverlayEffectView::Stay
            &&& overlay.mode == OverlayMode::Palette && step ==> after == (OverlayView {
                palette_selected: one_on(
                    overlay.palette_selected,
                    overlay.commands().len() as int,
                    down,
                ),
                ..overlay
            })
            &&& overlay.mode == OverlayMode::SessionSwitcher && step ==> after == (OverlayView {
                switcher_selected: one_on(
                    overlay.switcher_selected,
                    overlay.found().len() as int,
                    down,
                ),
                ..overlay
            })
            &&& overlay.mode == OverlayMode::Diff || overlay.mode == OverlayMode::GitStatus ==> after
                == (OverlayView {
                detail_scroll: if due < 0 {
                    0
                } else if due > u16::MAX {
                    u16::MAX as int
                } else {
                    due
                },
                ..overlay
            })
        }),
{
}

/// The palette has one entry for every command, under a key and a title of its own.
pub proof fn palette_names_every_command(command: OverlayCommand)
    ensures
        exists|i: int|
            0 <= i < palette().len() && (#[trigger] palette()[i]).command == command
                && palette()[i].title == (match command {
                OverlayCommand::SessionSwitcher => "Switch Session"@,
                OverlayCommand::NewSession => "New Session"@,
                OverlayCommand::GitStatus => "Session Details"@,
                OverlayCommand::Diff => "Diff"@,
                OverlayCommand::StopSession => "Stop Session"@,
            }),
        palette().len() == 5,
{
    assert(palette()[0].command == OverlayCommand::SessionSwitcher);
    assert(palette()[1].command == OverlayCommand::NewSession);
    assert(palette()[2].command == OverlayCommand::GitStatus);
    assert(palette()[3].command == OverlayCommand::Diff);
    assert(palette()[4].command == OverlayCommand::StopSession);
}

/// A refresh takes the sessions that are given and keeps everything else; the selected session of
/// the switcher is there, where there is one.
pub proof fn refreshes_keep_the_overlay(overlay: OverlayView, sessions: Seq<SessionRecord>)
    requires
        0 <= overlay.switcher_selected,
    ensures
        ({
            let after = overlay.refreshed(sessions);
            &&& after == (OverlayView {
                sessions,
                switcher_selected: after.switcher_selected,
                ..overlay
            })
            &&& overlay.switcher_selected < after.found().len() ==> after.switcher_selected
                == overlay.switcher_selected
            &&& after.found().len() > 0 ==> 0 <= after.switcher_selected < after.found().len()
            &&& overlay.switcher_selected >= after.found().len() > 0 ==> after.switcher_selected + 1
                == after.found().len()
        }),
{
}

} // verus!
