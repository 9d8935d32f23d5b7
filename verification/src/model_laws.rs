//! That models are of what they are called: what holds of a model holds of the value itself.
use crate::attach_input::{ActionView, AttachInputAction, Hotkey};
use crate::client::attach::{block_inputs, AttachInput, InputView};
use crate::client::lifecycle::{Replacement, ReplacementView, Restart, RestartView};
use crate::overlay::{
    AttachOverlay, OutcomeView, OverlayEffect, OverlayEffectView, OverlayOutcome,
};
use crate::picker::{
    EffectView, ModeView, PickerEffect, PickerMode, PickerRow, RowView, SessionPicker,
};
use crate::switcher::{effect_of, SwitchEffect};
use crate::text::opt_view;
use crate::tui::app::{
    ComposerRow, ComposerRowView, FocusTarget, FocusView, HistoryPlan, HistoryPlanView, PtyPlan,
    PtyPlanView, RuntimeApp, RuntimeEffect, RuntimeEffectView,
};
use crate::tui::pty::{EventView, FocusedPty, PtyEvent};
use vstd::prelude::*;

verus! {

/// What the full-screen view asks for is what its model says.
pub proof fn view_effects_are_modelled(
    effect: RuntimeEffect,
    pty: PtyPlan,
    history: HistoryPlan,
    focus: FocusTarget,
    row: ComposerRow,
)
    ensures
        match effect {
            RuntimeEffect::Stay => effect@ == RuntimeEffectView::Stay,
            RuntimeEffect::Quit => effect@ == RuntimeEffectView::Quit,
            RuntimeEffect::SendInput(data) => effect@ == RuntimeEffectView::SendInput(data@),
            RuntimeEffect::LoadDiff(id) => effect@ == RuntimeEffectView::LoadDiff(id@),
            RuntimeEffect::Stop(id) => effect@ == RuntimeEffectView::Stop(id@),
            RuntimeEffect::Create { title, agent, model } => effect@ is Create && effect@->agent
                == agent@ && effect@->title == opt_view(title) && effect@->model == opt_view(model),
        },
        match pty {
            PtyPlan::Keep => pty@ == PtyPlanView::Keep,
            PtyPlan::Stop => pty@ == PtyPlanView::Stop,
            PtyPlan::Attach(id) => pty@ == PtyPlanView::Attach(id@),
        },
        match history {
            HistoryPlan::Keep => history@ == HistoryPlanView::Keep,
            HistoryPlan::Load(id, at) => history@ == HistoryPlanView::Load(id@, at),
        },
        match focus {
            FocusTarget::Coordinator => focus@ == FocusView::Coordinator,
            FocusTarget::Worker(id) => focus@ == FocusView::Worker(id@),
        },
        match row {
            ComposerRow::Create => row@ == ComposerRowView::Create,
            ComposerRow::Session(id) => row@ == ComposerRowView::Session(id@),
        },
{
}

/// What the full-screen view holds is what its model says.
pub proof fn view_is_modelled(app: RuntimeApp, pty: FocusedPty)
    ensures
        app@.sessions == app.sessions@,
        app@.focus == app.focus@,
        app@.leader_pending == app.leader_pending,
        app@.modal == app.modal,
        app@.palette_query == app.palette_query@,
        app@.palette_selected == app.palette_selected,
        app@.composer.active == app.composer.active,
        app@.composer.query == app.composer.query@,
        app@.composer.agent_input == app.composer.agent_input@,
        app@.composer.selected == app.composer.selected,
        app@.composer.field == app.composer.field,
        app@.diff_text == app.diff_text@,
        app@.diff_scroll == app.diff_scroll,
        app@.detail_text == app.detail_text@,
        app@.detail_scroll == app.detail_scroll,
        app@.toast == opt_view(app.toast),
        app@.pty is Some <==> app.pty is Some,
        app@.history == app.focused_history@,
        pty@.session_id == pty.session_id@,
        pty@.screen == pty.terminal@,
        pty@.connected == pty.connected,
        pty@.last_error == opt_view(pty.last_error),
{
}

/// What the picker asks for and shows is what its model says.
pub proof fn picker_is_modelled(
    effect: PickerEffect,
    mode: PickerMode,
    row: PickerRow,
    picker: SessionPicker,
)
    ensures
        match effect {
            PickerEffect::Stay => effect@ == EffectView::Stay,
            PickerEffect::Leave(id) => effect@ == EffectView::Leave(opt_view(id)),
            PickerEffect::LoadDiff(id) => effect@ == EffectView::LoadDiff(id@),
            PickerEffect::Merge(id) => effect@ == EffectView::Merge(id@),
            PickerEffect::Remove(id) => effect@ == EffectView::Remove(id@),
            PickerEffect::Create { name, agent, model } => effect@ is Create && effect@->agent
                == agent@ && effect@->name == opt_view(name) && effect@->model == opt_view(model),
        },
        match mode {
            PickerMode::Browse => mode@ == ModeView::Browse,
            PickerMode::CreateAgentSelect { selected } => mode@ == (ModeView::CreateAgentSelect {
                selected: selected as int,
            }),
            PickerMode::SessionActions { session_id, selected } => mode@ == (
            ModeView::SessionActions { session_id: session_id@, selected: selected as int }),
            PickerMode::DiffView { session_id } => mode@ == (ModeView::DiffView {
                session_id: session_id@,
            }),
            PickerMode::DeleteConfirm { session_id, selected } => mode@ == (
            ModeView::DeleteConfirm { session_id: session_id@, selected: selected as int }),
        },
        match row {
            PickerRow::Create => row@ == RowView::Create,
            PickerRow::Session(id) => row@ == RowView::Session(id@),
        },
        picker@.sessions == picker.sessions@,
        picker@.query == picker.composer.query@,
        picker@.selected == picker.composer.selected,
        picker@.mode == picker.mode@,
        picker@.detail_text == picker.detail_text@,
        picker@.detail_scroll == picker.detail_scroll,
        picker@.agents.len() == picker.create_agents@.len(),
        forall|i: int|
            0 <= i < picker.create_agents@.len() ==> #[trigger] picker@.agents[i]
                == picker.create_agents@[i]@,
        picker.toast is None <==> picker@.toast is None,
        picker.toast matches Some(toast) ==> picker@.toast->0.kind == toast.kind
            && picker@.toast->0.message == toast.message@,
{
}

/// What the overlay and the list of sessions ask for is what their models say.
pub proof fn overlay_is_modelled(
    effect: OverlayEffect,
    outcome: OverlayOutcome,
    overlay: AttachOverlay,
    switch: SwitchEffect,
)
    ensures
        match effect {
            OverlayEffect::Stay => effect@ == OverlayEffectView::Stay,
            OverlayEffect::Finish(end) => effect@ == OverlayEffectView::Finish(end@),
            OverlayEffect::LoadSessions => effect@ == OverlayEffectView::LoadSessions,
            OverlayEffect::LoadSession => effect@ == OverlayEffectView::LoadSession,
            OverlayEffect::LoadDiff => effect@ == OverlayEffectView::LoadDiff,
            OverlayEffect::Stop => effect@ == OverlayEffectView::Stop,
            OverlayEffect::Create { name, agent, model } => effect@ is Create && effect@->agent
                == agent@ && effect@->name == opt_view(name) && effect@->model == opt_view(model),
        },
        match outcome {
            OverlayOutcome::Close => outcome@ == OutcomeView::Close,
            OverlayOutcome::ForwardInput(data) => outcome@ == OutcomeView::ForwardInput(data@),
            OverlayOutcome::SwitchSession(id) => outcome@ == OutcomeView::SwitchSession(id@),
        },
        overlay@.session_id == overlay.session_id@,
        overlay@.sessions == overlay.sessions@,
        overlay@.mode == overlay.mode,
        overlay@.palette_query == overlay.palette_query@,
        overlay@.palette_selected == overlay.palette_selected,
        overlay@.switcher_query == overlay.switcher_query@,
        overlay@.switcher_selected == overlay.switcher_selected,
        overlay@.name_input == overlay.name_input@,
        overlay@.agent_input == overlay.agent_input@,
        overlay@.detail_text == overlay.detail_text@,
        overlay@.detail_scroll == overlay.detail_scroll,
        overlay@.toast == opt_view(overlay.toast),
        match switch {
            SwitchEffect::Stay => effect_of(switch) is Stay,
            SwitchEffect::Cancel => effect_of(switch) is Cancel,
            SwitchEffect::Switch(id) => effect_of(switch) == crate::switcher::EffectView::Switch(
                id@,
            ),
        },
        opt_view(None) is None,
{
}

/// What is typed, what a connection says and how far a restart has come is what their models say.
pub proof fn steps_are_modelled(
    action: AttachInputAction,
    input: AttachInput,
    event: PtyEvent,
    restart: Restart,
    replacement: Replacement,
)
    ensures
        match action {
            AttachInputAction::Data(data) => action@ == ActionView::Data(data@),
            AttachInputAction::Detach => action@ == ActionView::Key(Hotkey::Detach),
            AttachInputAction::PreviousSession => action@ == ActionView::Key(
                Hotkey::PreviousSession,
            ),
            AttachInputAction::NextSession => action@ == ActionView::Key(Hotkey::NextSession),
        },
        match input {
            AttachInput::Data(data) => input@ == InputView::Data(data@),
            AttachInput::Detach => input@ == InputView::Detach,
        },
        match event {
            PtyEvent::Snapshot(bytes) => event@ == EventView::Snapshot(bytes@),
            PtyEvent::Output(bytes) => event@ == EventView::Output(bytes@),
            PtyEvent::Ended(text) => event@ == EventView::Ended(text@),
            PtyEvent::Error(text) => event@ == EventView::Error(text@),
            PtyEvent::Closed => event@ == EventView::Closed,
        },
        match restart {
            Restart::Connecting => restart@ is Connecting,
            Restart::Asking => restart@ is Asking,
            Restart::Stopping => restart@ is Stopping,
            Restart::Starting => restart@ is Starting,
            Restart::Checking => restart@ is Checking,
            Restart::Finished => restart@ is Finished,
            Restart::Refused(message) => restart@ == RestartView::Refused(message@),
            Restart::Broken => restart@ is Broken,
        },
        match replacement {
            Replacement::Checking => replacement@ is Checking,
            Replacement::Asking(info) => replacement@ == ReplacementView::Asking(info),
            Replacement::Stopping => replacement@ is Stopping,
            Replacement::Ending => replacement@ is Ending,
            Replacement::Waiting => replacement@ is Waiting,
            Replacement::Starting => replacement@ is Starting,
            Replacement::Verifying => replacement@ is Verifying,
            Replacement::Finished => replacement@ is Finished,
            Replacement::Refused(message) => replacement@ == ReplacementView::Refused(message@),
            Replacement::Broken => replacement@ is Broken,
        },
{
}

/// A block of input asks for what stands before the byte that detaches, if anything does, and for
/// detaching, if there is such a byte or nothing at all.
pub proof fn blocks_ask_for_no_empty_input(bytes: Seq<u8>, i: int)
    requires
        0 <= i < block_inputs(bytes).len(),
    ensures
        block_inputs(bytes)[i] matches InputView::Data(data) ==> data.len() > 0 && i == 0,
        block_inputs(bytes).len() <= 2,
{
}

} // verus!
