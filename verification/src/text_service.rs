//! The decisions of the TSF text service.
//!
//! The text service receives key events from TSF, hands commands to the
//! conversion engine and updates the composition in the application. What it
//! does with a key, which edit it makes of the engine's output and the steps of
//! that edit are decided here; the calls into TSF are left to the caller.
use vstd::prelude::*;

use crate::engine::{EngineCommand, EngineOutput, EngineState};
use crate::key_mapping::{
    character_key,
    commits_before_passthrough,
    consumes,
    key_command,
    map_key,
    should_commit_before_passthrough,
    should_consume_key,
    CtrlKeyConfig,
    Modifiers,
    PreservedKeySpec,
};
use crate::paths::{join_path, opt_view, path_join, PathStyle, APP_DIR};
use crate::registry::Guid;

verus! {

// === Key events ===
/// Whether the text service eats a key: the key maps to a command and the key
/// mapping consumes that command in the engine's state.
pub open spec fn takes_key(
    state: EngineState,
    vk: u16,
    modifiers: Modifiers,
    ime_on: bool,
    config: CtrlKeyConfig,
) -> bool {
    consumes(state, vk, modifiers, key_command(vk, modifiers, ime_on, config))
}

/// What `OnKeyDown` does with a key.
#[derive(Debug, Clone, Copy, PartialEq, Eq, Structural)]
pub enum KeyDownAction {
    /// Hand the command to the engine and eat the key.
    Process(EngineCommand),
    /// Commit the pending input, then let the key go on to the application.
    CommitThenPass,
    /// Let the key go on to the application.
    Pass,
}

/// The action for a key: the engine processes a key that is eaten; a key that is
/// not eaten first commits the pending input where the key mapping asks for it.
pub open spec fn key_down_plan(
    state: EngineState,
    vk: u16,
    modifiers: Modifiers,
    ime_on: bool,
    config: CtrlKeyConfig,
) -> KeyDownAction {
    let command = key_command(vk, modifiers, ime_on, config);
    if consumes(state, vk, modifiers, command) {
        KeyDownAction::Process(command->0)
    } else if commits_before_passthrough(state, command) {
        KeyDownAction::CommitThenPass
    } else {
        KeyDownAction::Pass
    }
}

/// The answer to `OnTestKeyDown`: whether the key is to be eaten.
///
/// A key is eaten when it maps to a command that does something in the engine's
/// state; in the Direct state (nothing typed yet) only character keys are eaten,
/// so that arrows, Backspace, Enter and Space reach the application.
pub fn test_key_down(
    state: EngineState,
    vk: u16,
    modifiers: &Modifiers,
    ime_on: bool,
    config: &CtrlKeyConfig,
) -> (r: bool)
    ensures
        r == takes_key(state, vk, *modifiers, ime_on, *config),
{
    let command = map_key(vk, modifiers, ime_on, config);
    should_consume_key(state, vk, modifiers, &command)
}

/// The action `OnKeyDown` takes for a key (see `key_down_plan`).
pub fn key_down_action(
    state: EngineState,
    vk: u16,
    modifiers: &Modifiers,
    ime_on: bool,
    config: &CtrlKeyConfig,
) -> (r: KeyDownAction)
    ensures
        r == key_down_plan(state, vk, *modifiers, ime_on, *config),
{
    let command = map_key(vk, modifiers, ime_on, config);
    if should_consume_key(state, vk, modifiers, &command) {
        match command {
            Some(c) => KeyDownAction::Process(c),
            None => KeyDownAction::Pass,
        }
    } else if should_commit_before_passthrough(state, &command) {
        KeyDownAction::CommitThenPass
    } else {
        KeyDownAction::Pass
    }
}

/// The modifier state read from `GetKeyState`: a key is down when the high bit of
/// its state is set, that is, when the state is negative.
pub fn modifiers_from_key_states(shift_state: i16, ctrl_state: i16, alt_state: i16) -> (m:
    Modifiers)
    ensures
        m.shift == (shift_state < 0),
        m.ctrl == (ctrl_state < 0),
        m.alt == (alt_state < 0),
{
    Modifiers { shift: shift_state < 0, ctrl: ctrl_state < 0, alt: alt_state < 0 }
}

/// The engine state after a `Cancel`, as the engine's state table gives it: a
/// composition is discarded (Direct), a conversion goes back to composing, and
/// Direct stays Direct.
pub open spec fn after_cancel(state: EngineState) -> EngineState {
    match state {
        EngineState::Direct => EngineState::Direct,
        EngineState::Composing => EngineState::Direct,
        EngineState::Converting => EngineState::Composing,
    }
}

/// The engine state after `n` cancels.
pub open spec fn after_cancels(state: EngineState, n: nat) -> EngineState
    decreases n,
{
    if n == 0 {
        state
    } else {
        after_cancel(after_cancels(state, (n - 1) as nat))
    }
}

/// The cancels that leave the engine in the Direct state with no input pending:
/// one from Direct or Composing, two from Converting (the conversion, then the
/// reading).
pub open spec fn cancels_to_direct(state: EngineState) -> Seq<EngineCommand> {
    match state {
        EngineState::Converting => seq![EngineCommand::Cancel, EngineCommand::Cancel],
        _ => seq![EngineCommand::Cancel],
    }
}

/// What toggling the IME leads to: its new on/off state, and the commands to hand
/// to the engine, in order (turning the IME off cancels all pending input).
#[derive(Debug, Clone, PartialEq, Eq)]
pub struct Toggle {
    pub ime_on: bool,
    pub commands: Vec<EngineCommand>,
}

/// What toggling an IME that is on (or off) leads to, with the engine in `state`.
pub open spec fn toggled(ime_on: bool, state: EngineState) -> (bool, Seq<EngineCommand>) {
    (
        !ime_on,
        if ime_on {
            cancels_to_direct(state)
        } else {
            seq![]
        },
    )
}

/// Toggles the IME: it switches on or off; switching off cancels until the engine,
/// now in `state`, holds no pending input. After each command the caller updates
/// the composition from the engine's output.
pub fn toggle_ime(ime_on: bool, state: EngineState) -> (t: Toggle)
    ensures
        (t.ime_on, t.commands@) == toggled(ime_on, state),
{
    let mut commands: Vec<EngineCommand> = Vec::new();
    if ime_on {
        commands.push(EngineCommand::Cancel);
        if matches!(state, EngineState::Converting) {
            commands.push(EngineCommand::Cancel);
        }
    }
    proof {
        if ime_on {
            assert(commands@ =~= cancels_to_direct(state));
        } else {
            assert(commands@ =~= seq![]);
        }
    }
    Toggle { ime_on: !ime_on, commands }
}

/// Whether a GUID is one of the registered preserved keys (`OnPreservedKey`).
pub fn is_registered_key(registered: &Vec<(Guid, PreservedKeySpec)>, guid: &Guid) -> (r: bool)
    ensures
        r == exists|i: int| 0 <= i < registered@.len() && (#[trigger] registered@[i]).0 == *guid,
{
    let mut i: usize = 0;
    while i < registered.len()
        invariant
            i <= registered@.len(),
            forall|j: int| 0 <= j < i ==> (#[trigger] registered@[j]).0 != *guid,
        decreases registered@.len() - i,
    {
        if same_guid(&registered[i].0, guid) {
            return true;
        }
        i = i + 1;
    }
    false
}

/// Whether two GUIDs are equal.
fn same_guid(a: &Guid, b: &Guid) -> (r: bool)
    ensures
        r == (*a == *b),
{
    if a.data1 != b.data1 || a.data2 != b.data2 || a.data3 != b.data3 {
        return false;
    }
    let mut i: usize = 0;
    while i < 8
        invariant
            i <= 8,
            forall|j: int| 0 <= j < i ==> a.data4[j] == b.data4[j],
        decreases 8 - i,
    {
        if a.data4[i] != b.data4[i] {
            return false;
        }
        i = i + 1;
    }
    assert(a.data4 =~= b.data4);
    true
}

// === Session ===
/// The state of the text service between activation and deactivation: whether
/// the IME is on, the client id TSF gave, and the preserved keys it registered.
pub struct Session {
    pub ime_on: bool,
    pub client_id: u32,
    pub preserved: Vec<(Guid, PreservedKeySpec)>,
}

/// The preserved keys to register: each key paired with the GUID at its position,
/// as far as both lists go.
pub fn preserved_key_requests(specs: &Vec<PreservedKeySpec>, guids: &Vec<Guid>) -> (r: Vec<
    (Guid, PreservedKeySpec),
>)
    ensures
        r@.len() == if specs@.len() < guids@.len() {
            specs@.len()
        } else {
            guids@.len()
        },
        forall|i: int| 0 <= i < r@.len() ==> #[trigger] r@[i] == (guids@[i], specs@[i]),
{
    let mut r: Vec<(Guid, PreservedKeySpec)> = Vec::new();
    let mut i: usize = 0;
    while i < specs.len() && i < guids.len()
        invariant
            i <= specs@.len(),
            i <= guids@.len(),
            r@.len() == i,
            forall|j: int| 0 <= j < i ==> #[trigger] r@[j] == (guids@[j], specs@[j]),
        decreases specs@.len() - i,
    {
        r.push((guids[i], specs[i]));
        i = i + 1;
    }
    r
}

/// Whether the registration of the `i`-th request succeeded.
pub open spec fn was_accepted(accepted: Seq<bool>, i: int) -> bool {
    0 <= i < accepted.len() && accepted[i]
}

/// The requests whose registration succeeded, in their order.
pub open spec fn kept_keys(requests: Seq<(Guid, PreservedKeySpec)>, accepted: Seq<bool>) -> Seq<
    (Guid, PreservedKeySpec),
>
    decreases requests.len(),
{
    if requests.len() == 0 {
        seq![]
    } else {
        let rest = kept_keys(requests.drop_last(), accepted);
        if was_accepted(accepted, requests.len() - 1) {
            rest.push(requests.last())
        } else {
            rest
        }
    }
}

impl Session {
    /// The session after `ActivateEx`: the IME is on, the client id is `tid`, and
    /// the preserved keys are the requests whose registration succeeded
    /// (`accepted[i]` tells for the `i`-th request; a missing entry counts as failed).
    pub fn activate(
        tid: u32,
        requests: &Vec<(Guid, PreservedKeySpec)>,
        accepted: &Vec<bool>,
    ) -> (s: Session)
        ensures
            s.ime_on,
            s.client_id == tid,
            s.preserved@ == kept_keys(requests@, accepted@),
    {
        let mut kept: Vec<(Guid, PreservedKeySpec)> = Vec::new();
        let mut i: usize = 0;
        while i < requests.len()
            invariant
                i <= requests@.len(),
                kept@ == kept_keys(requests@.subrange(0, i as int), accepted@),
            decreases requests@.len() - i,
        {
            assert(requests@.subrange(0, i + 1).drop_last() =~= requests@.subrange(0, i as int));
            if i < accepted.len() && accepted[i] {
                kept.push(requests[i]);
            }
            i = i + 1;
        }
        assert(requests@.subrange(0, requests@.len() as int) =~= requests@);
        Session { ime_on: true, client_id: tid, preserved: kept }
    }

    /// `Deactivate`: the IME goes off and the preserved keys are handed back, in
    /// order, to be unregistered; none stays registered.
    pub fn deactivate(&mut self) -> (released: Vec<(Guid, PreservedKeySpec)>)
        ensures
            released@ == old(self).preserved@,
            final(self).preserved@.len() == 0,
            !final(self).ime_on,
            final(self).client_id == old(self).client_id,
    {
        let mut released: Vec<(Guid, PreservedKeySpec)> = Vec::new();
        std::mem::swap(&mut released, &mut self.preserved);
        self.ime_on = false;
        released
    }
}

// === Composition edits ===
/// An edit of the composition, made inside a TSF edit session.
#[derive(Debug, Clone)]
pub enum EditAction {
    /// Start or update the composition with `text` and put the caret at `cursor_pos`.
    SetText { text: String, cursor_pos: usize },
    /// Write the text, commit it and end the composition.
    CommitText(String),
    /// Commit `committed`, end the composition, and start a new one showing
    /// `display` with the caret at `cursor_pos`.
    CommitAndCompose { committed: String, display: String, cursor_pos: usize },
    /// End the composition.
    EndComposition,
}

/// The abstract form of an `EditAction`.
pub ghost enum ActionView {
    SetText { text: Seq<char>, cursor_pos: nat },
    CommitText(Seq<char>),
    CommitAndCompose { committed: Seq<char>, display: Seq<char>, cursor_pos: nat },
    EndComposition,
}

impl View for EditAction {
    type V = ActionView;

    open spec fn view(&self) -> ActionView {
        match self {
            EditAction::SetText { text, cursor_pos } => ActionView::SetText {
                text: text@,
                cursor_pos: *cursor_pos as nat,
            },
            EditAction::CommitText(text) => ActionView::CommitText(text@),
            EditAction::CommitAndCompose { committed, display, cursor_pos } =>
                ActionView::CommitAndCompose {
                committed: committed@,
                display: display@,
                cursor_pos: *cursor_pos as nat,
            },
            EditAction::EndComposition => ActionView::EndComposition,
        }
    }
}

/// The edit that the engine's output calls for: commit and compose again when it
/// both commits and shows text, commit when it only commits, show when it only
/// shows, and end a composition that is still open when it does neither.
pub open spec fn planned_edit(
    committed: Seq<char>,
    display: Seq<char>,
    cursor_pos: nat,
    composition_active: bool,
) -> Option<ActionView> {
    if committed.len() > 0 && display.len() > 0 {
        Some(ActionView::CommitAndCompose { committed, display, cursor_pos })
    } else if committed.len() > 0 {
        Some(ActionView::CommitText(committed))
    } else if display.len() > 0 {
        Some(ActionView::SetText { text: display, cursor_pos })
    } else if composition_active {
        Some(ActionView::EndComposition)
    } else {
        None
    }
}

/// The edit to make for the engine's output, or `None` when there is nothing to do.
pub fn plan_edit(output: &EngineOutput, composition_active: bool) -> (r: Option<EditAction>)
    ensures
        match r {
            Some(a) => planned_edit(
                output.committed@,
                output.display@,
                output.cursor_pos as nat,
                composition_active,
            ) == Some(a@),
            None => planned_edit(
                output.committed@,
                output.display@,
                output.cursor_pos as nat,
                composition_active,
            ) is None,
        },
{
    let has_committed = !output.committed.as_str().is_empty();
    let has_display = !output.display.as_str().is_empty();
    if has_committed && has_display {
        // A candidate is committed and new input starts (an InsertChar while Converting).
        Some(
            EditAction::CommitAndCompose {
                committed: output.committed.clone(),
                display: output.display.clone(),
                cursor_pos: output.cursor_pos,
            },
        )
    } else if has_committed {
        Some(EditAction::CommitText(output.committed.clone()))
    } else if has_display {
        Some(EditAction::SetText { text: output.display.clone(), cursor_pos: output.cursor_pos })
    } else if composition_active {
        Some(EditAction::EndComposition)
    } else {
        None
    }
}

/// One step of an edit session.
#[derive(Debug, Clone)]
pub enum EditStep {
    /// Start a composition at the selection unless one is active.
    EnsureComposition,
    /// Replace the text of the composition.
    WriteText(String),
    /// Put the caret `n` characters after the start of the composition.
    SetCursor(usize),
    /// End the composition.
    FinishComposition,
}

/// The abstract form of an `EditStep`.
pub ghost enum StepView {
    EnsureComposition,
    WriteText(Seq<char>),
    SetCursor(nat),
    FinishComposition,
}

impl View for EditStep {
    type V = StepView;

    open spec fn view(&self) -> StepView {
        match self {
            EditStep::EnsureComposition => StepView::EnsureComposition,
            EditStep::WriteText(t) => StepView::WriteText(t@),
            EditStep::SetCursor(n) => StepView::SetCursor(*n as nat),
            EditStep::FinishComposition => StepView::FinishComposition,
        }
    }
}

/// The steps of an edit. Committing text moves the caret to the end of the
/// committed text before the composition ends, so that the caret stays after it.
pub open spec fn planned_steps(a: ActionView) -> Seq<StepView> {
    match a {
        ActionView::SetText { text, cursor_pos } => seq![
            StepView::EnsureComposition,
            StepView::WriteText(text),
            StepView::SetCursor(cursor_pos),
        ],
        ActionView::CommitText(text) => seq![
            StepView::EnsureComposition,
            StepView::WriteText(text),
            StepView::SetCursor(text.len()),
            StepView::FinishComposition,
        ],
        ActionView::CommitAndCompose { committed, display, cursor_pos } => seq![
            StepView::EnsureComposition,
            StepView::WriteText(committed),
            StepView::SetCursor(committed.len()),
            StepView::FinishComposition,
            StepView::EnsureComposition,
            StepView::WriteText(display),
            StepView::SetCursor(cursor_pos),
        ],
        ActionView::EndComposition => seq![StepView::FinishComposition],
    }
}

/// The views of a sequence of steps.
pub open spec fn step_views(steps: Seq<EditStep>) -> Seq<StepView> {
    steps.map_values(|s: EditStep| s@)
}

/// The steps that `DoEditSession` takes for an edit; the caller runs them in
/// order and stops at the first that fails.
pub fn edit_steps(action: &EditAction) -> (r: Vec<EditStep>)
    ensures
        step_views(r@) == planned_steps(action@),
{
    let mut steps: Vec<EditStep> = Vec::new();
    match action {
        EditAction::SetText { text, cursor_pos } => {
            steps.push(EditStep::EnsureComposition);
            steps.push(EditStep::WriteText(text.clone()));
            steps.push(EditStep::SetCursor(*cursor_pos));
        },
        EditAction::CommitText(text) => {
            let caret = text.as_str().unicode_len();
            steps.push(EditStep::EnsureComposition);
            steps.push(EditStep::WriteText(text.clone()));
            steps.push(EditStep::SetCursor(caret));
            steps.push(EditStep::FinishComposition);
        },
        EditAction::CommitAndCompose { committed, display, cursor_pos } => {
            let committed_caret = committed.as_str().unicode_len();
            steps.push(EditStep::EnsureComposition);
            steps.push(EditStep::WriteText(committed.clone()));
            steps.push(EditStep::SetCursor(committed_caret));
            steps.push(EditStep::FinishComposition);
            steps.push(EditStep::EnsureComposition);
            steps.push(EditStep::WriteText(display.clone()));
            steps.push(EditStep::SetCursor(*cursor_pos));
        },
        EditAction::EndComposition => {
            steps.push(EditStep::FinishComposition);
        },
    }
    assert(step_views(steps@) =~= planned_steps(action@));
    steps
}

/// The path of `filename` in `%APPDATA%\enpitsu`, with the current directory
/// standing for an unset `APPDATA`.
pub fn appdata_path_from(appdata: Option<&str>, filename: &str) -> (r: String)
    ensures
        r@ == path_join(
            PathStyle::Windows,
            path_join(
                PathStyle::Windows,
                match appdata {
                    Some(a) => a@,
                    None => seq!['.'],
                },
                APP_DIR@,
            ),
            filename@,
        ),
{
    proof {
        reveal_strlit(".");
        assert("."@ =~= seq!['.']);
    }
    let base = match appdata {
        Some(a) => a,
        None => ".",
    };
    let dir = join_path(PathStyle::Windows, base, APP_DIR);
    join_path(PathStyle::Windows, dir.as_str(), filename)
}

/// The system dictionary the text service loads: the configured path, else
/// `dict/SKK-JISYO.L` next to the DLL, when the DLL's directory is known.
pub open spec fn service_dict_choice(configured: Option<Seq<char>>, dll_dir: Option<Seq<char>>) -> Option<
    Seq<char>,
> {
    match configured {
        Some(p) => Some(p),
        None => match dll_dir {
            Some(d) => Some(
                path_join(
                    PathStyle::Windows,
                    path_join(PathStyle::Windows, d, "dict"@),
                    "SKK-JISYO.L"@,
                ),
            ),
            None => None,
        },
    }
}

/// Chooses the system dictionary of the text service.
pub fn service_dict_path(configured: Option<&str>, dll_dir: Option<&str>) -> (r: Option<String>)
    ensures
        match r {
            Some(p) => service_dict_choice(opt_view(configured), opt_view(dll_dir)) == Some(p@),
            None => service_dict_choice(opt_view(configured), opt_view(dll_dir)) is None,
        },
{
    match configured {
        Some(p) => Some(p.to_owned()),
        None => match dll_dir {
            Some(d) => {
                let dict = join_path(PathStyle::Windows, d, "dict");
                Some(join_path(PathStyle::Windows, dict.as_str(), "SKK-JISYO.L"))
            },
            None => None,
        },
    }
}

// === Laws ===
/// `OnTestKeyDown` and `OnKeyDown` agree: a key is eaten exactly when `OnKeyDown`
/// hands it to the engine, and what is handed is the key's mapped command.
pub proof fn lemma_test_key_down_agrees_with_key_down(
    state: EngineState,
    vk: u16,
    modifiers: Modifiers,
    ime_on: bool,
    config: CtrlKeyConfig,
)
    ensures
        takes_key(state, vk, modifiers, ime_on, config) <==> key_down_plan(
            state,
            vk,
            modifiers,
            ime_on,
            config,
        ) is Process,
        key_down_plan(state, vk, modifiers, ime_on, config) is Process ==> key_command(
            vk,
            modifiers,
            ime_on,
            config,
        ) == Some(key_down_plan(state, vk, modifiers, ime_on, config)->Process_0),
{
}

/// A key the IME leaves alone (unmapped, IME off, Alt, Ctrl+Shift) always passes
/// untouched; in the Direct state exactly the character keys are eaten, and nothing
/// is ever committed there.
pub proof fn lemma_unmapped_keys_pass(
    state: EngineState,
    vk: u16,
    modifiers: Modifiers,
    ime_on: bool,
    config: CtrlKeyConfig,
)
    ensures
        key_command(vk, modifiers, ime_on, config) is None ==> key_down_plan(
            state,
            vk,
            modifiers,
            ime_on,
            config,
        ) == KeyDownAction::Pass,
        ime_on && key_command(vk, modifiers, ime_on, config) is Some ==> (takes_key(
            EngineState::Direct,
            vk,
            modifiers,
            ime_on,
            config,
        ) == character_key(vk, modifiers)),
        key_down_plan(EngineState::Direct, vk, modifiers, ime_on, config)
            != KeyDownAction::CommitThenPass,
{
}

/// The keys that commit before passing are the candidate keys while composing and
/// the cursor keys while converting; none of them is eaten.
pub proof fn lemma_commit_then_pass_keys(
    state: EngineState,
    vk: u16,
    modifiers: Modifiers,
    ime_on: bool,
    config: CtrlKeyConfig,
)
    ensures
        key_down_plan(state, vk, modifiers, ime_on, config) == KeyDownAction::CommitThenPass
            <==> commits_before_passthrough(state, key_command(vk, modifiers, ime_on, config)),
        key_down_plan(state, vk, modifiers, ime_on, config) == KeyDownAction::CommitThenPass
            ==> !takes_key(state, vk, modifiers, ime_on, config),
{
}

/// Toggling twice gives back the first on/off state; switching on hands no
/// command; switching off hands only cancels, and after them the engine is in the
/// Direct state, whatever state it was in.
pub proof fn lemma_toggle_twice(ime_on: bool, state: EngineState, later: EngineState)
    ensures
        toggled(toggled(ime_on, state).0, later).0 == ime_on,
        toggled(false, state).1.len() == 0,
        forall|i: int|
            0 <= i < toggled(true, state).1.len() ==> toggled(true, state).1[i]
                == EngineCommand::Cancel,
        after_cancels(state, toggled(true, state).1.len()) == EngineState::Direct,
{
    let n = toggled(true, state).1.len();
    assert(after_cancels(state, n) == EngineState::Direct) by {
        reveal_with_fuel(after_cancels, 3);
    }
}

/// Every edit that commits text puts the caret at the end of the committed text and
/// then ends the composition; an edit that shows text ends with the caret at the
/// engine's cursor position.
pub proof fn lemma_commit_leaves_caret_after_text(a: ActionView)
    ensures
        a matches ActionView::CommitText(t) ==> planned_steps(a)[2] == StepView::SetCursor(t.len())
            && planned_steps(a).last() == StepView::FinishComposition,
        a matches ActionView::CommitAndCompose { committed, display, cursor_pos } ==> planned_steps(
            a,
        )[2] == StepView::SetCursor(committed.len()) && planned_steps(a)[3]
            == StepView::FinishComposition && planned_steps(a).last() == StepView::SetCursor(
            cursor_pos,
        ),
        a matches ActionView::SetText { text, cursor_pos } ==> planned_steps(a).last()
            == StepView::SetCursor(cursor_pos),
{
}

/// Nothing is edited only when the engine neither commits nor shows text and no
/// composition is open; text that is committed or shown is always written.
pub proof fn lemma_edit_writes_engine_text(
    committed: Seq<char>,
    display: Seq<char>,
    cursor_pos: nat,
    composition_active: bool,
)
    ensures
        planned_edit(committed, display, cursor_pos, composition_active) is None <==> (
        committed.len() == 0 && display.len() == 0 && !composition_active),
        committed.len() > 0 ==> planned_steps(
            planned_edit(committed, display, cursor_pos, composition_active)->0,
        ).contains(StepView::WriteText(committed)),
        display.len() > 0 ==> planned_steps(
            planned_edit(committed, display, cursor_pos, composition_active)->0,
        ).contains(StepView::WriteText(display)),
{
    let e = planned_edit(committed, display, cursor_pos, composition_active);
    if committed.len() > 0 {
        assert(planned_steps(e->0)[1] == StepView::WriteText(committed));
    }
    if display.len() > 0 && committed.len() > 0 {
        assert(planned_steps(e->0)[5] == StepView::WriteText(display));
    } else if display.len() > 0 {
        assert(planned_steps(e->0)[1] == StepView::WriteText(display));
    }
}

/// After activation a GUID is registered exactly when some request with that GUID
/// succeeded; after deactivation none is.
pub proof fn lemma_registered_keys_are_accepted(
    requests: Seq<(Guid, PreservedKeySpec)>,
    accepted: Seq<bool>,
    key: (Guid, PreservedKeySpec),
)
    ensures
        kept_keys(requests, accepted).contains(key) <==> exists|i: int|
            0 <= i < requests.len() && requests[i] == key && #[trigger] was_accepted(accepted, i),
        kept_keys(requests, accepted).len() <= requests.len(),
    decreases requests.len(),
{
    if requests.len() > 0 {
        let p = requests.drop_last();
        let n = requests.len() - 1;
        lemma_registered_keys_are_accepted(p, accepted, key);
        let rest = kept_keys(p, accepted);
        if kept_keys(requests, accepted).contains(key) {
            if was_accepted(accepted, n) && requests.last() == key {
                assert(requests[n] == key);
            } else {
                if was_accepted(accepted, n) {
                    let j = choose|j: int| 0 <= j < rest.push(requests.last()).len() && rest.push(
                        requests.last(),
                    )[j] == key;
                    assert(rest[j] == key);
                }
                assert(rest.contains(key));
                let i = choose|i: int|
                    0 <= i < p.len() && p[i] == key && #[trigger] was_accepted(accepted, i);
                assert(requests[i] == key);
            }
        }
        if exists|i: int|
            0 <= i < requests.len() && requests[i] == key && #[trigger] was_accepted(accepted, i) {
            let i = choose|i: int|
                0 <= i < requests.len() && requests[i] == key && #[trigger] was_accepted(accepted, i);
            if i == n {
                assert(kept_keys(requests, accepted).last() == key);
                assert(kept_keys(requests, accepted)[kept_keys(requests, accepted).len() - 1] == key);
            } else {
                assert(p[i] == key);
                assert(rest.contains(key));
                let j = choose|j: int| 0 <= j < rest.len() && rest[j] == key;
                if was_accepted(accepted, n) {
                    assert(rest.push(requests.last())[j] == key);
                }
            }
        }
    }
}

/// When the engine shows text and commits none, the edit writes exactly that text
/// and puts the caret where the engine's cursor is, not at the end of the text;
/// whenever text is shown, the last step of the edit puts the caret at the
/// engine's cursor. Two outputs that differ only in the cursor give edits that
/// differ only in the caret.
pub proof fn lemma_shown_text_keeps_engine_cursor(
    committed: Seq<char>,
    display: Seq<char>,
    cursor_pos: nat,
    other_pos: nat,
    composition_active: bool,
)
    ensures
        committed.len() == 0 && display.len() > 0 ==> planned_edit(
            committed,
            display,
            cursor_pos,
            composition_active,
        ) == Some(ActionView::SetText { text: display, cursor_pos }),
        display.len() > 0 ==> planned_steps(
            planned_edit(committed, display, cursor_pos, composition_active)->0,
        ).last() == StepView::SetCursor(cursor_pos),
        display.len() > 0 && cursor_pos != other_pos ==> planned_edit(
            committed,
            display,
            cursor_pos,
            composition_active,
        ) != planned_edit(committed, display, other_pos, composition_active),
        display.len() == 0 ==> planned_edit(committed, display, cursor_pos, composition_active)
            == planned_edit(committed, display, other_pos, composition_active),
{
}

/// A configured dictionary is always used, whether or not the DLL's directory is
/// known; without one the dictionary is `dict\SKK-JISYO.L` under the DLL's
/// directory, and there is none when that directory is not known either.
pub proof fn lemma_service_dictionary_location(
    configured: Seq<char>,
    dll_dir: Option<Seq<char>>,
    dir: Seq<char>,
)
    ensures
        service_dict_choice(Some(configured), dll_dir) == Some(configured),
        service_dict_choice(None, None) is None,
        dir.len() > 0 && dir.last() != '/' && dir.last() != '\\' && !(dir.len() == 2 && dir[1]
            == ':') ==> service_dict_choice(None, Some(dir)) == Some(
            dir + "\\dict\\SKK-JISYO.L"@,
        ),
{
    reveal_strlit("dict");
    reveal_strlit("SKK-JISYO.L");
    reveal_strlit("\\dict\\SKK-JISYO.L");
    if dir.len() > 0 && dir.last() != '/' && dir.last() != '\\' && !(dir.len() == 2 && dir[1]
        == ':') {
        let d = path_join(PathStyle::Windows, dir, "dict"@);
        assert(d.last() == 't');
        assert(path_join(PathStyle::Windows, d, "SKK-JISYO.L"@) =~= dir
            + "\\dict\\SKK-JISYO.L"@);
    }
}

/// When every registration succeeds, all requested keys are kept, in the order
/// they were requested; when none succeeds, none is kept.
pub proof fn lemma_all_or_no_keys_kept(
    requests: Seq<(Guid, PreservedKeySpec)>,
    accepted: Seq<bool>,
)
    ensures
        (forall|i: int| 0 <= i < requests.len() ==> #[trigger] was_accepted(accepted, i))
            ==> kept_keys(requests, accepted) == requests,
        (forall|i: int| 0 <= i < requests.len() ==> !#[trigger] was_accepted(accepted, i))
            ==> kept_keys(requests, accepted).len() == 0,
    decreases requests.len(),
{
    if requests.len() > 0 {
        let p = requests.drop_last();
        let n = requests.len() - 1;
        if forall|i: int| 0 <= i < requests.len() ==> #[trigger] was_accepted(accepted, i) {
            assert forall|i: int| 0 <= i < p.len() implies #[trigger] was_accepted(accepted, i) by {
                assert(was_accepted(accepted, i));
            }
            assert(was_accepted(accepted, n));
        }
        if forall|i: int| 0 <= i < requests.len() ==> !#[trigger] was_accepted(accepted, i) {
            assert forall|i: int| 0 <= i < p.len() implies !#[trigger] was_accepted(accepted, i) by {
                assert(!was_accepted(accepted, i));
            }
            assert(!was_accepted(accepted, n));
        }
        lemma_all_or_no_keys_kept(p, accepted);
        assert(p.push(requests.last()) =~= requests);
    }
}

} // verus!
