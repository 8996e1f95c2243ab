//! Custom commands: rotary encoder mode and value, thrust reversers, trim wheel.
//!
//! The simulator calls a handler with the command's phase and the reference
//! value ("refcon") it was registered with; these functions decide what the
//! handler does. Reading and writing datarefs, and the float arithmetic on
//! their values, stay with the host.

use vstd::prelude::*;

verus! {

/// Maximum engine count that can be addressed (the SDK reports up to 8).
pub const MAX_ENGINES: usize = 8;

/// Number of rotary encoder modes.
pub const MODE_COUNT: usize = 7;

/// Phase of a command that has just started (`xplm_CommandBegin`).
pub const COMMAND_BEGIN: i32 = 0;

/// Phase of a command that is held down (`xplm_CommandContinue`).
pub const COMMAND_CONTINUE: i32 = 1;

/// Refcon of the "true" variant of a two-way command (increase, nose up).
pub const REFCON_TRUE: isize = 1;

/// Refcon of the "false" variant of a two-way command (decrease, nose down).
pub const REFCON_FALSE: isize = 0;

/// Refcon of the reverser command that addresses every engine.
pub const REFCON_ALL_ENGINES: isize = -1;

/// Prefix of every command name.
pub const COMMAND_PREFIX: &'static str = "HoneycombBravo/";

/// Increment of the vertical speed and altitude dials per encoder detent.
pub const DIAL_STEP: u32 = 100;

/// Which value the rotary encoder is currently controlling. Matches the IAS /
/// CRS / HDG / VS / ALT mode buttons on the Bravo, plus two COM1 tuning modes
/// for use without a physical radio panel.
#[derive(Debug, Clone, Copy, PartialEq, Eq, Structural)]
pub enum AutopilotMode {
    Ias,
    Crs,
    Hdg,
    Vs,
    Alt,
    Com1Coarse,
    Com1Fine,
}

/// The mode selected by the `mode_*` command registered with refcon `idx`.
pub open spec fn mode_at(idx: int) -> Option<AutopilotMode> {
    if idx == 0 {
        Some(AutopilotMode::Ias)
    } else
    if idx == 1 {
        Some(AutopilotMode::Crs)
    } else
    if idx == 2 {
        Some(AutopilotMode::Hdg)
    } else
    if idx == 3 {
        Some(AutopilotMode::Vs)
    } else
    if idx == 4 {
        Some(AutopilotMode::Alt)
    } else
    if idx == 5 {
        Some(AutopilotMode::Com1Coarse)
    } else
    if idx == 6 {
        Some(AutopilotMode::Com1Fine)
    } else {
        None
    }
}

/// Command-name suffix of a mode's command.
pub open spec fn mode_suffix(m: AutopilotMode) -> Seq<char> {
    match m {
        AutopilotMode::Ias => "mode_ias"@,
        AutopilotMode::Crs => "mode_crs"@,
        AutopilotMode::Hdg => "mode_hdg"@,
        AutopilotMode::Vs => "mode_vs"@,
        AutopilotMode::Alt => "mode_alt"@,
        AutopilotMode::Com1Coarse => "mode_com1_coarse"@,
        AutopilotMode::Com1Fine => "mode_com1_fine"@,
    }
}

/// User-interface description of a mode's command.
pub open spec fn mode_description(m: AutopilotMode) -> Seq<char> {
    match m {
        AutopilotMode::Ias => "Set autopilot rotary encoder mode to IAS."@,
        AutopilotMode::Crs => "Set autopilot rotary encoder mode to CRS."@,
        AutopilotMode::Hdg => "Set autopilot rotary encoder mode to HDG."@,
        AutopilotMode::Vs => "Set autopilot rotary encoder mode to VS."@,
        AutopilotMode::Alt => "Set autopilot rotary encoder mode to ALT."@,
        AutopilotMode::Com1Coarse => "Set autopilot rotary encoder mode to COM1 coarse."@,
        AutopilotMode::Com1Fine => "Set autopilot rotary encoder mode to COM1 fine."@,
    }
}

/// The word that names a mode in its command: the mode's panel label, in
/// lower case.
pub open spec fn mode_word(m: AutopilotMode) -> Seq<char> {
    match m {
        AutopilotMode::Ias => "ias"@,
        AutopilotMode::Crs => "crs"@,
        AutopilotMode::Hdg => "hdg"@,
        AutopilotMode::Vs => "vs"@,
        AutopilotMode::Alt => "alt"@,
        AutopilotMode::Com1Coarse => "com1_coarse"@,
        AutopilotMode::Com1Fine => "com1_fine"@,
    }
}

/// Every mode command is named `mode_` followed by the word of the mode it
/// selects.
pub proof fn lemma_mode_suffix_spells_mode(m: AutopilotMode)
    ensures
        mode_suffix(m) == "mode_"@ + mode_word(m),
{
    reveal_strlit("mode_");
    match m {
        AutopilotMode::Ias => {
            reveal_strlit("ias");
            reveal_strlit("mode_ias");
        },
        AutopilotMode::Crs => {
            reveal_strlit("crs");
            reveal_strlit("mode_crs");
        },
        AutopilotMode::Hdg => {
            reveal_strlit("hdg");
            reveal_strlit("mode_hdg");
        },
        AutopilotMode::Vs => {
            reveal_strlit("vs");
            reveal_strlit("mode_vs");
        },
        AutopilotMode::Alt => {
            reveal_strlit("alt");
            reveal_strlit("mode_alt");
        },
        AutopilotMode::Com1Coarse => {
            reveal_strlit("com1_coarse");
            reveal_strlit("mode_com1_coarse");
        },
        AutopilotMode::Com1Fine => {
            reveal_strlit("com1_fine");
            reveal_strlit("mode_com1_fine");
        },
    }
    assert(mode_suffix(m) =~= "mode_"@ + mode_word(m));
}

/// Entry `idx` of the mode table: the mode, its command-name suffix and its
/// description. The index is the refcon the command is registered with.
pub fn mode_entry(idx: usize) -> (entry: Option<(AutopilotMode, &'static str, &'static str)>)
    ensures
        match entry {
            Some((m, suffix, description)) => mode_at(idx as int) == Some(m) && suffix@ == mode_suffix(m)
                && description@ == mode_description(m),
            None => mode_at(idx as int) is None,
        },
        entry matches Some((m, suffix, _)) ==> suffix@ == "mode_"@ + mode_word(m),
        idx == 0 ==> (entry matches Some((m, _, _)) && m == AutopilotMode::Ias),
        idx == 1 ==> (entry matches Some((m, _, _)) && m == AutopilotMode::Crs),
        idx == 2 ==> (entry matches Some((m, _, _)) && m == AutopilotMode::Hdg),
        idx == 3 ==> (entry matches Some((m, _, _)) && m == AutopilotMode::Vs),
        idx == 4 ==> (entry matches Some((m, _, _)) && m == AutopilotMode::Alt),
        idx == 5 ==> (entry matches Some((m, _, _)) && m == AutopilotMode::Com1Coarse),
        idx == 6 ==> (entry matches Some((m, _, _)) && m == AutopilotMode::Com1Fine),
        idx >= MODE_COUNT ==> entry is None,
{
    proof {
        if let Some(m) = mode_at(idx as int) {
            lemma_mode_suffix_spells_mode(m);
        }
    }
    match idx {
        0 => Some((AutopilotMode::Ias, "mode_ias", "Set autopilot rotary encoder mode to IAS.")),
        1 => Some((AutopilotMode::Crs, "mode_crs", "Set autopilot rotary encoder mode to CRS.")),
        2 => Some((AutopilotMode::Hdg, "mode_hdg", "Set autopilot rotary encoder mode to HDG.")),
        3 => Some((AutopilotMode::Vs, "mode_vs", "Set autopilot rotary encoder mode to VS.")),
        4 => Some((AutopilotMode::Alt, "mode_alt", "Set autopilot rotary encoder mode to ALT.")),
        5 => Some((AutopilotMode::Com1Coarse, "mode_com1_coarse", "Set autopilot rotary encoder mode to COM1 coarse.")),
        6 => Some((AutopilotMode::Com1Fine, "mode_com1_fine", "Set autopilot rotary encoder mode to COM1 fine.")),
        _ => None,
    }
}

/// The command-side state: the rotary encoder mode, the writable datarefs the
/// encoder and reversers act on, and the trim wheel setup (both held for the
/// host, `None` until registered).
pub struct CommandState<D, T> {
    mode: AutopilotMode,
    datarefs: Option<D>,
    trim: Option<T>,
}

/// What the command-side state holds.
pub struct CommandView<D, T> {
    pub mode: AutopilotMode,
    pub datarefs: Option<D>,
    pub trim: Option<T>,
}

impl<D, T> View for CommandState<D, T> {
    type V = CommandView<D, T>;

    closed spec fn view(&self) -> CommandView<D, T> {
        CommandView { mode: self.mode, datarefs: self.datarefs, trim: self.trim }
    }
}

impl<D, T> CommandState<D, T> {
    /// Start in IAS mode, with nothing registered.
    pub fn new() -> (state: Self)
        ensures
            state@ == (CommandView::<D, T> { mode: AutopilotMode::Ias, datarefs: None, trim: None }),
    {
        CommandState { mode: AutopilotMode::Ias, datarefs: None, trim: None }
    }

    /// Hold the writable datarefs found at registration.
    pub fn install_datarefs(&mut self, datarefs: D)
        ensures
            final(self)@ == (CommandView { datarefs: Some(datarefs), ..old(self)@ }),
    {
        self.datarefs = Some(datarefs);
    }

    /// Hold the trim wheel setup found at registration.
    pub fn install_trim(&mut self, trim: T)
        ensures
            final(self)@ == (CommandView { trim: Some(trim), ..old(self)@ }),
    {
        self.trim = Some(trim);
    }

    /// The registered datarefs, if any.
    pub fn datarefs(&self) -> (d: Option<&D>)
        ensures
            match d {
                Some(x) => self@.datarefs == Some(*x),
                None => self@.datarefs is None,
            },
    {
        match &self.datarefs {
            Some(x) => Some(x),
            None => None,
        }
    }

    /// The registered trim wheel setup, if any.
    pub fn trim(&self) -> (t: Option<&T>)
        ensures
            match t {
                Some(x) => self@.trim == Some(*x),
                None => self@.trim is None,
            },
    {
        match &self.trim {
            Some(x) => Some(x),
            None => None,
        }
    }
}

/// The mode the rotary encoder currently controls.
pub fn get_current_mode<D, T>(state: &CommandState<D, T>) -> (mode: AutopilotMode)
    ensures
        mode == state@.mode,
{
    state.mode
}

/// Select the value the rotary encoder controls.
pub fn set_current_mode<D, T>(state: &mut CommandState<D, T>, mode: AutopilotMode)
    ensures
        final(state)@ == (CommandView { mode, ..old(state)@ }),
{
    state.mode = mode;
}

/// Forget the registered datarefs and trim setup, so that a reload cycle does
/// not keep stale handles. The mode stays.
pub fn clear_command_state<D, T>(state: &mut CommandState<D, T>)
    ensures
        final(state)@ == (CommandView::<D, T> { datarefs: None, trim: None, ..old(state)@ }),
{
    state.datarefs = None;
    state.trim = None;
}

/// What one encoder detent does. The sign is +1 for an increase, -1 for a
/// decrease.
#[derive(Debug, Clone, Copy, PartialEq, Eq)]
pub enum RotaryAction {
    /// Airspeed dial: one knot-tens step, or one hundredth of Mach.
    Airspeed(i32),
    /// Course (OBS) dial: one degree, wrapping within 0..360.
    Course(i32),
    /// Heading bug: one degree, wrapping within 0..360.
    Heading(i32),
    /// Vertical-speed dial: one [`DIAL_STEP`] step.
    VerticalSpeed(i32),
    /// Altitude dial: one [`DIAL_STEP`] step.
    Altitude(i32),
    /// Fire the named simulator command once.
    SimCommand(&'static str),
}

/// The sign of a detent.
pub open spec fn detent_sign(increase: bool) -> i32 {
    if increase {
        1i32
    } else {
        -1i32
    }
}

/// Whether `action` is what a detent does in mode `mode`.
pub open spec fn is_rotary_action(mode: AutopilotMode, increase: bool, action: RotaryAction) -> bool {
    let s = detent_sign(increase);
    match mode {
        AutopilotMode::Ias => action == RotaryAction::Airspeed(s),
        AutopilotMode::Crs => action == RotaryAction::Course(s),
        AutopilotMode::Hdg => action == RotaryAction::Heading(s),
        AutopilotMode::Vs => action == RotaryAction::VerticalSpeed(s),
        AutopilotMode::Alt => action == RotaryAction::Altitude(s),
        AutopilotMode::Com1Coarse => action matches RotaryAction::SimCommand(name) && name@ == (
        if increase {
            "sim/radios/stby_com1_coarse_up"@
        } else {
            "sim/radios/stby_com1_coarse_down"@
        }),
        AutopilotMode::Com1Fine => action matches RotaryAction::SimCommand(name) && name@ == (
        if increase {
            "sim/radios/stby_com1_fine_up"@
        } else {
            "sim/radios/stby_com1_fine_down"@
        }),
    }
}

/// The tuning tier a COM1 mode steps: coarse (MHz) or fine (kHz).
pub open spec fn com1_tier(mode: AutopilotMode) -> Seq<char> {
    if mode == AutopilotMode::Com1Coarse {
        "coarse"@
    } else {
        "fine"@
    }
}

/// The direction word of a detent.
pub open spec fn detent_direction(increase: bool) -> Seq<char> {
    if increase {
        "up"@
    } else {
        "down"@
    }
}

/// In a COM1 mode a detent fires the standby tuning command of that mode's
/// tier, in the detent's direction: `sim/radios/stby_com1_<tier>_<up|down>`.
pub proof fn lemma_com1_detent_command(mode: AutopilotMode, increase: bool, action: RotaryAction)
    requires
        mode == AutopilotMode::Com1Coarse || mode == AutopilotMode::Com1Fine,
        is_rotary_action(mode, increase, action),
    ensures
        action matches RotaryAction::SimCommand(name) && name@ == "sim/radios/stby_com1_"@ + com1_tier(mode)
            + "_"@ + detent_direction(increase),
{
    reveal_strlit("sim/radios/stby_com1_");
    reveal_strlit("coarse");
    reveal_strlit("fine");
    reveal_strlit("_");
    reveal_strlit("up");
    reveal_strlit("down");
    reveal_strlit("sim/radios/stby_com1_coarse_up");
    reveal_strlit("sim/radios/stby_com1_coarse_down");
    reveal_strlit("sim/radios/stby_com1_fine_up");
    reveal_strlit("sim/radios/stby_com1_fine_down");
    if let RotaryAction::SimCommand(name) = action {
        assert(name@ =~= "sim/radios/stby_com1_"@ + com1_tier(mode) + "_"@ + detent_direction(increase));
    }
}

/// What a detent does in mode `mode`.
pub fn rotary_action(mode: AutopilotMode, increase: bool) -> (action: RotaryAction)
    ensures
        is_rotary_action(mode, increase, action),
        mode == AutopilotMode::Com1Coarse || mode == AutopilotMode::Com1Fine ==> (action matches RotaryAction::SimCommand(
            name,
        ) && name@ == "sim/radios/stby_com1_"@ + com1_tier(mode) + "_"@ + detent_direction(increase)),
{
    let sign: i32 = if increase {
        1
    } else {
        -1
    };
    let action = match mode {
        AutopilotMode::Ias => RotaryAction::Airspeed(sign),
        AutopilotMode::Crs => RotaryAction::Course(sign),
        AutopilotMode::Hdg => RotaryAction::Heading(sign),
        AutopilotMode::Vs => RotaryAction::VerticalSpeed(sign),
        AutopilotMode::Alt => RotaryAction::Altitude(sign),
        AutopilotMode::Com1Coarse => RotaryAction::SimCommand(
            if increase {
                "sim/radios/stby_com1_coarse_up"
            } else {
                "sim/radios/stby_com1_coarse_down"
            },
        ),
        AutopilotMode::Com1Fine => RotaryAction::SimCommand(
            if increase {
                "sim/radios/stby_com1_fine_up"
            } else {
                "sim/radios/stby_com1_fine_down"
            },
        ),
    };
    proof {
        if mode == AutopilotMode::Com1Coarse || mode == AutopilotMode::Com1Fine {
            lemma_com1_detent_command(mode, increase, action);
        }
    }
    action
}

/// Change the value of the current mode: the detent's action, or `None` while
/// no datarefs are registered.
pub fn change_value<D, T>(state: &CommandState<D, T>, increase: bool) -> (action: Option<RotaryAction>)
    ensures
        match action {
            Some(a) => state@.datarefs is Some && is_rotary_action(state@.mode, increase, a),
            None => state@.datarefs is None,
        },
{
    if state.datarefs.is_none() {
        return None;
    }
    Some(rotary_action(state.mode, increase))
}

/// Handler of a `mode_*` command: on the command's start, select the mode its
/// refcon `index` names in the mode table.
pub fn handle_mode_command<D, T>(state: &mut CommandState<D, T>, phase: i32, index: usize)
    ensures
        final(state)@ == (if phase == COMMAND_BEGIN && mode_at(index as int) is Some {
            CommandView { mode: mode_at(index as int)->0, ..old(state)@ }
        } else {
            old(state)@
        }),
{
    if phase == COMMAND_BEGIN {
        if let Some((mode, _, _)) = mode_entry(index) {
            set_current_mode(state, mode);
        }
    }
}

/// Handler of the increase / decrease commands: on the command's start, the
/// detent in the direction its refcon names.
pub fn handle_value_command<D, T>(state: &CommandState<D, T>, phase: i32, refcon: isize) -> (action:
    Option<RotaryAction>)
    ensures
        match action {
            Some(a) => phase == COMMAND_BEGIN && state@.datarefs is Some && is_rotary_action(
                state@.mode,
                refcon == REFCON_TRUE,
                a,
            ),
            None => phase != COMMAND_BEGIN || state@.datarefs is None,
        },
{
    if phase == COMMAND_BEGIN {
        change_value(state, refcon == REFCON_TRUE)
    } else {
        None
    }
}

/// Handler of the trim wheel commands: on the command's start, the trim
/// direction its refcon names (+1 nose up, -1 nose down).
pub fn trim_direction(phase: i32, refcon: isize) -> (direction: Option<i32>)
    ensures
        direction == (if phase == COMMAND_BEGIN {
            Some(if refcon == REFCON_TRUE { 1i32 } else { -1i32 })
        } else {
            None
        }),
{
    if phase == COMMAND_BEGIN {
        Some(if refcon == REFCON_TRUE { 1 } else { -1 })
    } else {
        None
    }
}

/// The reversers are held on while the command starts or continues.
pub open spec fn reverser_active(phase: i32) -> bool {
    phase == COMMAND_BEGIN || phase == COMMAND_CONTINUE
}

/// Handler of the reverser commands: the engine its refcon addresses (`None`
/// for all engines) and whether the reversers are on; nothing for a refcon
/// that addresses no engine.
pub fn reverser_command(phase: i32, refcon: isize) -> (target: Option<(Option<usize>, bool)>)
    ensures
        target == (if refcon == REFCON_ALL_ENGINES {
            Some((None::<usize>, reverser_active(phase)))
        } else if 0 <= refcon < MAX_ENGINES {
            Some((Some(refcon as usize), reverser_active(phase)))
        } else {
            None
        }),
{
    let active = phase == COMMAND_BEGIN || phase == COMMAND_CONTINUE;
    if refcon == REFCON_ALL_ENGINES {
        Some((None, active))
    } else if 0 <= refcon && refcon < 8 {
        Some((Some(refcon as usize), active))
    } else {
        None
    }
}

/// The propeller mode a reverser command writes: 3 (reverse) when on, 1
/// (normal) when off.
pub fn reverser_prop_mode(on: bool) -> (mode: u8)
    ensures
        mode == (if on { 3u8 } else { 1u8 }),
{
    if on {
        3
    } else {
        1
    }
}

/// The engine count the simulator returned, clamped to `0..=MAX_ENGINES`.
pub open spec fn clamped_count(read: i32) -> int {
    if read < 0 {
        0
    } else if read > MAX_ENGINES {
        MAX_ENGINES as int
    } else {
        read as int
    }
}

/// Set the reverser entries of the propeller-mode buffer `buf` (as read from
/// the simulator, which reported `read` engines) to `value`: one engine, or
/// every engine read. Returns how many entries to write back, or `None` when
/// the engine does not exist and nothing is written.
pub fn apply_reverser_state<T: Copy>(buf: &mut Vec<T>, read: i32, engine: Option<usize>, value: T) -> (count:
    Option<usize>)
    requires
        old(buf)@.len() == MAX_ENGINES,
    ensures
        match engine {
            Some(e) => if e < clamped_count(read) {
                count == Some(clamped_count(read) as usize) && final(buf)@ == old(buf)@.update(e as int, value)
            } else {
                count is None && final(buf)@ == old(buf)@
            },
            None => count == Some(clamped_count(read) as usize) && final(buf)@ == Seq::new(
                MAX_ENGINES as nat,
                |i: int| if i < clamped_count(read) { value } else { old(buf)@[i] },
            ),
        },
{
    let n: usize = if read < 0 {
        0
    } else if read > 8 {
        8
    } else {
        read as usize
    };
    match engine {
        Some(e) => {
            if e < n {
                buf.set(e, value);
                Some(n)
            } else {
                None
            }
        },
        None => {
            let mut i: usize = 0;
            while i < n
                invariant
                    n == clamped_count(read),
                    i <= n,
                    buf@.len() == MAX_ENGINES,
                    forall|k: int| 0 <= k < MAX_ENGINES ==> #[trigger] buf@[k] == (if k < i {
                        value
                    } else {
                        old(buf)@[k]
                    }),
                decreases n - i,
            {
                buf.set(i, value);
                i += 1;
            }
            assert(buf@ =~= Seq::new(
                MAX_ENGINES as nat,
                |k: int| if k < clamped_count(read) { value } else { old(buf)@[k] },
            ));
            Some(n)
        },
    }
}

/// Which handler serves a command.
#[derive(Debug, Clone, Copy, PartialEq, Eq, Structural)]
pub enum CommandHandler {
    /// Select a rotary encoder mode.
    Mode,
    /// Turn the rotary encoder one detent.
    ValueChange,
    /// Hold thrust reversers on.
    Reverser,
    /// Move the elevator trim one detent.
    Trim,
}

/// One custom command to register.
pub struct CommandSpec {
    /// Full command name.
    pub name: String,
    /// User-interface description.
    pub description: String,
    pub handler: CommandHandler,
    /// Reference value handed to the handler.
    pub refcon: isize,
}

/// Number of commands registered without the trim wheel.
pub const BASE_COMMAND_COUNT: usize = 18;

/// Name suffix of command `k` of the table.
pub open spec fn command_suffix(k: int) -> Seq<char> {
    if 0 <= k < MODE_COUNT {
        mode_suffix(mode_at(k)->0)
    } else if k == 7 {
        "increase"@
    } else if k == 8 {
        "decrease"@
    } else if k == 9 {
        "thrust_reversers"@
    } else if k == 10 {
        "thrust_reverser_1"@
    } else if k == 11 {
        "thrust_reverser_2"@
    } else if k == 12 {
        "thrust_reverser_3"@
    } else if k == 13 {
        "thrust_reverser_4"@
    } else if k == 14 {
        "thrust_reverser_5"@
    } else if k == 15 {
        "thrust_reverser_6"@
    } else if k == 16 {
        "thrust_reverser_7"@
    } else if k == 17 {
        "thrust_reverser_8"@
    } else if k == 18 {
        "elevator_trim_nose_up"@
    } else if k == 19 {
        "elevator_trim_nose_down"@
    } else {
        Seq::empty()
    }
}

/// Description of command `k` of the table.
pub open spec fn command_description(k: int) -> Seq<char> {
    if 0 <= k < MODE_COUNT {
        mode_description(mode_at(k)->0)
    } else if k == 7 {
        "Increase the value of the autopilot mode selected with the rotary encoder."@
    } else if k == 8 {
        "Decrease the value of the autopilot mode selected with the rotary encoder."@
    } else if k == 9 {
        "Hold all thrust reversers on."@
    } else if k == 10 {
        "Hold thrust reverser #1 on."@
    } else if k == 11 {
        "Hold thrust reverser #2 on."@
    } else if k == 12 {
        "Hold thrust reverser #3 on."@
    } else if k == 13 {
        "Hold thrust reverser #4 on."@
    } else if k == 14 {
        "Hold thrust reverser #5 on."@
    } else if k == 15 {
        "Hold thrust reverser #6 on."@
    } else if k == 16 {
        "Hold thrust reverser #7 on."@
    } else if k == 17 {
        "Hold thrust reverser #8 on."@
    } else if k == 18 {
        "Trim elevator nose up"@
    } else if k == 19 {
        "Trim elevator nose down"@
    } else {
        Seq::empty()
    }
}

/// Handler of command `k` of the table.
pub open spec fn command_handler(k: int) -> CommandHandler {
    if k == 0 {
        CommandHandler::Mode
    } else if k == 1 {
        CommandHandler::Mode
    } else if k == 2 {
        CommandHandler::Mode
    } else if k == 3 {
        CommandHandler::Mode
    } else if k == 4 {
        CommandHandler::Mode
    } else if k == 5 {
        CommandHandler::Mode
    } else if k == 6 {
        CommandHandler::Mode
    } else if k == 7 {
        CommandHandler::ValueChange
    } else if k == 8 {
        CommandHandler::ValueChange
    } else if k == 9 {
        CommandHandler::Reverser
    } else if k == 10 {
        CommandHandler::Reverser
    } else if k == 11 {
        CommandHandler::Reverser
    } else if k == 12 {
        CommandHandler::Reverser
    } else if k == 13 {
        CommandHandler::Reverser
    } else if k == 14 {
        CommandHandler::Reverser
    } else if k == 15 {
        CommandHandler::Reverser
    } else if k == 16 {
        CommandHandler::Reverser
    } else if k == 17 {
        CommandHandler::Reverser
    } else if k == 18 {
        CommandHandler::Trim
    } else if k == 19 {
        CommandHandler::Trim
    } else {
        CommandHandler::Mode
    }
}

/// Refcon of command `k` of the table.
pub open spec fn command_refcon(k: int) -> isize {
    if k == 0 {
        0
    } else if k == 1 {
        1
    } else if k == 2 {
        2
    } else if k == 3 {
        3
    } else if k == 4 {
        4
    } else if k == 5 {
        5
    } else if k == 6 {
        6
    } else if k == 7 {
        REFCON_TRUE
    } else if k == 8 {
        REFCON_FALSE
    } else if k == 9 {
        REFCON_ALL_ENGINES
    } else if k == 10 {
        0
    } else if k == 11 {
        1
    } else if k == 12 {
        2
    } else if k == 13 {
        3
    } else if k == 14 {
        4
    } else if k == 15 {
        5
    } else if k == 16 {
        6
    } else if k == 17 {
        7
    } else if k == 18 {
        REFCON_TRUE
    } else if k == 19 {
        REFCON_FALSE
    } else {
        0
    }
}

/// The decimal digit `n` (0 to 9) as a character.
pub open spec fn digit_char(n: int) -> char {
    (('0' as int) + n) as char
}

/// The reverser command named `thrust_reverser_<n>` holds the reversers of
/// engine number `n`: it is served by the reverser handler with engine index
/// `n - 1`.
pub proof fn lemma_reverser_command_addresses_named_engine(n: int)
    requires
        1 <= n <= MAX_ENGINES,
    ensures
        command_suffix(9 + n) == "thrust_reverser_"@ + seq![digit_char(n)],
        command_handler(9 + n) == CommandHandler::Reverser,
        command_refcon(9 + n) == n - 1,
{
    reveal_strlit("thrust_reverser_");
    if n == 1 {
        reveal_strlit("thrust_reverser_1");
    } else if n == 2 {
        reveal_strlit("thrust_reverser_2");
    } else if n == 3 {
        reveal_strlit("thrust_reverser_3");
    } else if n == 4 {
        reveal_strlit("thrust_reverser_4");
    } else if n == 5 {
        reveal_strlit("thrust_reverser_5");
    } else if n == 6 {
        reveal_strlit("thrust_reverser_6");
    } else if n == 7 {
        reveal_strlit("thrust_reverser_7");
    } else {
        reveal_strlit("thrust_reverser_8");
    }
    assert(command_suffix(9 + n) =~= "thrust_reverser_"@ + seq![digit_char(n)]);
}

/// Each `mode_*` command is served by the mode handler, and its refcon selects
/// the mode its name spells.
pub proof fn lemma_mode_command_selects_named_mode(k: int)
    requires
        0 <= k < MODE_COUNT,
    ensures
        command_handler(k) == CommandHandler::Mode,
        mode_at(command_refcon(k) as int) matches Some(m) && command_suffix(k) == "mode_"@ + mode_word(m),
{
    lemma_mode_suffix_spells_mode(mode_at(k)->0);
}


fn command(suffix: &str, description: &str, handler: CommandHandler, refcon: isize) -> (c: CommandSpec)
    ensures
        c.name@ == COMMAND_PREFIX@ + suffix@,
        c.description@ == description@,
        c.handler == handler,
        c.refcon == refcon,
{
    let mut name = String::from_str(COMMAND_PREFIX);
    name.append(suffix);
    CommandSpec { name, description: String::from_str(description), handler, refcon }
}

/// Every custom command, in registration order: the seven `mode_*` commands
/// (refcon = mode index), increase / decrease, all reversers, the eight
/// per-engine reversers (refcon = engine index), then, when the trim wheel is
/// available, nose up / nose down.
pub fn command_table(trim_available: bool) -> (table: Vec<CommandSpec>)
    ensures
        table@.len() == BASE_COMMAND_COUNT + if trim_available { 2int } else { 0 },
        forall|k: int|
            0 <= k < table@.len() ==> {
                &&& (#[trigger] table@[k]).name@ == COMMAND_PREFIX@ + command_suffix(k)
                &&& table@[k].description@ == command_description(k)
                &&& table@[k].handler == command_handler(k)
                &&& table@[k].refcon == command_refcon(k)
            },
        forall|k: int|
            0 <= k < MODE_COUNT ==> {
                &&& (#[trigger] table@[k]).handler == CommandHandler::Mode
                &&& mode_at(table@[k].refcon as int) matches Some(m) && table@[k].name@ == COMMAND_PREFIX@
                    + ("mode_"@ + mode_word(m))
            },
        forall|n: int|
            1 <= n <= MAX_ENGINES ==> {
                &&& (#[trigger] table@[9 + n]).name@ == COMMAND_PREFIX@ + ("thrust_reverser_"@ + seq![
                    digit_char(n),
                ])
                &&& table@[9 + n].handler == CommandHandler::Reverser
                &&& table@[9 + n].refcon == n - 1
            },
{
    let mut table: Vec<CommandSpec> = Vec::new();
    table.push(command("mode_ias", "Set autopilot rotary encoder mode to IAS.", CommandHandler::Mode, 0));
    table.push(command("mode_crs", "Set autopilot rotary encoder mode to CRS.", CommandHandler::Mode, 1));
    table.push(command("mode_hdg", "Set autopilot rotary encoder mode to HDG.", CommandHandler::Mode, 2));
    table.push(command("mode_vs", "Set autopilot rotary encoder mode to VS.", CommandHandler::Mode, 3));
    table.push(command("mode_alt", "Set autopilot rotary encoder mode to ALT.", CommandHandler::Mode, 4));
    table.push(command("mode_com1_coarse", "Set autopilot rotary encoder mode to COM1 coarse.", CommandHandler::Mode, 5));
    table.push(command("mode_com1_fine", "Set autopilot rotary encoder mode to COM1 fine.", CommandHandler::Mode, 6));
    table.push(command("increase", "Increase the value of the autopilot mode selected with the rotary encoder.", CommandHandler::ValueChange, REFCON_TRUE));
    table.push(command("decrease", "Decrease the value of the autopilot mode selected with the rotary encoder.", CommandHandler::ValueChange, REFCON_FALSE));
    table.push(command("thrust_reversers", "Hold all thrust reversers on.", CommandHandler::Reverser, REFCON_ALL_ENGINES));
    table.push(command("thrust_reverser_1", "Hold thrust reverser #1 on.", CommandHandler::Reverser, 0));
    table.push(command("thrust_reverser_2", "Hold thrust reverser #2 on.", CommandHandler::Reverser, 1));
    table.push(command("thrust_reverser_3", "Hold thrust reverser #3 on.", CommandHandler::Reverser, 2));
    table.push(command("thrust_reverser_4", "Hold thrust reverser #4 on.", CommandHandler::Reverser, 3));
    table.push(command("thrust_reverser_5", "Hold thrust reverser #5 on.", CommandHandler::Reverser, 4));
    table.push(command("thrust_reverser_6", "Hold thrust reverser #6 on.", CommandHandler::Reverser, 5));
    table.push(command("thrust_reverser_7", "Hold thrust reverser #7 on.", CommandHandler::Reverser, 6));
    table.push(command("thrust_reverser_8", "Hold thrust reverser #8 on.", CommandHandler::Reverser, 7));
    proof {
        assert forall|k: int| 0 <= k < MODE_COUNT implies {
            &&& (#[trigger] table@[k]).handler == CommandHandler::Mode
            &&& mode_at(table@[k].refcon as int) matches Some(m) && table@[k].name@ == COMMAND_PREFIX@
                + ("mode_"@ + mode_word(m))
        } by {
            lemma_mode_command_selects_named_mode(k);
        }
        assert forall|n: int| 1 <= n <= MAX_ENGINES implies {
            &&& (#[trigger] table@[9 + n]).name@ == COMMAND_PREFIX@ + ("thrust_reverser_"@ + seq![
                digit_char(n),
            ])
            &&& table@[9 + n].handler == CommandHandler::Reverser
            &&& table@[9 + n].refcon == n - 1
        } by {
            lemma_reverser_command_addresses_named_engine(n);
        }
    }
    if trim_available {
        table.push(command("elevator_trim_nose_up", "Trim elevator nose up", CommandHandler::Trim, REFCON_TRUE));
        table.push(command("elevator_trim_nose_down", "Trim elevator nose down", CommandHandler::Trim, REFCON_FALSE));
    }
    table
}

/// Registration and dispatch cannot drift: every command of the table is
/// served by one (handler, refcon) pair of its own; each `mode_*` command's
/// refcon selects the mode its name belongs to; each per-engine reverser
/// command addresses an existing engine.
pub proof fn lemma_command_table_dispatch(k: int, j: int)
    requires
        0 <= k < BASE_COMMAND_COUNT + 2,
        0 <= j < BASE_COMMAND_COUNT + 2,
        k != j,
    ensures
        (command_handler(k), command_refcon(k)) != (command_handler(j), command_refcon(j)),
        command_handler(k) == CommandHandler::Mode ==> (mode_at(command_refcon(k) as int) matches Some(m)
            && command_suffix(k) == mode_suffix(m)),
        command_handler(k) == CommandHandler::Reverser ==> command_refcon(k) == REFCON_ALL_ENGINES || 0
            <= command_refcon(k) < MAX_ENGINES,
{
}

/// Distinct suffixes give distinct command names.
proof fn lemma_prefixed_distinct(a: Seq<char>, b: Seq<char>)
    requires
        a != b,
    ensures
        COMMAND_PREFIX@ + a != COMMAND_PREFIX@ + b,
{
    let p = COMMAND_PREFIX@;
    if p + a == p + b {
        assert(a =~= (p + a).skip(p.len() as int));
        assert(b =~= (p + b).skip(p.len() as int));
    }
}

/// Length and the characters at positions 0, 5 and 16 of a name: enough to
/// tell the command names apart.
spec fn name_key(s: Seq<char>) -> (nat, char, char, char) {
    (s.len(), s[0], s[5], if s.len() > 16 { s[16] } else { ' ' })
}

/// No two commands of the table share a name, so their registration cannot
/// collide.
pub proof fn lemma_command_names_distinct(k: int, j: int)
    requires
        0 <= k < BASE_COMMAND_COUNT + 2,
        0 <= j < BASE_COMMAND_COUNT + 2,
        k != j,
    ensures
        COMMAND_PREFIX@ + command_suffix(k) != COMMAND_PREFIX@ + command_suffix(j),
{
    reveal_strlit("mode_ias");
    reveal_strlit("mode_crs");
    reveal_strlit("mode_hdg");
    reveal_strlit("mode_vs");
    reveal_strlit("mode_alt");
    reveal_strlit("mode_com1_coarse");
    reveal_strlit("mode_com1_fine");
    reveal_strlit("increase");
    reveal_strlit("decrease");
    reveal_strlit("thrust_reversers");
    reveal_strlit("thrust_reverser_1");
    reveal_strlit("thrust_reverser_2");
    reveal_strlit("thrust_reverser_3");
    reveal_strlit("thrust_reverser_4");
    reveal_strlit("thrust_reverser_5");
    reveal_strlit("thrust_reverser_6");
    reveal_strlit("thrust_reverser_7");
    reveal_strlit("thrust_reverser_8");
    reveal_strlit("elevator_trim_nose_up");
    reveal_strlit("elevator_trim_nose_down");
    assert(name_key(command_suffix(k)) != name_key(command_suffix(j)));
    lemma_prefixed_distinct(command_suffix(k), command_suffix(j));
}

} // verus!
