use honeycomb_bravo::commands::{
    apply_reverser_state, change_value, clear_command_state, command_table, get_current_mode,
    handle_mode_command, handle_value_command, mode_entry, reverser_command, reverser_prop_mode,
    rotary_action, set_current_mode, trim_direction, AutopilotMode, CommandHandler, CommandState,
    RotaryAction, COMMAND_BEGIN, COMMAND_CONTINUE, REFCON_FALSE, REFCON_TRUE,
};

#[test]
fn mode_state_round_trip_and_clear() {
    let mut state: CommandState<u32, u8> = CommandState::new();
    assert_eq!(get_current_mode(&state), AutopilotMode::Ias);
    set_current_mode(&mut state, AutopilotMode::Alt);
    assert_eq!(get_current_mode(&state), AutopilotMode::Alt);
    state.install_datarefs(7);
    state.install_trim(3);
    assert_eq!(state.datarefs(), Some(&7));
    clear_command_state(&mut state);
    assert_eq!(state.datarefs(), None);
    assert_eq!(state.trim(), None);
    assert_eq!(get_current_mode(&state), AutopilotMode::Alt);
}

#[test]
fn mode_commands_select_their_mode_on_begin() {
    let mut state: CommandState<(), ()> = CommandState::new();
    handle_mode_command(&mut state, COMMAND_CONTINUE, 2);
    assert_eq!(get_current_mode(&state), AutopilotMode::Ias);
    handle_mode_command(&mut state, COMMAND_BEGIN, 2);
    assert_eq!(get_current_mode(&state), AutopilotMode::Hdg);
    handle_mode_command(&mut state, COMMAND_BEGIN, 7);
    assert_eq!(get_current_mode(&state), AutopilotMode::Hdg);
    assert_eq!(mode_entry(6).map(|e| e.1), Some("mode_com1_fine"));
    assert_eq!(mode_entry(7), None);
}

#[test]
fn rotary_actions_per_mode() {
    assert_eq!(rotary_action(AutopilotMode::Ias, true), RotaryAction::Airspeed(1));
    assert_eq!(rotary_action(AutopilotMode::Crs, false), RotaryAction::Course(-1));
    assert_eq!(rotary_action(AutopilotMode::Hdg, true), RotaryAction::Heading(1));
    assert_eq!(rotary_action(AutopilotMode::Vs, false), RotaryAction::VerticalSpeed(-1));
    assert_eq!(rotary_action(AutopilotMode::Alt, true), RotaryAction::Altitude(1));
    assert_eq!(
        rotary_action(AutopilotMode::Com1Coarse, true),
        RotaryAction::SimCommand("sim/radios/stby_com1_coarse_up")
    );
    assert_eq!(
        rotary_action(AutopilotMode::Com1Fine, false),
        RotaryAction::SimCommand("sim/radios/stby_com1_fine_down")
    );
}

#[test]
fn value_commands_need_datarefs_and_begin() {
    let mut state: CommandState<(), ()> = CommandState::new();
    assert_eq!(change_value(&state, true), None);
    state.install_datarefs(());
    set_current_mode(&mut state, AutopilotMode::Vs);
    assert_eq!(change_value(&state, true), Some(RotaryAction::VerticalSpeed(1)));
    assert_eq!(
        handle_value_command(&state, COMMAND_BEGIN, REFCON_FALSE),
        Some(RotaryAction::VerticalSpeed(-1))
    );
    assert_eq!(handle_value_command(&state, COMMAND_CONTINUE, REFCON_TRUE), None);
    assert_eq!(trim_direction(COMMAND_BEGIN, REFCON_TRUE), Some(1));
    assert_eq!(trim_direction(COMMAND_BEGIN, REFCON_FALSE), Some(-1));
    assert_eq!(trim_direction(2, REFCON_TRUE), None);
}

#[test]
fn reverser_commands_address_engines() {
    assert_eq!(reverser_command(COMMAND_BEGIN, -1), Some((None, true)));
    assert_eq!(reverser_command(COMMAND_CONTINUE, 3), Some((Some(3), true)));
    assert_eq!(reverser_command(2, 7), Some((Some(7), false)));
    assert_eq!(reverser_command(COMMAND_BEGIN, 8), None);
    assert_eq!(reverser_command(COMMAND_BEGIN, -2), None);
    assert_eq!(reverser_prop_mode(true), 3);
    assert_eq!(reverser_prop_mode(false), 1);
}

#[test]
fn reverser_buffer_updates() {
    let base = vec![1.0f32, 1.0, 2.0, 1.0, 0.0, 0.0, 0.0, 0.0];
    let mut buf = base.clone();
    assert_eq!(apply_reverser_state(&mut buf, 4, Some(2), 3.0f32), Some(4));
    assert_eq!(buf, vec![1.0, 1.0, 3.0, 1.0, 0.0, 0.0, 0.0, 0.0]);
    let mut buf = base.clone();
    assert_eq!(apply_reverser_state(&mut buf, 4, Some(4), 3.0f32), None);
    assert_eq!(buf, base);
    let mut buf = base.clone();
    assert_eq!(apply_reverser_state(&mut buf, 2, None, 3.0f32), Some(2));
    assert_eq!(buf, vec![3.0, 3.0, 2.0, 1.0, 0.0, 0.0, 0.0, 0.0]);
    let mut buf = base.clone();
    assert_eq!(apply_reverser_state(&mut buf, 40, None, 3.0f32), Some(8));
    assert_eq!(buf, vec![3.0; 8]);
    let mut buf = base.clone();
    assert_eq!(apply_reverser_state(&mut buf, -5, None, 3.0f32), Some(0));
    assert_eq!(buf, base);
}

#[test]
fn command_table_names_and_refcons() {
    let table = command_table(false);
    assert_eq!(table.len(), 18);
    assert_eq!(table[0].name, "HoneycombBravo/mode_ias");
    assert_eq!(table[0].handler, CommandHandler::Mode);
    assert_eq!(table[6].name, "HoneycombBravo/mode_com1_fine");
    assert_eq!(table[6].refcon, 6);
    assert_eq!(table[7].name, "HoneycombBravo/increase");
    assert_eq!(table[7].refcon, REFCON_TRUE);
    assert_eq!(table[8].name, "HoneycombBravo/decrease");
    assert_eq!(table[9].name, "HoneycombBravo/thrust_reversers");
    assert_eq!(table[9].refcon, -1);
    assert_eq!(table[10].name, "HoneycombBravo/thrust_reverser_1");
    assert_eq!(table[10].refcon, 0);
    assert_eq!(table[17].name, "HoneycombBravo/thrust_reverser_8");
    assert_eq!(table[17].description, "Hold thrust reverser #8 on.");
    let with_trim = command_table(true);
    assert_eq!(with_trim.len(), 20);
    assert_eq!(with_trim[18].name, "HoneycombBravo/elevator_trim_nose_up");
    assert_eq!(with_trim[19].handler, CommandHandler::Trim);
    assert_eq!(with_trim[19].refcon, REFCON_FALSE);
}
