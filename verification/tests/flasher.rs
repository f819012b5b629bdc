use bsl_flasher::{
    generate_script, interp_step, interpret_events, line_has_ack_error, select_terminal_event,
    FlashError, FlashOutcome, InterpState, ProcessEvent, StepAction, TerminalEvent,
    ACK_ERROR_SENTINEL_CODE,
};

fn err_line() -> ProcessEvent {
    ProcessEvent::Stdout(b"Reply: [ACK_ERROR_MESSAGE]".to_vec())
}

fn ok_line() -> ProcessEvent {
    ProcessEvent::Stdout(b"Writing data block 3 of 7".to_vec())
}

#[test]
fn script_text_for_com3() {
    let script = generate_script("COM3", Some("F"), Some("P")).unwrap();
    assert_eq!(
        script,
        "MODE FRxx UART COM3 BAUD 9600 PARITY E\n\
         DELAY 1000\n\
         CHANGE_BAUD_RATE 115200\n\
         RX_PASSWORD P\n\
         RX_DATA_BLOCK F\n\
         SET_PC 0x6586\n"
    );
}

#[test]
fn script_real_paths() {
    let script = generate_script(
        "/dev/ttyUSB0",
        Some("/tmp/scratch/firmware.txt"),
        Some("/tmp/scratch/password.txt"),
    )
    .unwrap();
    assert_eq!(
        script,
        "MODE FRxx UART /dev/ttyUSB0 BAUD 9600 PARITY E\n\
         DELAY 1000\n\
         CHANGE_BAUD_RATE 115200\n\
         RX_PASSWORD /tmp/scratch/password.txt\n\
         RX_DATA_BLOCK /tmp/scratch/firmware.txt\n\
         SET_PC 0x6586\n"
    );
}

#[test]
fn script_invalid_firmware_path() {
    assert!(matches!(
        generate_script("COM3", None, Some("P")),
        Err(FlashError::InvalidFirmwarePath)
    ));
}

#[test]
fn script_firmware_path_checked_first() {
    assert!(matches!(
        generate_script("COM3", None, None),
        Err(FlashError::InvalidFirmwarePath)
    ));
}

#[test]
fn script_invalid_password_path() {
    assert!(matches!(
        generate_script("COM3", Some("F"), None),
        Err(FlashError::InvalidPasswordPath)
    ));
}

#[test]
fn marker_detected_inside_line() {
    assert!(line_has_ack_error(b"x [ACK_ERROR_MESSAGE] y"));
    assert!(line_has_ack_error(b"[ACK_ERROR_MESSAGE]"));
}

#[test]
fn marker_absent() {
    assert!(!line_has_ack_error(b"all good"));
    assert!(!line_has_ack_error(b""));
}

#[test]
fn marker_partial_does_not_match() {
    assert!(!line_has_ack_error(b"[ACK_ERROR_MESSAGE"));
    assert!(!line_has_ack_error(b"ACK_ERROR_MESSAGE]"));
    assert!(!line_has_ack_error(b"[ACK_ERROR_MESSAGE_"));
}

#[test]
fn five_consecutive_errors_fail_with_sentinel() {
    let events = vec![err_line(), err_line(), err_line(), err_line(), err_line()];
    let outcome = interpret_events(&events);
    assert_eq!(
        outcome,
        FlashOutcome { success: false, exit_code: Some(ACK_ERROR_SENTINEL_CODE), timed_out: false }
    );
}

#[test]
fn output_after_threshold_changes_nothing() {
    let events = vec![
        err_line(),
        err_line(),
        err_line(),
        err_line(),
        err_line(),
        ok_line(),
        ProcessEvent::Terminated(Some(0)),
    ];
    let outcome = interpret_events(&events);
    assert_eq!(
        outcome,
        FlashOutcome { success: false, exit_code: Some(ACK_ERROR_SENTINEL_CODE), timed_out: false }
    );
}

#[test]
fn ok_line_resets_error_counter() {
    let mut events = Vec::new();
    for _ in 0..4 {
        events.push(err_line());
    }
    events.push(ok_line());
    for _ in 0..4 {
        events.push(err_line());
    }
    events.push(ProcessEvent::Terminated(Some(0)));
    let outcome = interpret_events(&events);
    assert_eq!(outcome, FlashOutcome { success: true, exit_code: Some(0), timed_out: false });
}

#[test]
fn stderr_does_not_touch_the_counter() {
    let events = vec![
        err_line(),
        err_line(),
        err_line(),
        err_line(),
        ProcessEvent::Stderr(b"device busy".to_vec()),
        err_line(),
    ];
    let outcome = interpret_events(&events);
    assert_eq!(
        outcome,
        FlashOutcome { success: false, exit_code: Some(ACK_ERROR_SENTINEL_CODE), timed_out: false }
    );
}

#[test]
fn internal_error_does_not_terminate() {
    let events = vec![
        ProcessEvent::Error("read failed".to_string()),
        ProcessEvent::Terminated(Some(0)),
    ];
    let outcome = interpret_events(&events);
    assert_eq!(outcome, FlashOutcome { success: true, exit_code: Some(0), timed_out: false });
}

#[test]
fn termination_with_zero_succeeds() {
    let events = vec![ok_line(), ProcessEvent::Terminated(Some(0))];
    let outcome = interpret_events(&events);
    assert_eq!(outcome, FlashOutcome { success: true, exit_code: Some(0), timed_out: false });
    assert_eq!(select_terminal_event(&outcome), TerminalEvent::Finished);
}

#[test]
fn termination_with_nonzero_fails() {
    let events = vec![ProcessEvent::Terminated(Some(3))];
    let outcome = interpret_events(&events);
    assert_eq!(outcome, FlashOutcome { success: false, exit_code: Some(3), timed_out: false });
    assert_eq!(select_terminal_event(&outcome), TerminalEvent::Failed(Some(3)));
}

#[test]
fn termination_without_code_fails() {
    let events = vec![ProcessEvent::Terminated(None)];
    let outcome = interpret_events(&events);
    assert_eq!(outcome, FlashOutcome { success: false, exit_code: None, timed_out: false });
    assert_eq!(select_terminal_event(&outcome), TerminalEvent::Failed(None));
}

#[test]
fn stream_end_without_termination_is_failure() {
    let events: Vec<ProcessEvent> = Vec::new();
    let outcome = interpret_events(&events);
    assert_eq!(outcome, FlashOutcome { success: false, exit_code: None, timed_out: false });
    let events = vec![ok_line(), ok_line()];
    let outcome = interpret_events(&events);
    assert_eq!(outcome, FlashOutcome { success: false, exit_code: None, timed_out: false });
}

#[test]
fn timeout_outcome_reports_timeout_event() {
    let outcome = FlashOutcome { success: false, exit_code: None, timed_out: true };
    assert_eq!(select_terminal_event(&outcome), TerminalEvent::Timeout);
}

#[test]
fn stdout_lines_are_forwarded() {
    let (state, action) = interp_step(0, &ok_line());
    assert!(matches!(state, InterpState::Running(0)));
    assert_eq!(action, StepAction::EmitStdout);
    let (state, action) = interp_step(0, &err_line());
    assert!(matches!(state, InterpState::Running(1)));
    assert_eq!(action, StepAction::EmitStdout);
}

#[test]
fn stderr_lines_are_forwarded_as_errors() {
    let (state, action) = interp_step(2, &ProcessEvent::Stderr(b"oops".to_vec()));
    assert!(matches!(state, InterpState::Running(2)));
    assert_eq!(action, StepAction::EmitStderr);
}

#[test]
fn threshold_line_is_forwarded_like_any_other() {
    let (state, action) = interp_step(4, &err_line());
    assert!(matches!(
        state,
        InterpState::Done(FlashOutcome { success: false, exit_code: Some(ACK_ERROR_SENTINEL_CODE), timed_out: false })
    ));
    assert_eq!(action, StepAction::EmitStdout);
}

#[test]
fn other_events_are_ignored() {
    let (state, action) = interp_step(3, &ProcessEvent::Other);
    assert!(matches!(state, InterpState::Running(3)));
    assert_eq!(action, StepAction::NoEmit);
}
