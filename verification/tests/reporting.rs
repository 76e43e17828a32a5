use lua_driver::interrupt::{Checkpoint, Delivery, InterruptState};
use lua_driver::report::{interrupt_message, message, msghandler, print_usage, ErrorValue};
use lua_driver::status::Status;

const HELP: &str = " [options] [script [args]]
Available options are:
  -e stat  execute string 'stat'
  -i       enter interactive mode after executing 'script'
  -l name  require library 'name'
  -v       show version information
  -E       ignore environment variables
  --       stop handling options
  -        stop handling options and execute stdin
";

#[test]
fn only_success_is_ok() {
    assert!(Status::Success.is_ok());
    assert!(!Status::CompileError.is_ok());
    assert!(!Status::RuntimeError.is_ok());
    assert!(!Status::OutOfMemory.is_ok());
    assert!(!Status::IoFailure.is_ok());
}

#[test]
fn text_error_is_the_message() {
    assert_eq!(msghandler(ErrorValue::Text("boom".to_string())), "boom");
    assert_eq!(msghandler(ErrorValue::Text(String::new())), "");
}

#[test]
fn converted_error_is_the_message() {
    let error = ErrorValue::Other {
        converted: Some("custom failure".to_string()),
        kind: "table".to_string(),
    };
    assert_eq!(msghandler(error), "custom failure");
}

#[test]
fn unconvertible_error_names_its_type() {
    let error = ErrorValue::Other { converted: None, kind: "table".to_string() };
    assert_eq!(msghandler(error), "(error object is a table value)");
    let error = ErrorValue::Other { converted: None, kind: "nil".to_string() };
    assert_eq!(msghandler(error), "(error object is a nil value)");
    let error = ErrorValue::Other { converted: None, kind: "userdata".to_string() };
    assert_eq!(msghandler(error), "(error object is a userdata value)");
}

#[test]
fn error_line_with_the_program_name() {
    assert_eq!(message("boom", Some("lua")), "lua: boom\n");
    assert_eq!(
        message("cannot create state: not enough memory", Some("/usr/bin/lua")),
        "/usr/bin/lua: cannot create state: not enough memory\n"
    );
}

#[test]
fn error_line_without_the_program_name() {
    assert_eq!(message("boom", None), "boom\n");
    assert_eq!(message("", None), "\n");
}

#[test]
fn usage_for_a_missing_argument() {
    assert_eq!(
        print_usage("lua", "-e"),
        format!("lua: '-e' needs argument\nusage: lua{}", HELP)
    );
    assert_eq!(
        print_usage("lua", "-l"),
        format!("lua: '-l' needs argument\nusage: lua{}", HELP)
    );
}

#[test]
fn usage_for_an_unknown_option() {
    assert_eq!(
        print_usage("lua", "-x"),
        format!("lua: unrecognized option '-x'\nusage: lua{}", HELP)
    );
    assert_eq!(
        print_usage("./l", "--all"),
        format!("./l: unrecognized option '--all'\nusage: ./l{}", HELP)
    );
    assert_eq!(
        print_usage("lua", "-ix"),
        format!("lua: unrecognized option '-ix'\nusage: lua{}", HELP)
    );
}

#[test]
fn usage_goes_by_the_second_character_only() {
    assert_eq!(
        print_usage("lua", "xe"),
        format!("lua: 'xe' needs argument\nusage: lua{}", HELP)
    );
    assert_eq!(
        print_usage("lua", "-"),
        format!("lua: unrecognized option '-'\nusage: lua{}", HELP)
    );
    assert_eq!(print_usage("lua", ""), format!("lua: unrecognized option ''\nusage: lua{}", HELP));
}

#[test]
fn interrupted_call_message() {
    assert_eq!(interrupt_message(), "interrupted!");
    assert!(interrupt_message().contains("interrupted"));
}

#[test]
fn guard_starts_at_rest() {
    let state = InterruptState::new();
    assert_eq!(state, InterruptState { armed: false, stop_requested: false });
}

#[test]
fn interrupt_during_a_protected_call_stops_it() {
    let state = InterruptState::new().arm();
    assert!(state.armed);
    let (state, delivery) = state.on_signal();
    assert_eq!(delivery, Delivery::Caught);
    assert_eq!(state, InterruptState { armed: false, stop_requested: true });
    let (state, checkpoint) = state.on_checkpoint();
    assert_eq!(checkpoint, Checkpoint::Interrupt);
    assert_eq!(state, InterruptState { armed: false, stop_requested: false });
    let state = state.disarm();
    assert_eq!(state, InterruptState::new());
}

#[test]
fn second_interrupt_is_not_caught() {
    let (state, first) = InterruptState::new().arm().on_signal();
    assert_eq!(first, Delivery::Caught);
    let (after, second) = state.on_signal();
    assert_eq!(second, Delivery::Default);
    assert_eq!(after, state);
    let (state, _) = state.on_checkpoint();
    let (_, third) = state.on_signal();
    assert_eq!(third, Delivery::Default);
}

#[test]
fn interrupt_outside_a_protected_call_is_not_caught() {
    let (state, delivery) = InterruptState::new().on_signal();
    assert_eq!(delivery, Delivery::Default);
    assert_eq!(state, InterruptState::new());
    let (_, delivery) = InterruptState::new().arm().disarm().on_signal();
    assert_eq!(delivery, Delivery::Default);
}

#[test]
fn checkpoint_without_a_request_goes_on() {
    let state = InterruptState::new().arm();
    let (after, checkpoint) = state.on_checkpoint();
    assert_eq!(checkpoint, Checkpoint::Proceed);
    assert_eq!(after, state);
}

#[test]
fn request_is_consumed_once() {
    let (state, _) = InterruptState::new().arm().on_signal();
    let (state, first) = state.on_checkpoint();
    let (_, second) = state.on_checkpoint();
    assert_eq!(first, Checkpoint::Interrupt);
    assert_eq!(second, Checkpoint::Proceed);
}

#[test]
fn request_outlives_the_call_that_ended_early() {
    let (state, _) = InterruptState::new().arm().on_signal();
    let state = state.disarm().arm();
    assert_eq!(state, InterruptState { armed: true, stop_requested: true });
    let (_, checkpoint) = state.on_checkpoint();
    assert_eq!(checkpoint, Checkpoint::Interrupt);
}

#[test]
fn each_protected_call_catches_one_interrupt() {
    let (state, _) = InterruptState::new().arm().on_signal();
    let (state, _) = state.on_checkpoint();
    let state = state.disarm().arm();
    let (_, delivery) = state.on_signal();
    assert_eq!(delivery, Delivery::Caught);
}
