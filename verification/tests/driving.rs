use lua_driver::args::{collectargs, ProgramOptions};
use lua_driver::driver::{
    createargtable, exit_code, handle_luainit, handle_script, init_variable, next_step,
    plan_steps, stdin_is_tty, ArgEntry, InitAction, ScriptSource, Step,
};
use lua_driver::status::Status;

fn steps(args: &[&str], terminal: bool) -> Vec<Step> {
    let options = collectargs(args).unwrap();
    plan_steps(&options, terminal)
}

fn table(args: &[&str]) -> Vec<(i64, String)> {
    let options = collectargs(args).unwrap();
    createargtable(&options).iter().map(|e| (e.index, e.value.to_string())).collect()
}

#[test]
fn terminal_is_assumed_where_the_host_cannot_tell() {
    assert!(stdin_is_tty(None));
    assert!(stdin_is_tty(Some(true)));
    assert!(!stdin_is_tty(Some(false)));
}

#[test]
fn no_arguments_on_a_terminal_enter_the_loop_under_the_banner() {
    assert_eq!(
        steps(&["lua"], true),
        vec![Step::OpenLibraries, Step::ArgTable, Step::EnvInit, Step::PrintVersion, Step::Repl]
    );
}

#[test]
fn no_arguments_and_no_terminal_run_standard_input() {
    assert_eq!(
        steps(&["lua"], false),
        vec![Step::OpenLibraries, Step::ArgTable, Step::EnvInit, Step::RunStdin]
    );
}

#[test]
fn script_runs_and_nothing_follows() {
    for terminal in [true, false] {
        assert_eq!(
            steps(&["lua", "main.lua", "x"], terminal),
            vec![Step::OpenLibraries, Step::ArgTable, Step::EnvInit, Step::RunScript]
        );
    }
}

#[test]
fn version_alone_prints_and_ends() {
    for terminal in [true, false] {
        assert_eq!(
            steps(&["lua", "-v"], terminal),
            vec![Step::PrintVersion, Step::OpenLibraries, Step::ArgTable, Step::EnvInit]
        );
    }
}

#[test]
fn execute_alone_runs_and_ends() {
    for terminal in [true, false] {
        assert_eq!(
            steps(&["lua", "-e", "x=1"], terminal),
            vec![Step::OpenLibraries, Step::ArgTable, Step::EnvInit, Step::RunAction(0)]
        );
    }
}

#[test]
fn library_alone_still_falls_through_to_input() {
    assert_eq!(
        steps(&["lua", "-lm"], true),
        vec![
            Step::OpenLibraries,
            Step::ArgTable,
            Step::EnvInit,
            Step::RunAction(0),
            Step::PrintVersion,
            Step::Repl
        ]
    );
    assert_eq!(
        steps(&["lua", "-lm"], false),
        vec![Step::OpenLibraries, Step::ArgTable, Step::EnvInit, Step::RunAction(0), Step::RunStdin]
    );
}

#[test]
fn interactive_enters_the_loop_after_everything_else() {
    for terminal in [true, false] {
        assert_eq!(
            steps(&["lua", "-i", "-e", "a", "-lb", "s.lua"], terminal),
            vec![
                Step::PrintVersion,
                Step::OpenLibraries,
                Step::ArgTable,
                Step::EnvInit,
                Step::RunAction(0),
                Step::RunAction(1),
                Step::RunScript,
                Step::Repl
            ]
        );
    }
}

#[test]
fn ignoring_the_environment_skips_its_initialisation() {
    assert_eq!(
        steps(&["lua", "-E", "s.lua"], true),
        vec![Step::IgnoreEnv, Step::OpenLibraries, Step::ArgTable, Step::RunScript]
    );
    assert_eq!(
        steps(&["lua", "-E", "-v"], false),
        vec![Step::PrintVersion, Step::IgnoreEnv, Step::OpenLibraries, Step::ArgTable]
    );
}

#[test]
fn stop_options_alone_asks_for_nothing() {
    assert_eq!(
        steps(&["lua", "--"], false),
        vec![Step::OpenLibraries, Step::ArgTable, Step::EnvInit, Step::RunStdin]
    );
    assert_eq!(
        steps(&["lua", "--", "-"], false),
        vec![Step::OpenLibraries, Step::ArgTable, Step::EnvInit, Step::RunScript]
    );
}

#[test]
fn default_options_plan() {
    let options = ProgramOptions::default();
    assert_eq!(
        plan_steps(&options, false),
        vec![Step::OpenLibraries, Step::ArgTable, Step::EnvInit, Step::RunStdin]
    );
}

#[test]
fn steps_are_taken_in_order_while_they_succeed() {
    let plan = steps(&["lua", "-e", "a", "s.lua"], true);
    assert_eq!(next_step(&plan, 0, Status::Success), Some(Step::OpenLibraries));
    assert_eq!(next_step(&plan, 1, Status::Success), Some(Step::ArgTable));
    assert_eq!(next_step(&plan, 2, Status::Success), Some(Step::EnvInit));
    assert_eq!(next_step(&plan, 3, Status::Success), Some(Step::RunAction(0)));
    assert_eq!(next_step(&plan, 4, Status::Success), Some(Step::RunScript));
    assert_eq!(next_step(&plan, 5, Status::Success), None);
    assert_eq!(next_step(&plan, 6, Status::Success), None);
}

#[test]
fn first_failure_ends_the_run() {
    let plan = steps(&["lua", "-e", "a", "s.lua"], true);
    assert_eq!(next_step(&plan, 3, Status::RuntimeError), None);
    assert_eq!(next_step(&plan, 4, Status::CompileError), None);
    assert_eq!(next_step(&plan, 4, Status::OutOfMemory), None);
    assert_eq!(next_step(&plan, 4, Status::IoFailure), None);
    assert_eq!(next_step(&plan, 0, Status::RuntimeError), None);
}

#[test]
fn exit_codes() {
    assert_eq!(exit_code(Status::Success), 0);
    assert_eq!(exit_code(Status::CompileError), 1);
    assert_eq!(exit_code(Status::RuntimeError), 1);
    assert_eq!(exit_code(Status::OutOfMemory), 1);
    assert_eq!(exit_code(Status::IoFailure), 1);
}

#[test]
fn table_of_arguments_with_a_script() {
    assert_eq!(
        table(&["lua", "-e", "x=1", "main.lua", "a", "b"]),
        vec![
            (-3, "lua".to_string()),
            (-2, "-e".to_string()),
            (-1, "x=1".to_string()),
            (0, "main.lua".to_string()),
            (1, "a".to_string()),
            (2, "b".to_string()),
        ]
    );
}

#[test]
fn table_of_arguments_without_a_script() {
    assert_eq!(
        table(&["lua", "-i"]),
        vec![(-2, "lua".to_string()), (-1, "-i".to_string())]
    );
    assert_eq!(table(&["lua"]), vec![(-1, "lua".to_string())]);
}

#[test]
fn table_of_arguments_behind_stop_options() {
    assert_eq!(
        table(&["lua", "--", "-", "x"]),
        vec![
            (-2, "lua".to_string()),
            (-1, "--".to_string()),
            (0, "-".to_string()),
            (1, "x".to_string()),
        ]
    );
}

#[test]
fn table_of_no_arguments_is_empty() {
    let options = ProgramOptions::default();
    let entries: Vec<ArgEntry> = createargtable(&options);
    assert!(entries.is_empty());
}

#[test]
fn lone_marker_reads_standard_input() {
    assert_eq!(handle_script("-", false), ScriptSource::Stdin);
}

#[test]
fn lone_marker_behind_stop_options_is_a_file() {
    assert_eq!(handle_script("-", true), ScriptSource::File("-"));
}

#[test]
fn any_other_name_is_a_file() {
    assert_eq!(handle_script("main.lua", false), ScriptSource::File("main.lua"));
    assert_eq!(handle_script("main.lua", true), ScriptSource::File("main.lua"));
    assert_eq!(handle_script("--", false), ScriptSource::File("--"));
    assert_eq!(handle_script("", false), ScriptSource::File(""));
    assert_eq!(handle_script("-x", false), ScriptSource::File("-x"));
}

#[test]
fn initialisation_variable_names() {
    assert_eq!(init_variable(true), "LUA_INIT_5_3");
    assert_eq!(init_variable(false), "LUA_INIT");
}

#[test]
fn no_variable_nothing_to_run() {
    assert_eq!(handle_luainit(None, None), None);
}

#[test]
fn inline_initialisation_runs_under_the_variables_name() {
    assert_eq!(
        handle_luainit(None, Some("x = 1".to_string())),
        Some(InitAction::Source { code: "x = 1".to_string(), chunk: "=LUA_INIT".to_string() })
    );
    assert_eq!(
        handle_luainit(Some("y = 2".to_string()), None),
        Some(InitAction::Source { code: "y = 2".to_string(), chunk: "=LUA_INIT_5_3".to_string() })
    );
}

#[test]
fn versioned_variable_goes_first() {
    assert_eq!(
        handle_luainit(Some("y = 2".to_string()), Some("x = 1".to_string())),
        Some(InitAction::Source { code: "y = 2".to_string(), chunk: "=LUA_INIT_5_3".to_string() })
    );
    assert_eq!(
        handle_luainit(Some("@new.lua".to_string()), Some("@old.lua".to_string())),
        Some(InitAction::File("new.lua".to_string()))
    );
}

#[test]
fn file_initialisation() {
    assert_eq!(
        handle_luainit(None, Some("@/etc/init.lua".to_string())),
        Some(InitAction::File("/etc/init.lua".to_string()))
    );
    assert_eq!(
        handle_luainit(None, Some("@".to_string())),
        Some(InitAction::File(String::new()))
    );
    assert_eq!(
        handle_luainit(None, Some("@@x".to_string())),
        Some(InitAction::File("@x".to_string()))
    );
}

#[test]
fn empty_variable_is_empty_code() {
    assert_eq!(
        handle_luainit(Some(String::new()), Some("x = 1".to_string())),
        Some(InitAction::Source { code: String::new(), chunk: "=LUA_INIT_5_3".to_string() })
    );
}
