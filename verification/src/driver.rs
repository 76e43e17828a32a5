//! The sequence that the driver follows once the arguments are classified.

use crate::args::{Plan, ProgramOptions, Token};
use crate::status::Status;
use crate::text::{is_prefix, skip_chars, starts_with, text_of};
use vstd::prelude::*;

verus! {

/// One step of the driver.
#[derive(Clone, Copy, PartialEq, Eq, Debug)]
pub enum Step {
    /// Print the banner.
    PrintVersion,
    /// Tell the libraries to ignore the environment.
    IgnoreEnv,
    /// Open the standard libraries.
    OpenLibraries,
    /// Build the table of arguments.
    ArgTable,
    /// Run what the initialisation variable of the environment holds.
    EnvInit,
    /// Run the queued action with this index.
    RunAction(usize),
    /// Run the script.
    RunScript,
    /// Enter the interactive loop.
    Repl,
    /// Run standard input as a script.
    RunStdin,
}

/// The steps that open every run, up to the table of arguments.
pub open spec fn opening(plan: Plan) -> Seq<Step> {
    (if plan.version {
        seq![Step::PrintVersion]
    } else {
        seq![]
    }) + (if plan.ignore_env {
        seq![Step::IgnoreEnv]
    } else {
        seq![]
    }) + seq![Step::OpenLibraries, Step::ArgTable] + (if plan.ignore_env {
        seq![]
    } else {
        seq![Step::EnvInit]
    })
}

/// One step for each queued action, in order.
pub open spec fn action_steps(count: nat) -> Seq<Step> {
    Seq::new(count, |k: int| Step::RunAction(k as usize))
}

/// Whether the command line asked for nothing: no script, no statement, no
/// banner.
pub open spec fn bare(plan: Plan) -> bool {
    plan.post.len() == 0 && !plan.execute && !plan.version
}

/// The steps that close a run. With `-i` the interactive loop is entered in
/// any case. Else, where the command line asked for nothing, the loop is
/// entered under its banner if input comes from a terminal, and standard
/// input is run as a script if not.
pub open spec fn closing(plan: Plan, terminal: bool) -> Seq<Step> {
    if plan.interactive {
        seq![Step::Repl]
    } else if bare(plan) {
        if terminal {
            seq![Step::PrintVersion, Step::Repl]
        } else {
            seq![Step::RunStdin]
        }
    } else {
        seq![]
    }
}

/// All steps of a run, in order.
pub open spec fn steps_of(plan: Plan, terminal: bool) -> Seq<Step> {
    opening(plan) + action_steps(plan.actions.len()) + (if plan.post.len() > 0 {
        seq![Step::RunScript]
    } else {
        seq![]
    }) + closing(plan, terminal)
}

/// The step to take after `done` steps, the last of which ended with
/// `last`: none once a step has failed or all are done.
pub open spec fn step_after(steps: Seq<Step>, done: int, last: Status) -> Option<Step> {
    if last.ok() && 0 <= done < steps.len() {
        Some(steps[done])
    } else {
        None
    }
}

/// Whether input is taken to come from a terminal: what the host detected,
/// and yes where it has no such notion.
pub open spec fn terminal_input(detected: Option<bool>) -> bool {
    match detected {
        Some(b) => b,
        None => true,
    }
}

/// The code with which the process ends.
pub open spec fn exit_code_of(last: Status) -> i32 {
    if last.ok() {
        0
    } else {
        1
    }
}

/// Tells whether standard input counts as a terminal: `detected` where the
/// host could tell, `true` where it has no notion of a terminal.
pub fn stdin_is_tty(detected: Option<bool>) -> (terminal: bool)
    ensures
        terminal == terminal_input(detected),
{
    match detected {
        Some(b) => b,
        None => true,
    }
}

/// Lays out the run for classified arguments. `terminal` says whether
/// standard input is a terminal.
pub fn plan_steps<'a>(options: &ProgramOptions<'a>, terminal: bool) -> (steps: Vec<Step>)
    ensures
        steps@ == steps_of(options@, terminal),
{
    let mut steps: Vec<Step> = Vec::new();
    if options.version {
        steps.push(Step::PrintVersion);
    }
    if options.ignore_env {
        steps.push(Step::IgnoreEnv);
    }
    steps.push(Step::OpenLibraries);
    steps.push(Step::ArgTable);
    if !options.ignore_env {
        steps.push(Step::EnvInit);
    }
    assert(steps@ =~= opening(options@));
    let count: usize = options.runnable_args.len();
    let mut k: usize = 0;
    while k < count
        invariant
            k <= count,
            count == options.runnable_args@.len(),
            steps@ == opening(options@) + action_steps(k as nat),
        decreases count - k,
    {
        steps.push(Step::RunAction(k));
        assert(steps@ =~= opening(options@) + action_steps((k + 1) as nat));
        k += 1;
    }
    if options.script_args.len() > 0 {
        steps.push(Step::RunScript);
    }
    if options.interactive {
        steps.push(Step::Repl);
    } else if options.script_args.len() == 0 && !options.execute && !options.version {
        if terminal {
            steps.push(Step::PrintVersion);
            steps.push(Step::Repl);
        } else {
            steps.push(Step::RunStdin);
        }
    }
    assert(steps@ =~= steps_of(options@, terminal));
    steps
}

/// Gives the step to take next, after `done` steps of `steps`, the last of
/// which ended with `last` (success before the first). The run stops at the
/// first step that fails.
pub fn next_step(steps: &Vec<Step>, done: usize, last: Status) -> (step: Option<Step>)
    ensures
        step == step_after(steps@, done as int, last),
{
    if last.is_ok() && done < steps.len() {
        Some(steps[done])
    } else {
        None
    }
}

/// The exit code of the process: zero if the last step went through.
pub fn exit_code(last: Status) -> (code: i32)
    ensures
        code == exit_code_of(last),
{
    if last.is_ok() {
        0
    } else {
        1
    }
}

/// The interactive loop is the last step of a run or no step of it, and it
/// is entered exactly when `-i` was given or the command line asked for
/// nothing and input comes from a terminal. Standard input is run as a
/// script exactly when the command line asked for nothing, `-i` included,
/// and input comes from no terminal.
pub proof fn lemma_closing_branch(plan: Plan, terminal: bool)
    ensures
        closing(plan, terminal).contains(Step::Repl) <==> plan.interactive || (bare(plan)
            && terminal),
        closing(plan, terminal).contains(Step::Repl) ==> closing(plan, terminal).last()
            == Step::Repl && steps_of(plan, terminal).last() == Step::Repl,
        closing(plan, terminal).contains(Step::RunStdin) <==> !plan.interactive && bare(plan)
            && !terminal,
        closing(plan, terminal).len() == 0 <==> !plan.interactive && !bare(plan),
{
    let end = closing(plan, terminal);
    if plan.interactive {
        assert(end[0] == Step::Repl);
    } else if bare(plan) {
        if terminal {
            assert(end[1] == Step::Repl);
        } else {
            assert(end[0] == Step::RunStdin);
        }
    }
}

/// The queued actions run in the order of the command line, each once,
/// after the opening steps and before the script.
pub proof fn lemma_actions_in_order(plan: Plan, terminal: bool, k: int)
    requires
        0 <= k < plan.actions.len(),
    ensures
        steps_of(plan, terminal)[opening(plan).len() + k] == Step::RunAction(k as usize),
        plan.post.len() > 0 ==> steps_of(plan, terminal)[(opening(plan).len()
            + plan.actions.len()) as int] == Step::RunScript,
        forall|j: int|
            0 <= j < opening(plan).len() ==> !(#[trigger] steps_of(plan, terminal)[j]
                is RunAction) && steps_of(plan, terminal)[j] != Step::RunScript,
{
    let front = opening(plan);
    let acts = action_steps(plan.actions.len());
    assert(acts[k] == Step::RunAction(k as usize));
    assert forall|j: int| 0 <= j < front.len() implies !(#[trigger] steps_of(plan, terminal)[j]
        is RunAction) && steps_of(plan, terminal)[j] != Step::RunScript by {
        assert(steps_of(plan, terminal)[j] == front[j]);
    }
}

/// The run stops at the first step that fails: after a failure no step is
/// taken, and the process ends with a code that is not zero.
pub proof fn lemma_failure_ends_the_run(steps: Seq<Step>, done: int, last: Status)
    requires
        !last.ok(),
    ensures
        step_after(steps, done, last) is None,
        exit_code_of(last) != 0,
{
}

/// One entry of the table of arguments that scripts see.
#[derive(Clone, Copy, PartialEq, Eq, Debug)]
pub struct ArgEntry<'a> {
    /// The index under which the token is stored.
    pub index: i64,
    /// The token.
    pub value: &'a str,
}

/// The table of arguments of a plan: the script name has index 0, its
/// arguments follow at 1, 2, ..., and the tokens in front of the script
/// stand at negative indices, the last of them at -1.
pub open spec fn arg_table(pre: Seq<&str>, post: Seq<&str>) -> Seq<(int, Token)> {
    Seq::new(pre.len() + post.len(), |k: int| (k - pre.len(), (pre + post)[k]@))
}

/// An entry as a pair of index and token.
pub open spec fn entry_pair(entry: ArgEntry) -> (int, Token) {
    (entry.index as int, entry.value@)
}

/// The entries of a table as pairs.
pub open spec fn entry_pairs(entries: Seq<ArgEntry>) -> Seq<(int, Token)> {
    Seq::new(entries.len(), |k: int| entry_pair(entries[k]))
}

/// Lists the entries of the table of arguments, in the order of the
/// command line.
pub fn createargtable<'a>(options: &ProgramOptions<'a>) -> (table: Vec<ArgEntry<'a>>)
    requires
        options.pre_script_args@.len() <= i64::MAX,
        options.script_args@.len() <= i64::MAX,
    ensures
        entry_pairs(table@) == arg_table(options.pre_script_args@, options.script_args@),
{
    let pre = options.pre_script_args;
    let post = options.script_args;
    let front: usize = pre.len();
    let back: usize = post.len();
    let mut table: Vec<ArgEntry<'a>> = Vec::new();
    let mut i: usize = 0;
    while i < front
        invariant
            i <= front,
            front == pre@.len(),
            front <= i64::MAX,
            table@.len() == i,
            forall|k: int| 0 <= k < i ==> entry_pair(#[trigger] table@[k]) == (k - front, pre@[k]@),
        decreases front - i,
    {
        table.push(ArgEntry { index: (i as i64) - (front as i64), value: pre[i] });
        i += 1;
    }
    let mut j: usize = 0;
    while j < back
        invariant
            j <= back,
            back == post@.len(),
            front == pre@.len(),
            back <= i64::MAX,
            table@.len() == front + j,
            forall|k: int|
                0 <= k < front ==> entry_pair(#[trigger] table@[k]) == (k - front, pre@[k]@),
            forall|k: int|
                front <= k < front + j ==> entry_pair(#[trigger] table@[k]) == (
                    k - front,
                    post@[k - front]@,
                ),
        decreases back - j,
    {
        table.push(ArgEntry { index: j as i64, value: post[j] });
        j += 1;
    }
    assert(entry_pairs(table@) =~= arg_table(pre@, post@));
    table
}

/// Where a script is read from.
#[derive(Clone, Copy, PartialEq, Eq, Debug)]
pub enum ScriptSource<'a> {
    /// Standard input.
    Stdin,
    /// The file of this name.
    File(&'a str),
}

/// Where the script named `name` is read from: standard input for a lone
/// marker that no `--` precedes, else the file of that name.
pub open spec fn script_is_stdin(name: Token, stop_options: bool) -> bool {
    name == seq!['-'] && !stop_options
}

/// Says where the script named `name` is read from. A lone `-` stands for
/// standard input, unless `--` ended the options: then it is a file name
/// like any other.
pub fn handle_script<'a>(name: &'a str, stop_options: bool) -> (source: ScriptSource<'a>)
    ensures
        script_is_stdin(name@, stop_options) ==> source == ScriptSource::Stdin,
        !script_is_stdin(name@, stop_options) ==> source == ScriptSource::File(name),
{
    if !stop_options && name.unicode_len() == 1 && name.get_char(0) == '-' {
        assert(name@ =~= seq!['-']);
        ScriptSource::Stdin
    } else {
        ScriptSource::File(name)
    }
}

/// What the initialisation variable asks to run.
#[derive(PartialEq, Eq, Debug)]
pub enum InitAction {
    /// Run the file of this name.
    File(String),
    /// Run `code` under the chunk name `chunk`.
    Source { code: String, chunk: String },
}

/// An initialisation in the model.
pub enum InitModel {
    /// Run the file of this name.
    File(Seq<char>),
    /// Run the code (first) under the chunk name (second).
    Source(Seq<char>, Seq<char>),
}

impl View for InitAction {
    type V = InitModel;

    open spec fn view(&self) -> InitModel {
        match *self {
            InitAction::File(path) => InitModel::File(path@),
            InitAction::Source { code, chunk } => InitModel::Source(code@, chunk@),
        }
    }
}

/// The name of the initialisation variable: the one that carries the
/// version, or the plain one.
pub open spec fn init_variable_name(versioned: bool) -> Seq<char> {
    if versioned {
        "LUA_INIT_5_3"@
    } else {
        "LUA_INIT"@
    }
}

/// The chunk name under which the value of an initialisation variable runs.
pub open spec fn init_chunk_name(versioned: bool) -> Seq<char> {
    "="@ + init_variable_name(versioned)
}

/// What one value of an initialisation variable asks for: behind `@` a file
/// name, else code.
pub open spec fn init_of(value: Seq<char>, versioned: bool) -> InitModel {
    if is_prefix(value, "@"@) {
        InitModel::File(value.subrange("@"@.len() as int, value.len() as int))
    } else {
        InitModel::Source(value, init_chunk_name(versioned))
    }
}

/// What the environment asks to run first: the variable with the version
/// goes before the plain one, and with neither set there is nothing to run.
pub open spec fn init_action(versioned: Option<Seq<char>>, plain: Option<Seq<char>>) -> Option<
    InitModel,
> {
    match versioned {
        Some(value) => Some(init_of(value, true)),
        None => match plain {
            Some(value) => Some(init_of(value, false)),
            None => None,
        },
    }
}

/// The name of an initialisation variable.
pub fn init_variable(versioned: bool) -> (name: &'static str)
    ensures
        name@ == init_variable_name(versioned),
{
    if versioned {
        "LUA_INIT_5_3"
    } else {
        "LUA_INIT"
    }
}

/// What one value of an initialisation variable asks for.
fn init_from(value: String, versioned: bool) -> (action: InitAction)
    ensures
        action@ == init_of(value@, versioned),
{
    if starts_with(value.as_str(), "@") {
        let mark: usize = "@".unicode_len();
        InitAction::File(skip_chars(value.as_str(), mark).to_owned())
    } else {
        let mut chunk = "=".to_owned();
        chunk.append(init_variable(versioned));
        InitAction::Source { code: value, chunk }
    }
}

/// Says what to run before any action of the command line, given the values
/// of the two initialisation variables (`None` for one that is not set). The
/// variable with the version goes before the plain one. A value that begins
/// with `@` names a file; any other is code, run under the variable's name
/// with `=` in front. With neither set there is nothing to run.
pub fn handle_luainit(versioned: Option<String>, plain: Option<String>) -> (action: Option<
    InitAction,
>)
    ensures
        match action {
            Some(a) => init_action(text_of(versioned), text_of(plain)) == Some(a@),
            None => init_action(text_of(versioned), text_of(plain)) is None,
        },
{
    match versioned {
        Some(value) => Some(init_from(value, true)),
        None => match plain {
            Some(value) => Some(init_from(value, false)),
            None => None,
        },
    }
}

} // verus!
