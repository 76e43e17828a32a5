//! The incremental loader of the interactive loop.
//!
//! One statement is read in steps. The caller prompts, reads and compiles;
//! a [`Loader`] says what to do next and takes what came back. A line is
//! first tried as an expression, `return <line>;`, so that its value gets
//! printed; if that does not compile it is tried as it stands, and as long as
//! the compiler complains of an unexpected end of input, further lines are
//! joined to it.

use crate::status::Status;
use crate::text::{chomp, ends_with, is_suffix, join3, lines, str_of, strip_newline, text_of};
use vstd::prelude::*;

verus! {

/// A compilation as the loader sees it.
#[derive(Clone, Copy, PartialEq, Eq, Debug)]
pub enum CompileOutcome {
    /// A unit is ready to be called.
    Ready,
    /// The source ends too early: more input may complete it.
    Incomplete,
    /// The source is wrong.
    Failed,
}

/// The state of a load, in the model.
pub enum LoaderModel {
    /// Nothing was read yet.
    First,
    /// The expression form of this line is with the compiler.
    Expression(Seq<char>),
    /// This source is with the compiler, as a statement.
    Statement(Seq<char>),
    /// The source (first) ends too early, as the compiler's message (second)
    /// says, and a further line is being read.
    Continuation(Seq<char>, Seq<char>),
    /// There was no input.
    NoInput,
    /// The unit that was compiled last is the result.
    Ready,
    /// The statement cannot be loaded; the text is the compiler's message.
    Failed(Seq<char>),
}

/// What a load asks of its caller, in the model.
pub enum RequestModel {
    /// Show the primary (`true`) or the secondary prompt and read a line.
    ReadLine(bool),
    /// Compile this source under the chunk name of interactive input.
    Compile(Seq<char>),
    /// Nothing: the load is over.
    Done,
}

/// The state of a load.
#[derive(PartialEq, Eq, Debug)]
pub enum Loader {
    /// Nothing was read yet.
    First,
    /// The expression form of `line` is with the compiler.
    Expression { line: String },
    /// `source` is with the compiler, as a statement.
    Statement { source: String },
    /// `source` ends too early, as the compiler's `message` says, and a
    /// further line is being read.
    Continuation { source: String, message: String },
    /// There was no input.
    NoInput,
    /// The unit that was compiled last is the result.
    Ready,
    /// The statement cannot be loaded.
    Failed { message: String },
}

/// What a load asks of its caller.
#[derive(PartialEq, Eq, Debug)]
pub enum Request {
    /// Show the primary or the secondary prompt and read a line.
    ReadLine { firstline: bool },
    /// Compile `source` under the chunk name of interactive input.
    Compile { source: String },
    /// Nothing: the load is over.
    Done,
}

impl View for Loader {
    type V = LoaderModel;

    open spec fn view(&self) -> LoaderModel {
        match *self {
            Loader::First => LoaderModel::First,
            Loader::Expression { line } => LoaderModel::Expression(line@),
            Loader::Statement { source } => LoaderModel::Statement(source@),
            Loader::Continuation { source, message } => LoaderModel::Continuation(
                source@,
                message@,
            ),
            Loader::NoInput => LoaderModel::NoInput,
            Loader::Ready => LoaderModel::Ready,
            Loader::Failed { message } => LoaderModel::Failed(message@),
        }
    }
}

impl View for Request {
    type V = RequestModel;

    open spec fn view(&self) -> RequestModel {
        match *self {
            Request::ReadLine { firstline } => RequestModel::ReadLine(firstline),
            Request::Compile { source } => RequestModel::Compile(source@),
            Request::Done => RequestModel::Done,
        }
    }
}

/// The mark at the end of the compiler's message for a source that ends too early.
pub open spec fn eof_mark() -> Seq<char> {
    "<eof>"@
}

/// The name under which interactive input is compiled.
pub open spec fn stdin_chunk() -> Seq<char> {
    "=stdin"@
}

/// The primary and the secondary prompt that apply when none is set.
pub open spec fn default_prompt(firstline: bool) -> Seq<char> {
    if firstline {
        "> "@
    } else {
        ">> "@
    }
}

/// The global variable that overrides the primary or the secondary prompt.
pub open spec fn prompt_variable(firstline: bool) -> Seq<char> {
    if firstline {
        "_PROMPT"@
    } else {
        "_PROMPT2"@
    }
}

/// The prompt to show: the override where there is one, else the default.
pub open spec fn prompt_text(firstline: bool, global: Option<Seq<char>>) -> Seq<char> {
    match global {
        Some(text) => text,
        None => default_prompt(firstline),
    }
}

/// Whether a compilation failed only because the source ends too early.
pub open spec fn is_incomplete(status: Status, message: Seq<char>) -> bool {
    status == Status::CompileError && is_suffix(message, eof_mark())
}

/// How the loader takes a compilation.
pub open spec fn outcome_of(status: Status, message: Seq<char>) -> CompileOutcome {
    if status == Status::Success {
        CompileOutcome::Ready
    } else if is_incomplete(status, message) {
        CompileOutcome::Incomplete
    } else {
        CompileOutcome::Failed
    }
}

/// The line to load, given what was read: nothing where the read failed or
/// gave no character at all, else the text without its line feed.
pub open spec fn pushed_line(read: Option<Seq<char>>) -> Option<Seq<char>> {
    match read {
        Some(text) => if text.len() == 0 {
            None
        } else {
            Some(chomp(text))
        },
        None => None,
    }
}

/// A line wrapped into a statement that returns its value.
pub open spec fn return_form(line: Seq<char>) -> Seq<char> {
    "return "@ + line + ";"@
}

/// Two parts of one statement, joined by a line feed.
pub open spec fn joined(source: Seq<char>, line: Seq<char>) -> Seq<char> {
    source + "\n"@ + line
}

/// What a load in this state asks of its caller.
pub open spec fn request_of(state: LoaderModel) -> RequestModel {
    match state {
        LoaderModel::First => RequestModel::ReadLine(true),
        LoaderModel::Expression(line) => RequestModel::Compile(return_form(line)),
        LoaderModel::Statement(source) => RequestModel::Compile(source),
        LoaderModel::Continuation(source, message) => RequestModel::ReadLine(false),
        LoaderModel::NoInput => RequestModel::Done,
        LoaderModel::Ready => RequestModel::Done,
        LoaderModel::Failed(message) => RequestModel::Done,
    }
}

/// The state after a line was read, `read` being what the read gave. The
/// first line goes to the compiler in its expression form, and without one
/// there is no input. A further line is joined to the source, which goes to
/// the compiler again; without one the statement stays incomplete, and the
/// compiler's complaint about it is the error. A load that asked for no line
/// stays as it is.
pub open spec fn after_line(state: LoaderModel, read: Option<Seq<char>>) -> LoaderModel {
    match state {
        LoaderModel::First => match pushed_line(read) {
            Some(line) => LoaderModel::Expression(line),
            None => LoaderModel::NoInput,
        },
        LoaderModel::Continuation(source, message) => match pushed_line(read) {
            Some(line) => LoaderModel::Statement(joined(source, line)),
            None => LoaderModel::Failed(message),
        },
        _ => state,
    }
}

/// The state after the compiler reported `status`, with `message` where it
/// did not compile. An expression that compiled is ready; one that did not
/// is compiled again as the statement that the line is. A statement that
/// compiled is ready, one that only ends too early asks for a further line,
/// and any other fails with the compiler's message. A load that asked for no
/// compilation stays as it is.
pub open spec fn after_compile(state: LoaderModel, status: Status, message: Seq<char>) -> LoaderModel {
    match state {
        LoaderModel::Expression(line) => if status.ok() {
            LoaderModel::Ready
        } else {
            LoaderModel::Statement(line)
        },
        LoaderModel::Statement(source) => match outcome_of(status, message) {
            CompileOutcome::Ready => LoaderModel::Ready,
            CompileOutcome::Incomplete => LoaderModel::Continuation(source, message),
            CompileOutcome::Failed => LoaderModel::Failed(message),
        },
        _ => state,
    }
}

/// The history after the compiler reported `status`: what compiled is
/// remembered as it was typed, a statement in any case and a line that was
/// taken as an expression unless it is empty.
pub open spec fn history_after_compile(
    history: Seq<Seq<char>>,
    state: LoaderModel,
    status: Status,
) -> Seq<Seq<char>> {
    match state {
        LoaderModel::Expression(line) => if status.ok() && line.len() > 0 {
            history.push(line)
        } else {
            history
        },
        LoaderModel::Statement(source) => if status.ok() {
            history.push(source)
        } else {
            history
        },
        _ => history,
    }
}

/// Whether a load is over.
pub open spec fn finished(state: LoaderModel) -> bool {
    request_of(state) is Done
}

/// The name of the global variable that overrides a prompt.
pub fn prompt_global(firstline: bool) -> (name: &'static str)
    ensures
        name@ == prompt_variable(firstline),
{
    if firstline {
        "_PROMPT"
    } else {
        "_PROMPT2"
    }
}

/// The prompt to show for the first line of a statement or for a further
/// one: `global`, the text of the overriding variable, where it is set,
/// else `"> "` or `">> "`.
pub fn get_prompt(firstline: bool, global: Option<&str>) -> (prompt: String)
    ensures
        prompt@ == prompt_text(firstline, str_of(global)),
{
    match global {
        Some(text) => text.to_owned(),
        None => if firstline {
            "> ".to_owned()
        } else {
            ">> ".to_owned()
        },
    }
}

/// The name under which interactive input is handed to the compiler.
pub fn chunk_name() -> (name: &'static str)
    ensures
        name@ == stdin_chunk(),
{
    "=stdin"
}

/// Tells whether a compilation failed only because the source ends too
/// early: a syntax error whose message ends with `<eof>`.
pub fn incomplete(status: Status, message: &str) -> (b: bool)
    ensures
        b == is_incomplete(status, message@),
{
    match status {
        Status::CompileError => ends_with(message, "<eof>"),
        _ => false,
    }
}

/// Sorts a compilation into ready, incomplete and failed.
pub fn compile_outcome(status: Status, message: &str) -> (outcome: CompileOutcome)
    ensures
        outcome == outcome_of(status, message@),
{
    match status {
        Status::Success => CompileOutcome::Ready,
        _ => if incomplete(status, message) {
            CompileOutcome::Incomplete
        } else {
            CompileOutcome::Failed
        },
    }
}

/// Remembers a line in the history.
pub fn saveline(history: &mut Vec<String>, line: &str)
    ensures
        lines(final(history)@) == lines(old(history)@).push(line@),
{
    history.push(line.to_owned());
    assert(lines(final(history)@) =~= lines(old(history)@).push(line@));
}

/// Takes what reading a line gave and returns the line to load: `None` where
/// there is no input (the read failed, or gave nothing, not even a line
/// feed), else the text without the line feed at its end.
pub fn pushline(read: Option<String>) -> (line: Option<String>)
    ensures
        text_of(line) == pushed_line(text_of(read)),
{
    match read {
        Some(text) => {
            if text.as_str().unicode_len() == 0 {
                None
            } else {
                Some(strip_newline(text.as_str()).to_owned())
            }
        },
        None => None,
    }
}

/// Wraps a line into the statement that returns its value: `return <line>;`.
pub fn addreturn(line: &str) -> (source: String)
    ensures
        source@ == return_form(line@),
{
    join3("return ", line, ";")
}

impl Loader {
    /// A load that has read nothing yet.
    pub fn new() -> (loader: Loader)
        ensures
            loader@ == LoaderModel::First,
    {
        Loader::First
    }

    /// What the caller is to do next: read a line, compile a source, or
    /// nothing more.
    pub fn request(&self) -> (request: Request)
        ensures
            request@ == request_of(self@),
    {
        match self {
            Loader::First => Request::ReadLine { firstline: true },
            Loader::Expression { line } => Request::Compile { source: addreturn(line.as_str()) },
            Loader::Statement { source } => Request::Compile { source: source.clone() },
            Loader::Continuation { .. } => Request::ReadLine { firstline: false },
            Loader::NoInput => Request::Done,
            Loader::Ready => Request::Done,
            Loader::Failed { .. } => Request::Done,
        }
    }

    /// Tells whether the load is over.
    pub fn is_done(&self) -> (done: bool)
        ensures
            done == finished(self@),
    {
        match self {
            Loader::NoInput => true,
            Loader::Ready => true,
            Loader::Failed { .. } => true,
            _ => false,
        }
    }

    /// Takes what reading a line gave (`None` where the read failed).
    pub fn line(self, read: Option<String>) -> (next: Loader)
        ensures
            next@ == after_line(self@, text_of(read)),
    {
        match self {
            Loader::First => match pushline(read) {
                Some(line) => Loader::Expression { line },
                None => Loader::NoInput,
            },
            Loader::Continuation { source, message } => match pushline(read) {
                Some(line) => Loader::Statement {
                    source: join3(source.as_str(), "\n", line.as_str()),
                },
                None => Loader::Failed { message },
            },
            other => other,
        }
    }

    /// Takes the compiler's report on the source that was asked to be
    /// compiled: its status and, where that is no success, its message.
    /// What compiled is remembered in `history`.
    pub fn compiled(self, status: Status, message: String, history: &mut Vec<String>) -> (next:
        Loader)
        ensures
            next@ == after_compile(self@, status, message@),
            lines(final(history)@) == history_after_compile(lines(old(history)@), self@, status),
    {
        match self {
            Loader::Expression { line } => {
                if status.is_ok() {
                    if line.as_str().unicode_len() > 0 {
                        saveline(history, line.as_str());
                    }
                    Loader::Ready
                } else {
                    Loader::Statement { source: line }
                }
            },
            Loader::Statement { source } => match compile_outcome(status, message.as_str()) {
                CompileOutcome::Ready => {
                    saveline(history, source.as_str());
                    Loader::Ready
                },
                CompileOutcome::Incomplete => Loader::Continuation { source, message },
                CompileOutcome::Failed => Loader::Failed { message },
            },
            other => other,
        }
    }
}

/// What the interactive loop does with a load, in the model.
pub enum ReplModel {
    /// The load is not over: go on with what it asks.
    Resume,
    /// Call the unit that was compiled, then print its results or report
    /// its error.
    Call,
    /// Report this message and load the next statement.
    Report(Seq<char>),
    /// There is no more input: leave the loop.
    Leave,
}

/// What the interactive loop does with a load.
#[derive(PartialEq, Eq, Debug)]
pub enum ReplStep {
    /// The load is not over: go on with what it asks.
    Resume,
    /// Call the unit that was compiled, then print its results or report
    /// its error.
    Call,
    /// Report `message` and load the next statement.
    Report { message: String },
    /// There is no more input: leave the loop.
    Leave,
}

impl View for ReplStep {
    type V = ReplModel;

    open spec fn view(&self) -> ReplModel {
        match *self {
            ReplStep::Resume => ReplModel::Resume,
            ReplStep::Call => ReplModel::Call,
            ReplStep::Report { message } => ReplModel::Report(message@),
            ReplStep::Leave => ReplModel::Leave,
        }
    }
}

/// What the interactive loop does with a load in this state. Only the end
/// of input ends the loop: a statement that cannot be loaded is reported,
/// and the loop goes on.
pub open spec fn repl_step(state: LoaderModel) -> ReplModel {
    match state {
        LoaderModel::Ready => ReplModel::Call,
        LoaderModel::Failed(message) => ReplModel::Report(message),
        LoaderModel::NoInput => ReplModel::Leave,
        _ => ReplModel::Resume,
    }
}

/// Says what the interactive loop does with a load: call what is ready,
/// report what failed and go on, leave when there is no input, and let a
/// load that is not over go on.
pub fn dorepl(loaded: Loader) -> (step: ReplStep)
    ensures
        step@ == repl_step(loaded@),
{
    match loaded {
        Loader::Ready => ReplStep::Call,
        Loader::Failed { message } => ReplStep::Report { message },
        Loader::NoInput => ReplStep::Leave,
        _ => ReplStep::Resume,
    }
}

/// The interactive loop ends on the end of input and on nothing else, and
/// it acts on a load exactly when the load is over.
pub proof fn lemma_only_end_of_input_leaves(state: LoaderModel)
    ensures
        repl_step(state) is Leave <==> state is NoInput,
        repl_step(state) is Resume <==> !finished(state),
        repl_step(state) is Call <==> state is Ready,
{
}

/// The first line of a statement is always tried as an expression first:
/// whatever line is read, the first compilation asked for is that of its
/// return form, and only if that fails the line itself is compiled.
pub proof fn lemma_expression_first(read: Seq<char>, status: Status, message: Seq<char>)
    requires
        read.len() > 0,
    ensures
        request_of(after_line(LoaderModel::First, Some(read))) == RequestModel::Compile(
            return_form(chomp(read)),
        ),
        status.ok() ==> after_compile(after_line(LoaderModel::First, Some(read)), status, message)
            == LoaderModel::Ready,
        !status.ok() ==> request_of(
            after_compile(after_line(LoaderModel::First, Some(read)), status, message),
        ) == RequestModel::Compile(chomp(read)),
{
}

/// A load ends as ready only on a compilation that succeeded, and whenever
/// one succeeds.
pub proof fn lemma_ready_on_success(state: LoaderModel, status: Status, message: Seq<char>)
    requires
        !finished(state),
    ensures
        after_compile(state, status, message) is Ready <==> request_of(state) is Compile
            && status.ok(),
        forall|read: Option<Seq<char>>| !(#[trigger] after_line(state, read) is Ready),
{
}

/// An incomplete statement is never the result of a load: it leads to the
/// reading of a further line, and when there is none, to a failure with the
/// compiler's message.
pub proof fn lemma_incomplete_is_followed_up(source: Seq<char>, message: Seq<char>)
    requires
        is_suffix(message, eof_mark()),
    ensures
        after_compile(LoaderModel::Statement(source), Status::CompileError, message)
            == LoaderModel::Continuation(source, message),
        request_of(LoaderModel::Continuation(source, message)) == RequestModel::ReadLine(false),
        after_line(LoaderModel::Continuation(source, message), None) == LoaderModel::Failed(
            message,
        ),
        forall|line: Seq<char>|
            line.len() > 0 ==> #[trigger] after_line(
                LoaderModel::Continuation(source, message),
                Some(line),
            ) == LoaderModel::Statement(joined(source, chomp(line))),
{
}

/// A finished load takes no more replies, and a reply that was not asked
/// for changes nothing.
pub proof fn lemma_unasked_reply_is_ignored(
    state: LoaderModel,
    read: Option<Seq<char>>,
    status: Status,
    message: Seq<char>,
    history: Seq<Seq<char>>,
)
    ensures
        !(request_of(state) is ReadLine) ==> after_line(state, read) == state,
        !(request_of(state) is Compile) ==> after_compile(state, status, message) == state,
        !(request_of(state) is Compile) ==> history_after_compile(history, state, status)
            == history,
{
}

} // verus!
