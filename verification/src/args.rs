//! Classification of the process argument vector.
//!
//! The vector is scanned once, left to right, starting behind the program
//! name. Options set flags or queue actions; the first token that is not an
//! option ends the scan and names the script. The model of the scan is the
//! spec function [`classify`]; [`collectargs`] computes it.

use vstd::prelude::*;

verus! {

/// A token as the model sees it: its characters.
pub type Token = Seq<char>;

/// An action that an option queues, in the model.
pub enum Action {
    /// `-l name`: require the library and bind it to a global of that name.
    Library(Token),
    /// `-e stat`: run the statement.
    Execute(Token),
}

/// What a classified argument vector amounts to, in the model.
pub struct Plan {
    /// `-i`: enter the interactive loop after everything else.
    pub interactive: bool,
    /// `-v` (or `-i`): print the banner.
    pub version: bool,
    /// `-E`: ignore the environment.
    pub ignore_env: bool,
    /// `-e` was given at least once.
    pub execute: bool,
    /// `--` ended the options.
    pub stop_options: bool,
    /// The queued actions, in command-line order.
    pub actions: Seq<Action>,
    /// Every token up to the script name.
    pub pre: Seq<Token>,
    /// The script name and what follows it.
    pub post: Seq<Token>,
}

/// What one token means when it is read in option position.
pub enum TokenKind {
    /// Not an option: the script name (a lone marker stands for standard input).
    Script,
    /// `--`
    StopOptions,
    /// `-E`
    IgnoreEnv,
    /// `-i`
    Interactive,
    /// `-v`
    Version,
    /// `-e` with the statement attached.
    ExecuteInline(Token),
    /// `-e` alone: the statement is the next token.
    ExecuteNext,
    /// `-l` with the name attached.
    LibraryInline(Token),
    /// `-l` alone: the name is the next token.
    LibraryNext,
    /// A malformed or unknown option.
    Bad,
}

/// The character that introduces an option.
pub open spec fn marker() -> char {
    '-'
}

/// Whether a token begins with the option marker.
pub open spec fn starts_with_marker(token: Token) -> bool {
    token.len() > 0 && token[0] == marker()
}

/// What follows the two characters of an option.
pub open spec fn attached(token: Token) -> Token {
    token.subrange(2, token.len() as int)
}

/// The meaning of a token read in option position.
pub open spec fn token_kind(token: Token) -> TokenKind {
    if !starts_with_marker(token) || token.len() == 1 {
        TokenKind::Script
    } else if token[1] == marker() {
        if token.len() == 2 {
            TokenKind::StopOptions
        } else {
            TokenKind::Bad
        }
    } else if token[1] == 'E' {
        if token.len() == 2 {
            TokenKind::IgnoreEnv
        } else {
            TokenKind::Bad
        }
    } else if token[1] == 'i' {
        if token.len() == 2 {
            TokenKind::Interactive
        } else {
            TokenKind::Bad
        }
    } else if token[1] == 'v' {
        if token.len() == 2 {
            TokenKind::Version
        } else {
            TokenKind::Bad
        }
    } else if token[1] == 'e' {
        if token.len() == 2 {
            TokenKind::ExecuteNext
        } else {
            TokenKind::ExecuteInline(attached(token))
        }
    } else if token[1] == 'l' {
        if token.len() == 2 {
            TokenKind::LibraryNext
        } else {
            TokenKind::LibraryInline(attached(token))
        }
    } else {
        TokenKind::Bad
    }
}

/// The plan before any option has been read.
pub open spec fn empty_plan() -> Plan {
    Plan {
        interactive: false,
        version: false,
        ignore_env: false,
        execute: false,
        stop_options: false,
        actions: Seq::empty(),
        pre: Seq::empty(),
        post: Seq::empty(),
    }
}

/// `plan` with the vector split in front of index `at`.
pub open spec fn split_plan(plan: Plan, args: Seq<Token>, at: int) -> Plan {
    Plan { pre: args.subrange(0, at), post: args.subrange(at, args.len() as int), ..plan }
}

/// `plan` with one more queued action.
pub open spec fn queue(plan: Plan, action: Action) -> Plan {
    Plan { actions: plan.actions.push(action), ..plan }
}

/// Whether the token behind index `i` can serve as the argument of the option at `i`.
pub open spec fn has_operand(args: Seq<Token>, i: int) -> bool {
    i + 1 < args.len() && !starts_with_marker(args[i + 1])
}

/// The scan from index `i` on, with `plan` holding what the tokens before `i` gave.
/// An error is the offending token.
pub open spec fn scan(args: Seq<Token>, i: int, plan: Plan) -> Result<Plan, Token>
    decreases args.len() - i,
{
    if i < 0 || i >= args.len() {
        Ok(split_plan(plan, args, args.len() as int))
    } else {
        match token_kind(args[i]) {
            TokenKind::Script => Ok(split_plan(plan, args, i)),
            TokenKind::StopOptions => Ok(
                split_plan(Plan { stop_options: true, ..plan }, args, i + 1),
            ),
            TokenKind::IgnoreEnv => scan(args, i + 1, Plan { ignore_env: true, ..plan }),
            TokenKind::Interactive => scan(
                args,
                i + 1,
                Plan { interactive: true, version: true, ..plan },
            ),
            TokenKind::Version => scan(args, i + 1, Plan { version: true, ..plan }),
            TokenKind::ExecuteInline(code) => scan(
                args,
                i + 1,
                queue(Plan { execute: true, ..plan }, Action::Execute(code)),
            ),
            TokenKind::ExecuteNext => if has_operand(args, i) {
                scan(
                    args,
                    i + 2,
                    queue(Plan { execute: true, ..plan }, Action::Execute(args[i + 1])),
                )
            } else {
                Err(args[i])
            },
            TokenKind::LibraryInline(name) => scan(
                args,
                i + 1,
                queue(plan, Action::Library(name)),
            ),
            TokenKind::LibraryNext => if has_operand(args, i) {
                scan(args, i + 2, queue(plan, Action::Library(args[i + 1])))
            } else {
                Err(args[i])
            },
            TokenKind::Bad => Err(args[i]),
        }
    }
}

/// The classification of a whole argument vector. Index 0 is the program
/// name and is never read as an option.
pub open spec fn classify(args: Seq<Token>) -> Result<Plan, Token> {
    scan(args, 1, empty_plan())
}

/// The characters of each token of a borrowed vector.
pub open spec fn tokens(args: Seq<&str>) -> Seq<Token> {
    Seq::new(args.len(), |i: int| args[i]@)
}

/// An action that an option queues.
#[derive(PartialEq, Eq, Debug)]
pub enum RunnableArg<'a> {
    /// `-l name`
    Library(&'a str),
    /// `-e stat`
    Execute(&'a str),
}

impl<'a> View for RunnableArg<'a> {
    type V = Action;

    open spec fn view(&self) -> Action {
        match *self {
            RunnableArg::Library(name) => Action::Library(name@),
            RunnableArg::Execute(code) => Action::Execute(code@),
        }
    }
}

/// The classified argument vector.
#[derive(PartialEq, Eq, Debug)]
pub struct ProgramOptions<'a> {
    /// `-i`
    pub interactive: bool,
    /// `-v`
    pub version: bool,
    /// `-E`
    pub ignore_env: bool,
    /// `-e`
    pub execute: bool,
    /// `--`
    pub stop_options: bool,
    /// `-l` and `-e`, in command-line order.
    pub runnable_args: Vec<RunnableArg<'a>>,
    /// Every token before the script name.
    pub pre_script_args: &'a [&'a str],
    /// The script name and its arguments.
    pub script_args: &'a [&'a str],
}

impl<'a> View for ProgramOptions<'a> {
    type V = Plan;

    open spec fn view(&self) -> Plan {
        Plan {
            interactive: self.interactive,
            version: self.version,
            ignore_env: self.ignore_env,
            execute: self.execute,
            stop_options: self.stop_options,
            actions: Seq::new(self.runnable_args@.len(), |i: int| self.runnable_args@[i]@),
            pre: tokens(self.pre_script_args@),
            post: tokens(self.script_args@),
        }
    }
}

impl<'a> Default for ProgramOptions<'a> {
    /// No flag set, nothing queued, no tokens.
    fn default() -> (options: Self)
        ensures
            options@ == empty_plan(),
            options.runnable_args@.len() == 0,
            options.pre_script_args@.len() == 0,
            options.script_args@.len() == 0,
    {
        let none: &'a [&'a str] = &[];
        let options = ProgramOptions {
            interactive: false,
            version: false,
            ignore_env: false,
            execute: false,
            stop_options: false,
            runnable_args: Vec::new(),
            pre_script_args: none,
            script_args: none,
        };
        assert(options@.actions =~= Seq::empty());
        assert(options@.pre =~= Seq::empty());
        assert(options@.post =~= Seq::empty());
        options
    }
}

/// A token read in option position.
pub enum OptionToken<'a> {
    /// Not an option.
    Script,
    /// `--`
    StopOptions,
    /// `-E`
    IgnoreEnv,
    /// `-i`
    Interactive,
    /// `-v`
    Version,
    /// `-e` with the statement attached.
    ExecuteInline(&'a str),
    /// `-e` alone.
    ExecuteNext,
    /// `-l` with the name attached.
    LibraryInline(&'a str),
    /// `-l` alone.
    LibraryNext,
    /// A malformed or unknown option.
    Bad,
}

impl<'a> View for OptionToken<'a> {
    type V = TokenKind;

    open spec fn view(&self) -> TokenKind {
        match *self {
            OptionToken::Script => TokenKind::Script,
            OptionToken::StopOptions => TokenKind::StopOptions,
            OptionToken::IgnoreEnv => TokenKind::IgnoreEnv,
            OptionToken::Interactive => TokenKind::Interactive,
            OptionToken::Version => TokenKind::Version,
            OptionToken::ExecuteInline(code) => TokenKind::ExecuteInline(code@),
            OptionToken::ExecuteNext => TokenKind::ExecuteNext,
            OptionToken::LibraryInline(name) => TokenKind::LibraryInline(name@),
            OptionToken::LibraryNext => TokenKind::LibraryNext,
            OptionToken::Bad => TokenKind::Bad,
        }
    }
}

/// Tells whether `token` begins with the option marker.
pub fn has_marker(token: &str) -> (b: bool)
    ensures
        b == starts_with_marker(token@),
{
    let n: usize = token.unicode_len();
    n > 0 && token.get_char(0) == '-'
}

/// Reads one token in option position.
pub fn read_option<'a>(token: &'a str) -> (kind: OptionToken<'a>)
    ensures
        kind@ == token_kind(token@),
{
    let n: usize = token.unicode_len();
    if n < 2 || token.get_char(0) != '-' {
        return OptionToken::Script;
    }
    let letter: char = token.get_char(1);
    if letter == 'e' {
        if n == 2 {
            OptionToken::ExecuteNext
        } else {
            OptionToken::ExecuteInline(token.substring_char(2, n))
        }
    } else if letter == 'l' {
        if n == 2 {
            OptionToken::LibraryNext
        } else {
            OptionToken::LibraryInline(token.substring_char(2, n))
        }
    } else if n != 2 {
        OptionToken::Bad
    } else if letter == '-' {
        OptionToken::StopOptions
    } else if letter == 'E' {
        OptionToken::IgnoreEnv
    } else if letter == 'i' {
        OptionToken::Interactive
    } else if letter == 'v' {
        OptionToken::Version
    } else {
        OptionToken::Bad
    }
}

/// Taking a range of the borrowed tokens and then their characters is taking
/// the same range of the characters.
pub proof fn lemma_tokens_subrange(args: Seq<&str>, from: int, to: int)
    requires
        0 <= from <= to <= args.len(),
    ensures
        tokens(args.subrange(from, to)) == tokens(args).subrange(from, to),
{
    assert(tokens(args.subrange(from, to)) =~= tokens(args).subrange(from, to));
}

/// Ends the scan: the tokens before index `script` go in front, the rest
/// are the script and its arguments.
fn add_script_args<'a>(options: ProgramOptions<'a>, args: &'a [&'a str], script: usize) -> (done:
    ProgramOptions<'a>)
    requires
        script <= args@.len(),
    ensures
        done@ == split_plan(options@, tokens(args@), script as int),
        done.pre_script_args@ == args@.subrange(0, script as int),
        done.script_args@ == args@.subrange(script as int, args@.len() as int),
        done.runnable_args == options.runnable_args,
{
    let (pre_script_args, script_args) = args.split_at(script);
    proof {
        lemma_tokens_subrange(args@, 0, script as int);
        lemma_tokens_subrange(args@, script as int, args@.len() as int);
    }
    ProgramOptions {
        interactive: options.interactive,
        version: options.version,
        ignore_env: options.ignore_env,
        execute: options.execute,
        stop_options: options.stop_options,
        runnable_args: options.runnable_args,
        pre_script_args,
        script_args,
    }
}

/// Queues one action.
fn push_action<'a>(options: &mut ProgramOptions<'a>, action: RunnableArg<'a>)
    ensures
        final(options)@ == queue(old(options)@, action@),
        final(options).runnable_args@ == old(options).runnable_args@.push(action),
        final(options).pre_script_args == old(options).pre_script_args,
        final(options).script_args == old(options).script_args,
{
    options.runnable_args.push(action);
    assert(final(options)@.actions =~= old(options)@.actions.push(action@));
}

/// Classifies the argument vector `args`, whose first token is the program
/// name.
///
/// The result is the plan that [`classify`] gives for the tokens: the flags,
/// the queued actions in command-line order, and the vector split in front of
/// the script name, so that the two parts joined are `args` again. An error
/// is the offending token: an unknown or malformed option, or an `-e` or `-l`
/// that has no argument.
pub fn collectargs<'a>(args: &'a [&'a str]) -> (result: Result<ProgramOptions<'a>, &'a str>)
    ensures
        match result {
            Ok(options) => {
                &&& classify(tokens(args@)) == Ok::<Plan, Token>(options@)
                &&& options.pre_script_args@ + options.script_args@ == args@
            },
            Err(token) => {
                &&& classify(tokens(args@)) == Err::<Plan, Token>(token@)
                &&& exists|k: int| 1 <= k < args@.len() && args@[k] == token
            },
        },
{
    let n: usize = args.len();
    let mut options = ProgramOptions::default();
    let mut i: usize = 1;
    while i < n
        invariant
            n == args@.len(),
            1 <= i,
            classify(tokens(args@)) == scan(tokens(args@), i as int, options@),
        decreases n - i,
    {
        let token: &'a str = args[i];
        assert(tokens(args@)[i as int] == token@);
        match read_option(token) {
            OptionToken::Script => {
                return Ok(add_script_args(options, args, i));
            },
            OptionToken::StopOptions => {
                options.stop_options = true;
                return Ok(add_script_args(options, args, i + 1));
            },
            OptionToken::IgnoreEnv => {
                options.ignore_env = true;
            },
            OptionToken::Interactive => {
                options.interactive = true;
                options.version = true;
            },
            OptionToken::Version => {
                options.version = true;
            },
            OptionToken::ExecuteInline(code) => {
                options.execute = true;
                push_action(&mut options, RunnableArg::Execute(code));
            },
            OptionToken::LibraryInline(name) => {
                push_action(&mut options, RunnableArg::Library(name));
            },
            OptionToken::ExecuteNext => {
                if i + 1 >= n || has_marker(args[i + 1]) {
                    return Err(token);
                }
                assert(tokens(args@)[i + 1] == args@[i + 1]@);
                options.execute = true;
                push_action(&mut options, RunnableArg::Execute(args[i + 1]));
                i += 1;
            },
            OptionToken::LibraryNext => {
                if i + 1 >= n || has_marker(args[i + 1]) {
                    return Err(token);
                }
                assert(tokens(args@)[i + 1] == args@[i + 1]@);
                push_action(&mut options, RunnableArg::Library(args[i + 1]));
                i += 1;
            },
            OptionToken::Bad => {
                return Err(token);
            },
        }
        i += 1;
    }
    Ok(add_script_args(options, args, n))
}

} // verus!
