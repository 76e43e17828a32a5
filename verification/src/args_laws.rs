//! Laws of the argument classification, stated over its model.

use crate::args::{
    attached, classify, empty_plan, has_operand, marker, queue, scan, starts_with_marker,
    token_kind, Action, Plan, Token, TokenKind,
};
use crate::report::needs_argument;
use vstd::prelude::*;

verus! {

/// Whether two classifications agree in everything but the way the vector is
/// split: the same offending token, or the same flags and the same queued
/// actions in the same order.
pub open spec fn same_actions(a: Result<Plan, Token>, b: Result<Plan, Token>) -> bool {
    match (a, b) {
        (Ok(p), Ok(q)) => {
            &&& p.interactive == q.interactive
            &&& p.version == q.version
            &&& p.ignore_env == q.ignore_env
            &&& p.execute == q.execute
            &&& p.stop_options == q.stop_options
            &&& p.actions == q.actions
        },
        (Err(s), Err(t)) => s == t,
        _ => false,
    }
}

/// The option `-e` (or `-l`, where `library` holds) with nothing attached.
pub open spec fn bare_option(library: bool) -> Token {
    seq![marker(), if library { 'l' } else { 'e' }]
}

/// A successful scan splits the vector: the front part followed by the
/// script part is the whole vector, token for token, and the front part
/// reaches at least to where the scan began.
pub proof fn lemma_scan_partition(args: Seq<Token>, i: int, plan: Plan)
    requires
        scan(args, i, plan) is Ok,
    ensures
        scan(args, i, plan)->Ok_0.pre + scan(args, i, plan)->Ok_0.post == args,
        0 <= i <= args.len() ==> scan(args, i, plan)->Ok_0.pre.len() >= i,
    decreases args.len() - i,
{
    let n = args.len() as int;
    if i < 0 || i >= n {
        assert(args.subrange(0, n) + args.subrange(n, n) =~= args);
    } else {
        match token_kind(args[i]) {
            TokenKind::Script => {
                assert(args.subrange(0, i) + args.subrange(i, n) =~= args);
            },
            TokenKind::StopOptions => {
                assert(args.subrange(0, i + 1) + args.subrange(i + 1, n) =~= args);
            },
            TokenKind::IgnoreEnv => {
                lemma_scan_partition(args, i + 1, Plan { ignore_env: true, ..plan });
            },
            TokenKind::Interactive => {
                lemma_scan_partition(
                    args,
                    i + 1,
                    Plan { interactive: true, version: true, ..plan },
                );
            },
            TokenKind::Version => {
                lemma_scan_partition(args, i + 1, Plan { version: true, ..plan });
            },
            TokenKind::ExecuteInline(code) => {
                lemma_scan_partition(
                    args,
                    i + 1,
                    queue(Plan { execute: true, ..plan }, Action::Execute(code)),
                );
            },
            TokenKind::ExecuteNext => {
                lemma_scan_partition(
                    args,
                    i + 2,
                    queue(Plan { execute: true, ..plan }, Action::Execute(args[i + 1])),
                );
            },
            TokenKind::LibraryInline(name) => {
                lemma_scan_partition(args, i + 1, queue(plan, Action::Library(name)));
            },
            TokenKind::LibraryNext => {
                lemma_scan_partition(args, i + 2, queue(plan, Action::Library(args[i + 1])));
            },
            TokenKind::Bad => {},
        }
    }
}

/// Every classified vector is split without loss: the tokens in front of
/// the script followed by the script's own tokens are the input, in order
/// and in number. The program name, where there is one, is in front.
pub proof fn lemma_classify_partition(args: Seq<Token>)
    requires
        classify(args) is Ok,
    ensures
        classify(args)->Ok_0.pre + classify(args)->Ok_0.post == args,
        args.len() >= 1 ==> classify(args)->Ok_0.pre.len() >= 1,
{
    lemma_scan_partition(args, 1, empty_plan());
}

/// Classifying again what a classification split gives the same plan.
pub proof fn lemma_classify_again(args: Seq<Token>)
    requires
        classify(args) is Ok,
    ensures
        classify(classify(args)->Ok_0.pre + classify(args)->Ok_0.post) == classify(args),
{
    lemma_classify_partition(args);
}

/// A scan that ends without `--` and names a script stopped at a token that
/// is no option: the script name does not read as one.
pub proof fn lemma_scan_script(args: Seq<Token>, i: int, plan: Plan)
    requires
        0 <= i,
        !plan.stop_options,
        scan(args, i, plan) is Ok,
        !scan(args, i, plan)->Ok_0.stop_options,
        scan(args, i, plan)->Ok_0.post.len() > 0,
    ensures
        token_kind(scan(args, i, plan)->Ok_0.post[0]) is Script,
    decreases args.len() - i,
{
    if i < args.len() {
        match token_kind(args[i]) {
            TokenKind::Script => {},
            TokenKind::StopOptions => {},
            TokenKind::IgnoreEnv => {
                lemma_scan_script(args, i + 1, Plan { ignore_env: true, ..plan });
            },
            TokenKind::Interactive => {
                lemma_scan_script(args, i + 1, Plan { interactive: true, version: true, ..plan });
            },
            TokenKind::Version => {
                lemma_scan_script(args, i + 1, Plan { version: true, ..plan });
            },
            TokenKind::ExecuteInline(code) => {
                lemma_scan_script(
                    args,
                    i + 1,
                    queue(Plan { execute: true, ..plan }, Action::Execute(code)),
                );
            },
            TokenKind::ExecuteNext => {
                lemma_scan_script(
                    args,
                    i + 2,
                    queue(Plan { execute: true, ..plan }, Action::Execute(args[i + 1])),
                );
            },
            TokenKind::LibraryInline(name) => {
                lemma_scan_script(args, i + 1, queue(plan, Action::Library(name)));
            },
            TokenKind::LibraryNext => {
                lemma_scan_script(args, i + 2, queue(plan, Action::Library(args[i + 1])));
            },
            TokenKind::Bad => {},
        }
    }
}

/// An offending token is one of the tokens behind the program name, begins
/// with the option marker and has a second character.
pub proof fn lemma_scan_error(args: Seq<Token>, i: int, plan: Plan)
    requires
        0 <= i,
        scan(args, i, plan) is Err,
    ensures
        exists|k: int| i <= k < args.len() && args[k] == scan(args, i, plan)->Err_0,
        starts_with_marker(scan(args, i, plan)->Err_0),
        scan(args, i, plan)->Err_0.len() >= 2,
    decreases args.len() - i,
{
    let bad = scan(args, i, plan)->Err_0;
    if i < args.len() {
        match token_kind(args[i]) {
            TokenKind::Script => {},
            TokenKind::StopOptions => {},
            TokenKind::IgnoreEnv => {
                lemma_scan_error(args, i + 1, Plan { ignore_env: true, ..plan });
            },
            TokenKind::Interactive => {
                lemma_scan_error(args, i + 1, Plan { interactive: true, version: true, ..plan });
            },
            TokenKind::Version => {
                lemma_scan_error(args, i + 1, Plan { version: true, ..plan });
            },
            TokenKind::ExecuteInline(code) => {
                lemma_scan_error(
                    args,
                    i + 1,
                    queue(Plan { execute: true, ..plan }, Action::Execute(code)),
                );
            },
            TokenKind::ExecuteNext => {
                if has_operand(args, i) {
                    lemma_scan_error(
                        args,
                        i + 2,
                        queue(Plan { execute: true, ..plan }, Action::Execute(args[i + 1])),
                    );
                } else {
                    assert(args[i] == bad);
                }
            },
            TokenKind::LibraryInline(name) => {
                lemma_scan_error(args, i + 1, queue(plan, Action::Library(name)));
            },
            TokenKind::LibraryNext => {
                if has_operand(args, i) {
                    lemma_scan_error(args, i + 2, queue(plan, Action::Library(args[i + 1])));
                } else {
                    assert(args[i] == bad);
                }
            },
            TokenKind::Bad => {
                assert(args[i] == bad);
            },
        }
    }
}

/// The offending token of a rejected vector stands behind the program name,
/// begins with the option marker and has a second character.
pub proof fn lemma_classify_error(args: Seq<Token>)
    requires
        classify(args) is Err,
    ensures
        exists|k: int| 1 <= k < args.len() && args[k] == classify(args)->Err_0,
        starts_with_marker(classify(args)->Err_0),
        classify(args)->Err_0.len() >= 2,
{
    lemma_scan_error(args, 1, empty_plan());
}

/// An offending token found by a scan is said to need an argument, going
/// by its second character, exactly when it is an `-e` or an `-l` with
/// nothing attached and nothing usable behind it. Every other offending
/// token is an option that is not recognized.
pub proof fn lemma_scan_error_kind(args: Seq<Token>, i: int, plan: Plan)
    requires
        0 <= i,
        scan(args, i, plan) is Err,
    ensures
        needs_argument(scan(args, i, plan)->Err_0) <==> scan(args, i, plan)->Err_0
            == bare_option(false) || scan(args, i, plan)->Err_0 == bare_option(true),
        !needs_argument(scan(args, i, plan)->Err_0) <==> token_kind(scan(args, i, plan)->Err_0)
            is Bad,
    decreases args.len() - i,
{
    let bad = scan(args, i, plan)->Err_0;
    if i < args.len() {
        match token_kind(args[i]) {
            TokenKind::Script => {},
            TokenKind::StopOptions => {},
            TokenKind::IgnoreEnv => {
                lemma_scan_error_kind(args, i + 1, Plan { ignore_env: true, ..plan });
            },
            TokenKind::Interactive => {
                lemma_scan_error_kind(
                    args,
                    i + 1,
                    Plan { interactive: true, version: true, ..plan },
                );
            },
            TokenKind::Version => {
                lemma_scan_error_kind(args, i + 1, Plan { version: true, ..plan });
            },
            TokenKind::ExecuteInline(code) => {
                lemma_scan_error_kind(
                    args,
                    i + 1,
                    queue(Plan { execute: true, ..plan }, Action::Execute(code)),
                );
            },
            TokenKind::ExecuteNext => {
                if has_operand(args, i) {
                    lemma_scan_error_kind(
                        args,
                        i + 2,
                        queue(Plan { execute: true, ..plan }, Action::Execute(args[i + 1])),
                    );
                } else {
                    assert(bad =~= bare_option(false));
                }
            },
            TokenKind::LibraryInline(name) => {
                lemma_scan_error_kind(args, i + 1, queue(plan, Action::Library(name)));
            },
            TokenKind::LibraryNext => {
                if has_operand(args, i) {
                    lemma_scan_error_kind(args, i + 2, queue(plan, Action::Library(args[i + 1])));
                } else {
                    assert(bad =~= bare_option(true));
                }
            },
            TokenKind::Bad => {
                assert(bad == args[i]);
                assert(bad != bare_option(false));
                assert(bad != bare_option(true));
            },
        }
    }
}

/// The usage text says of the offending token of a rejected vector that it
/// needs an argument exactly when the token is an `-e` or an `-l` that was
/// given none, and that it is not recognized in every other case.
pub proof fn lemma_classify_error_kind(args: Seq<Token>)
    requires
        classify(args) is Err,
    ensures
        needs_argument(classify(args)->Err_0) <==> classify(args)->Err_0 == bare_option(false)
            || classify(args)->Err_0 == bare_option(true),
        !needs_argument(classify(args)->Err_0) <==> token_kind(classify(args)->Err_0) is Bad,
{
    lemma_scan_error_kind(args, 1, empty_plan());
}

/// An option whose letter is none of `-`, `E`, `i`, `v`, `e`, `l` is
/// rejected, and it is itself the offending token.
pub proof fn lemma_unknown_option(program: Token, token: Token)
    requires
        token.len() >= 2,
        token[0] == marker(),
        token[1] != marker(),
        token[1] != 'E',
        token[1] != 'i',
        token[1] != 'v',
        token[1] != 'e',
        token[1] != 'l',
    ensures
        token_kind(token) is Bad,
        classify(seq![program, token]) == Err::<Plan, Token>(token),
{
}

/// An `-e` or `-l` that stands alone behind the program name has no
/// argument and is itself the offending token.
pub proof fn lemma_dangling_option(program: Token, library: bool)
    ensures
        classify(seq![program, bare_option(library)]) == Err::<Plan, Token>(
            bare_option(library),
        ),
{
}

/// What a scan makes of the tokens from an index on does not depend on the
/// tokens before it: two vectors with the same tokens from `i` and from `j`
/// on, scanned from there with the same plan, give the same flags, actions
/// and script part, or the same offending token.
pub proof fn lemma_scan_suffix(a: Seq<Token>, i: int, b: Seq<Token>, j: int, plan: Plan)
    requires
        0 <= i <= a.len(),
        0 <= j <= b.len(),
        a.subrange(i, a.len() as int) == b.subrange(j, b.len() as int),
    ensures
        same_actions(scan(a, i, plan), scan(b, j, plan)),
        scan(a, i, plan) is Ok ==> scan(a, i, plan)->Ok_0.post == scan(b, j, plan)->Ok_0.post,
    decreases a.len() - i,
{
    let m = a.len() as int;
    let n = b.len() as int;
    let rest_a = a.subrange(i, m);
    let rest_b = b.subrange(j, n);
    assert(rest_a.len() == rest_b.len());
    if i >= m {
        assert(a.subrange(m, m) =~= b.subrange(n, n));
    } else {
        assert(a[i] == rest_a[0]);
        assert(b[j] == rest_b[0]);
        assert(a.subrange(i + 1, m) =~= rest_a.subrange(1, rest_a.len() as int));
        assert(b.subrange(j + 1, n) =~= rest_b.subrange(1, rest_b.len() as int));
        if i + 1 < m {
            assert(a[i + 1] == rest_a[1]);
            assert(b[j + 1] == rest_b[1]);
            assert(a.subrange(i + 2, m) =~= rest_a.subrange(2, rest_a.len() as int));
            assert(b.subrange(j + 2, n) =~= rest_b.subrange(2, rest_b.len() as int));
        }
        match token_kind(a[i]) {
            TokenKind::Script => {
                assert(a.subrange(i, m) == b.subrange(j, n));
            },
            TokenKind::StopOptions => {},
            TokenKind::IgnoreEnv => {
                lemma_scan_suffix(a, i + 1, b, j + 1, Plan { ignore_env: true, ..plan });
            },
            TokenKind::Interactive => {
                lemma_scan_suffix(
                    a,
                    i + 1,
                    b,
                    j + 1,
                    Plan { interactive: true, version: true, ..plan },
                );
            },
            TokenKind::Version => {
                lemma_scan_suffix(a, i + 1, b, j + 1, Plan { version: true, ..plan });
            },
            TokenKind::ExecuteInline(code) => {
                lemma_scan_suffix(
                    a,
                    i + 1,
                    b,
                    j + 1,
                    queue(Plan { execute: true, ..plan }, Action::Execute(code)),
                );
            },
            TokenKind::ExecuteNext => {
                if has_operand(a, i) {
                    lemma_scan_suffix(
                        a,
                        i + 2,
                        b,
                        j + 2,
                        queue(Plan { execute: true, ..plan }, Action::Execute(a[i + 1])),
                    );
                }
            },
            TokenKind::LibraryInline(name) => {
                lemma_scan_suffix(a, i + 1, b, j + 1, queue(plan, Action::Library(name)));
            },
            TokenKind::LibraryNext => {
                if has_operand(a, i) {
                    lemma_scan_suffix(
                        a,
                        i + 2,
                        b,
                        j + 2,
                        queue(plan, Action::Library(a[i + 1])),
                    );
                }
            },
            TokenKind::Bad => {},
        }
    }
}

/// The vector `before`, then `-e` (or `-l`) with `operand` attached, then `after`.
pub open spec fn with_attached(
    before: Seq<Token>,
    library: bool,
    operand: Token,
    after: Seq<Token>,
) -> Seq<Token> {
    before + seq![bare_option(library) + operand] + after
}

/// The vector `before`, then `-e` (or `-l`), then `operand` as a token of its
/// own, then `after`.
pub open spec fn with_separate(
    before: Seq<Token>,
    library: bool,
    operand: Token,
    after: Seq<Token>,
) -> Seq<Token> {
    before + seq![bare_option(library), operand] + after
}

/// Scanning the two spellings of one option from an index in `before` on.
proof fn lemma_spellings_from(
    before: Seq<Token>,
    library: bool,
    operand: Token,
    after: Seq<Token>,
    i: int,
    plan: Plan,
)
    requires
        0 <= i <= before.len(),
        operand.len() > 0,
        !starts_with_marker(operand),
    ensures
        same_actions(
            scan(with_attached(before, library, operand, after), i, plan),
            scan(with_separate(before, library, operand, after), i, plan),
        ),
    decreases before.len() - i,
{
    let joined = with_attached(before, library, operand, after);
    let apart = with_separate(before, library, operand, after);
    let k = before.len() as int;
    let option = bare_option(library);
    assert(joined[k] == option + operand);
    assert(apart[k] == option);
    assert(apart[k + 1] == operand);
    assert(starts_with_marker(joined[k]));
    assert(starts_with_marker(apart[k]));
    if i == k {
        let word = joined[k];
        assert(word.len() > 2);
        assert(word[0] == marker());
        assert(word[1] == option[1]);
        assert(attached(word) =~= operand);
        assert(has_operand(apart, k));
        assert(joined.subrange(k + 1, joined.len() as int) =~= after);
        assert(apart.subrange(k + 2, apart.len() as int) =~= after);
        if library {
            lemma_scan_suffix(joined, k + 1, apart, k + 2, queue(plan, Action::Library(operand)));
        } else {
            lemma_scan_suffix(
                joined,
                k + 1,
                apart,
                k + 2,
                queue(Plan { execute: true, ..plan }, Action::Execute(operand)),
            );
        }
    } else {
        assert(joined[i] == before[i]);
        assert(apart[i] == before[i]);
        if i + 1 < k {
            assert(joined[i + 1] == before[i + 1]);
            assert(apart[i + 1] == before[i + 1]);
        }
        assert(has_operand(joined, i) == has_operand(apart, i));
        match token_kind(before[i]) {
            TokenKind::Script => {},
            TokenKind::StopOptions => {},
            TokenKind::IgnoreEnv => {
                lemma_spellings_from(
                    before,
                    library,
                    operand,
                    after,
                    i + 1,
                    Plan { ignore_env: true, ..plan },
                );
            },
            TokenKind::Interactive => {
                lemma_spellings_from(
                    before,
                    library,
                    operand,
                    after,
                    i + 1,
                    Plan { interactive: true, version: true, ..plan },
                );
            },
            TokenKind::Version => {
                lemma_spellings_from(
                    before,
                    library,
                    operand,
                    after,
                    i + 1,
                    Plan { version: true, ..plan },
                );
            },
            TokenKind::ExecuteInline(code) => {
                lemma_spellings_from(
                    before,
                    library,
                    operand,
                    after,
                    i + 1,
                    queue(Plan { execute: true, ..plan }, Action::Execute(code)),
                );
            },
            TokenKind::ExecuteNext => {
                if has_operand(joined, i) {
                    lemma_spellings_from(
                        before,
                        library,
                        operand,
                        after,
                        i + 2,
                        queue(Plan { execute: true, ..plan }, Action::Execute(before[i + 1])),
                    );
                }
            },
            TokenKind::LibraryInline(name) => {
                lemma_spellings_from(
                    before,
                    library,
                    operand,
                    after,
                    i + 1,
                    queue(plan, Action::Library(name)),
                );
            },
            TokenKind::LibraryNext => {
                if has_operand(joined, i) {
                    lemma_spellings_from(
                        before,
                        library,
                        operand,
                        after,
                        i + 2,
                        queue(plan, Action::Library(before[i + 1])),
                    );
                }
            },
            TokenKind::Bad => {},
        }
    }
}

/// The argument of `-e` or `-l` may be attached to the option or be the
/// next token: wherever the option stands behind the program name, both
/// spellings of an argument that is not empty and does not begin with the
/// option marker give the same flags and the same queued actions, or the
/// same offending token.
pub proof fn lemma_attached_or_separate(
    before: Seq<Token>,
    library: bool,
    operand: Token,
    after: Seq<Token>,
)
    requires
        before.len() >= 1,
        operand.len() > 0,
        !starts_with_marker(operand),
    ensures
        same_actions(
            classify(with_attached(before, library, operand, after)),
            classify(with_separate(before, library, operand, after)),
        ),
{
    lemma_spellings_from(before, library, operand, after, 1, empty_plan());
}

} // verus!
