//! The texts that the driver writes to standard error, and the message
//! handler of protected calls.

use crate::text::{join3, str_of};
use vstd::prelude::*;

verus! {

/// The value that an error was raised with, as far as the handler reads it.
#[derive(PartialEq, Eq, Debug)]
pub enum ErrorValue {
    /// The value is text.
    Text(String),
    /// The value is no text. `converted` is what its own conversion to text
    /// gave, if it has one and that gave text; `kind` is the name of its type.
    Other { converted: Option<String>, kind: String },
}

/// An error value in the model.
pub enum ErrorModel {
    /// The value is text.
    Text(Seq<char>),
    /// The value is no text.
    Other { converted: Option<Seq<char>>, kind: Seq<char> },
}

impl View for ErrorValue {
    type V = ErrorModel;

    open spec fn view(&self) -> ErrorModel {
        match *self {
            ErrorValue::Text(text) => ErrorModel::Text(text@),
            ErrorValue::Other { converted, kind } => ErrorModel::Other {
                converted: match converted {
                    Some(text) => Some(text@),
                    None => None,
                },
                kind: kind@,
            },
        }
    }
}

/// The message for an error value: text as it is, else what the value's own
/// conversion gave, else a note that names the value's type.
pub open spec fn handler_message(error: ErrorModel) -> Seq<char> {
    match error {
        ErrorModel::Text(text) => text,
        ErrorModel::Other { converted: Some(text), kind } => text,
        ErrorModel::Other { converted: None, kind } => "(error object is a "@ + kind
            + " value)"@,
    }
}

/// The line written for an error: the program name and a colon in front
/// where a name is given, and a line feed at the end.
pub open spec fn message_line(msg: Seq<char>, progname: Option<Seq<char>>) -> Seq<char> {
    match progname {
        Some(name) => name + ": "@ + msg + "\n"@,
        None => msg + "\n"@,
    }
}

/// Whether an offending option lacks its argument: its second character is
/// `e` or `l`.
pub open spec fn needs_argument(badoption: Seq<char>) -> bool {
    badoption.len() >= 2 && (badoption[1] == 'e' || badoption[1] == 'l')
}

/// What is wrong with an offending option.
pub open spec fn complaint(badoption: Seq<char>) -> Seq<char> {
    if needs_argument(badoption) {
        "'"@ + badoption + "' needs argument"@
    } else {
        "unrecognized option '"@ + badoption + "'"@
    }
}

/// The list of options, as the usage text shows it behind the program name.
pub open spec fn options_help() -> Seq<char> {
    " [options] [script [args]]\nAvailable options are:\n  -e stat  execute string 'stat'\n  -i       enter interactive mode after executing 'script'\n  -l name  require library 'name'\n  -v       show version information\n  -E       ignore environment variables\n  --       stop handling options\n  -        stop handling options and execute stdin\n"@
}

/// The text written for an offending option: the complaint, then the usage.
pub open spec fn usage_text(progname: Seq<char>, badoption: Seq<char>) -> Seq<char> {
    progname + ": "@ + complaint(badoption) + "\n"@ + "usage: "@ + progname + options_help()
}

/// The message of the engine's error for an interrupted call.
pub open spec fn interrupted() -> Seq<char> {
    "interrupted!"@
}

/// The message for the error value of a failed call, to which the caller
/// appends the call-stack trace. Text is taken as it is. For any other value
/// the message is what its own conversion to text gave or, where it has none,
/// `(error object is a <type> value)`.
pub fn msghandler(error: ErrorValue) -> (message: String)
    ensures
        message@ == handler_message(error@),
{
    match error {
        ErrorValue::Text(text) => text,
        ErrorValue::Other { converted, kind } => match converted {
            Some(text) => text,
            None => join3("(error object is a ", kind.as_str(), " value)"),
        },
    }
}

/// The line to write for the error message `msg`, with the program name in
/// front where `progname` gives one.
pub fn message(msg: &str, progname: Option<&str>) -> (line: String)
    ensures
        line@ == message_line(msg@, str_of(progname)),
{
    match progname {
        Some(name) => {
            let mut line = join3(name, ": ", msg);
            line.append("\n");
            line
        },
        None => {
            let mut line = msg.to_owned();
            line.append("\n");
            line
        },
    }
}

/// The text to write for the offending option `badoption`: that it needs an
/// argument where its second character is `e` or `l`, else that it is not
/// recognized; then the usage of the program.
pub fn print_usage(progname: &str, badoption: &str) -> (text: String)
    ensures
        text@ == usage_text(progname@, badoption@),
{
    let n: usize = badoption.unicode_len();
    let lacks: bool = n >= 2 && (badoption.get_char(1) == 'e' || badoption.get_char(1) == 'l');
    let mut text = progname.to_owned();
    text.append(": ");
    if lacks {
        text.append("'");
        text.append(badoption);
        text.append("' needs argument");
    } else {
        text.append("unrecognized option '");
        text.append(badoption);
        text.append("'");
    }
    text.append("\n");
    text.append("usage: ");
    text.append(progname);
    text.append(
        " [options] [script [args]]\nAvailable options are:\n  -e stat  execute string 'stat'\n  -i       enter interactive mode after executing 'script'\n  -l name  require library 'name'\n  -v       show version information\n  -E       ignore environment variables\n  --       stop handling options\n  -        stop handling options and execute stdin\n",
    );
    assert(text@ =~= usage_text(progname@, badoption@));
    text
}

/// The message that the engine raises for an interrupted call.
pub fn interrupt_message() -> (text: &'static str)
    ensures
        text@ == interrupted(),
{
    "interrupted!"
}

} // verus!
