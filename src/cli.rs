//! The command line: what an invocation asks for, the lines it prints, and
//! the messages of its errors.

use vstd::prelude::*;
use vstd::string::*;
use crate::text::same_text;
use crate::reference::{ParseError, ParseErrorView};
use crate::workspace::{RunError, RunErrorView};

verus! {

/// The shell function's name when `init` is given none.
pub open spec fn default_function_name() -> Seq<char> {
    "projx"@
}

/// `usage: <program> [GIT_URL] [PROVIDER/OWNER/REPO] [init [FUNCTION_NAME]]`
pub open spec fn usage_spec(program: Seq<char>) -> Seq<char> {
    "usage: "@ + program + " [GIT_URL] [PROVIDER/OWNER/REPO] [init [FUNCTION_NAME]]"@
}

/// `<name>() { cd "$(<program> $1)" }`
pub open spec fn init_spec(name: Seq<char>, program: Seq<char>) -> Seq<char> {
    name + "() { cd \"$("@ + program + " $1)\" }"@
}

pub fn usage_line(program: &str) -> (r: String)
    ensures
        r@ == usage_spec(program@),
{
    let mut out = String::from_str("usage: ");
    out.append(program);
    out.append(" [GIT_URL] [PROVIDER/OWNER/REPO] [init [FUNCTION_NAME]]");
    out
}

/// The shell source that defines a function `name` which changes into the
/// directory that `program` prints for its argument.
pub fn init_line(name: &str, program: &str) -> (r: String)
    ensures
        r@ == init_spec(name@, program@),
{
    let mut out = String::from_str(name);
    out.append("() { cd \"$(");
    out.append(program);
    out.append(" $1)\" }");
    out
}

/// What an invocation asks for.
#[derive(Debug)]
pub enum Invocation {
    /// No argument: print this usage line to standard error and fail.
    Usage(String),
    /// `init [NAME]`: print this shell source and succeed, touching nothing.
    Init(String),
    /// Resolve this reference.
    Resolve(String),
}

pub enum InvocationView {
    Usage(Seq<char>),
    Init(Seq<char>),
    Resolve(Seq<char>),
}

impl View for Invocation {
    type V = InvocationView;

    open spec fn view(&self) -> InvocationView {
        match self {
            Invocation::Usage(l) => InvocationView::Usage(l@),
            Invocation::Init(l) => InvocationView::Init(l@),
            Invocation::Resolve(r) => InvocationView::Resolve(r@),
        }
    }
}

pub open spec fn interpret_spec(program: Seq<char>, args: Seq<Seq<char>>) -> InvocationView {
    if args.len() == 0 {
        InvocationView::Usage(usage_spec(program))
    } else if args[0] == "init"@ {
        InvocationView::Init(
            init_spec(if args.len() > 1 { args[1] } else { default_function_name() }, program),
        )
    } else {
        InvocationView::Resolve(args[0])
    }
}

/// Reads the arguments that follow the program's name.
pub fn interpret(program: &str, args: Vec<String>) -> (r: Invocation)
    ensures
        r@ == interpret_spec(program@, args.deep_view()),
{
    if args.len() == 0 {
        return Invocation::Usage(usage_line(program));
    }
    proof {
        assert(args.deep_view()[0] == args[0]@);
    }
    if same_text(args[0].as_str(), "init") {
        if args.len() > 1 {
            proof {
                assert(args.deep_view()[1] == args[1]@);
            }
            Invocation::Init(init_line(args[1].as_str(), program))
        } else {
            Invocation::Init(init_line("projx", program))
        }
    } else {
        Invocation::Resolve(args[0].clone())
    }
}

/// `init` alone defines the function under the default name, `init NAME`
/// under `NAME`; either way the invocation only prints, it never resolves.
pub proof fn lemma_init_prints_only(program: Seq<char>, name: Seq<char>)
    ensures
        interpret_spec(program, seq!["init"@]) == InvocationView::Init(init_spec(default_function_name(), program)),
        interpret_spec(program, seq!["init"@, name]) == InvocationView::Init(init_spec(name, program)),
{
}

/// The decimal digits of `n`.
pub open spec fn digits_spec(n: nat) -> Seq<char>
    decreases n,
{
    let d = digit_spec(n % 10);
    if n < 10 {
        seq![d]
    } else {
        digits_spec(n / 10).push(d)
    }
}

/// `n` written in decimal, with a `-` before a negative number.
pub open spec fn decimal_spec(n: int) -> Seq<char> {
    if n < 0 {
        seq!['-'] + digits_spec((-n) as nat)
    } else {
        digits_spec(n as nat)
    }
}

pub open spec fn digit_spec(d: nat) -> char {
    seq!['0', '1', '2', '3', '4', '5', '6', '7', '8', '9'][d as int]
}

fn digit_text(d: u64) -> (r: &'static str)
    requires
        d < 10,
    ensures
        r@ == seq![digit_spec(d as nat)],
{
    proof {
        reveal_strlit("0");
        reveal_strlit("1");
        reveal_strlit("2");
        reveal_strlit("3");
        reveal_strlit("4");
        reveal_strlit("5");
        reveal_strlit("6");
        reveal_strlit("7");
        reveal_strlit("8");
        reveal_strlit("9");
    }
    let r = if d == 0 {
        "0"
    } else if d == 1 {
        "1"
    } else if d == 2 {
        "2"
    } else if d == 3 {
        "3"
    } else if d == 4 {
        "4"
    } else if d == 5 {
        "5"
    } else if d == 6 {
        "6"
    } else if d == 7 {
        "7"
    } else if d == 8 {
        "8"
    } else {
        "9"
    };
    assert(r@ =~= seq![digit_spec(d as nat)]);
    r
}

fn append_digits(n: u64, out: &mut String)
    ensures
        final(out)@ == old(out)@ + digits_spec(n as nat),
    decreases n,
{
    if n >= 10 {
        append_digits(n / 10, out);
    }
    out.append(digit_text(n % 10));
    proof {
        if n >= 10 {
            assert(old(out)@ + digits_spec((n / 10) as nat) + seq![digit_spec((n % 10) as nat)] =~= old(out)@
                + digits_spec(n as nat));
        } else {
            assert(old(out)@ + seq![digit_spec((n % 10) as nat)] =~= old(out)@ + digits_spec(n as nat));
        }
    }
}

/// `n` in decimal.
pub fn decimal(n: i32) -> (r: String)
    ensures
        r@ == decimal_spec(n as int),
{
    let mut out = String::new();
    if n < 0 {
        proof {
            reveal_strlit("-");
        }
        out.append("-");
        append_digits((0 - (n as i64)) as u64, &mut out);
    } else {
        append_digits(n as u64, &mut out);
    }
    out
}

pub open spec fn parse_message_spec(e: ParseErrorView) -> Seq<char> {
    match e {
        ParseErrorView::NoBase => "no base"@,
        ParseErrorView::NoHost => "no host"@,
        ParseErrorView::UnsupportedProvider(h) => "unsupported git provider: "@ + h,
        ParseErrorView::UnknownProvider(t) => "unknown provider: "@ + t,
        ParseErrorView::MissingOwner => "no owner"@,
        ParseErrorView::MissingRepo => "no repo"@,
        ParseErrorView::TooManyFields => "too many fields"@,
    }
}

pub open spec fn run_message_spec(e: RunErrorView) -> Seq<char> {
    match e {
        RunErrorView::BaseNotSet => "PROJX_DIR environment variable not set"@,
        RunErrorView::BaseNotDirectory(b) => "PROJX_DIR is not a directory: "@ + b,
        RunErrorView::Parse(p) => parse_message_spec(p),
        RunErrorView::DirectoryCreateFailed => "unable to create directory"@,
        RunErrorView::CloneExecFailed => "failed to execute git"@,
        RunErrorView::CloneUnsuccessful(c) => "git command was unsuccessful: "@ + decimal_spec(c as int),
    }
}

fn prefixed(prefix: &str, rest: &str) -> (r: String)
    ensures
        r@ == prefix@ + rest@,
{
    let mut out = String::from_str(prefix);
    out.append(rest);
    out
}

impl ParseError {
    /// The message shown to the user.
    pub fn message(&self) -> (r: String)
        ensures
            r@ == parse_message_spec(self@),
    {
        match self {
            ParseError::NoBase => String::from_str("no base"),
            ParseError::NoHost => String::from_str("no host"),
            ParseError::UnsupportedProvider(h) => prefixed("unsupported git provider: ", h.as_str()),
            ParseError::UnknownProvider(t) => prefixed("unknown provider: ", t.as_str()),
            ParseError::MissingOwner => String::from_str("no owner"),
            ParseError::MissingRepo => String::from_str("no repo"),
            ParseError::TooManyFields => String::from_str("too many fields"),
        }
    }
}

impl RunError {
    /// The message shown to the user, after `error: `.
    pub fn message(&self) -> (r: String)
        ensures
            r@ == run_message_spec(self@),
    {
        match self {
            RunError::BaseNotSet => String::from_str("PROJX_DIR environment variable not set"),
            RunError::BaseNotDirectory(b) => prefixed("PROJX_DIR is not a directory: ", b.as_str()),
            RunError::Parse(p) => p.message(),
            RunError::DirectoryCreateFailed => String::from_str("unable to create directory"),
            RunError::CloneExecFailed => String::from_str("failed to execute git"),
            RunError::CloneUnsuccessful(c) => {
                let code = decimal(*c);
                prefixed("git command was unsuccessful: ", code.as_str())
            },
        }
    }
}

} // verus!
