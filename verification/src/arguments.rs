//! Arguments of the operator commands.
use vstd::prelude::*;

use crate::symbol::digit_value;
use crate::symbol::is_digit;
use crate::text::chars_of;
use crate::text::opt_text;
use crate::text::same_text;
use crate::text::texts;

verus! {

// ---------------------------------------------------------------------------------------------
// Integers
// ---------------------------------------------------------------------------------------------

/// Whether every character is a decimal digit.
pub open spec fn all_digits(text: Seq<char>) -> bool {
    forall|i: int| 0 <= i < text.len() ==> is_digit(#[trigger] text[i])
}

/// The number that some digits stand for.
pub open spec fn digits_value(text: Seq<char>) -> int
    decreases text.len(),
{
    if text.len() == 0 {
        0
    } else {
        10 * digits_value(text.drop_last()) + digit_value(text.last())
    }
}

/// The natural number that a text stands for.
pub open spec fn natural_in(text: Seq<char>) -> Option<int> {
    if text.len() > 0 && all_digits(text) {
        Some(digits_value(text))
    } else {
        None
    }
}

/// The integer that a text stands for: digits behind at most one sign, within 64 bits.
pub open spec fn integer_in(text: Seq<char>) -> Option<int> {
    let value = if text.len() > 0 && text[0] == '-' {
        match natural_in(text.skip(1)) {
            Some(n) => Some(-n),
            None => None,
        }
    } else if text.len() > 0 && text[0] == '+' {
        natural_in(text.skip(1))
    } else {
        natural_in(text)
    };
    match value {
        Some(n) => if i64::MIN <= n <= i64::MAX {
            Some(n)
        } else {
            None
        },
        None => None,
    }
}

const LARGEST: u64 = 9_223_372_036_854_775_808;

/// Reads digits from a position on; nothing for a text without digits or a value past the smallest
/// integer's.
fn read_digits(chars: &Vec<char>, start: usize) -> (value: Option<u64>)
    requires
        start <= chars@.len(),
    ensures
        match value {
            Some(n) => natural_in(chars@.skip(start as int)) == Some(n as int) && n <= LARGEST,
            None => match natural_in(chars@.skip(start as int)) {
                Some(n) => n > LARGEST,
                None => true,
            },
        },
{
    let n: usize = chars.len();
    let ghost digits = chars@.skip(start as int);
    if start == n {
        return None;
    }
    let mut value: u64 = 0;
    let mut large: bool = false;
    let mut i: usize = start;
    while i < n
        invariant
            start <= i <= n,
            n == chars@.len(),
            digits == chars@.skip(start as int),
            value <= LARGEST,
            all_digits(digits.take(i - start)),
            !large ==> value == digits_value(digits.take(i - start)),
            large ==> digits_value(digits.take(i - start)) > LARGEST,
        decreases n - i,
    {
        let c: char = chars[i];
        proof {
            let next = digits.take(i - start + 1);
            assert(next.drop_last() =~= digits.take(i - start));
            assert(next.last() == c);
            assert(digits[i - start] == c);
        }
        if c < '0' || c > '9' {
            assert(!is_digit(digits[i - start]));
            return None;
        }
        let digit: u64 = (c as u32 - '0' as u32) as u64;
        if !large {
            if value > 922_337_203_685_477_580 || (value == 922_337_203_685_477_580 && digit > 8) {
                large = true;
            } else {
                value = value * 10 + digit;
            }
        }
        i += 1;
    }
    assert(digits.take(n - start) =~= digits);
    if large {
        None
    } else {
        Some(value)
    }
}

/// Reads an integer: digits behind at most one sign, within 64 bits.
pub fn parse_integer(text: &str) -> (value: Option<i64>)
    ensures
        match value {
            Some(n) => integer_in(text@) == Some(n as int),
            None => integer_in(text@) is None,
        },
{
    let chars = chars_of(text);
    assert(chars@.skip(0) =~= chars@);
    if chars.len() > 0 && chars[0] == '-' {
        match read_digits(&chars, 1) {
            Some(n) => if n == LARGEST {
                Some(i64::MIN)
            } else {
                Some(-(n as i64))
            },
            None => None,
        }
    } else {
        let start: usize = if chars.len() > 0 && chars[0] == '+' {
            1
        } else {
            0
        };
        match read_digits(&chars, start) {
            Some(n) => if n < LARGEST {
                Some(n as i64)
            } else {
                None
            },
            None => None,
        }
    }
}

// ---------------------------------------------------------------------------------------------
// Options
// ---------------------------------------------------------------------------------------------

/// The options that a command takes besides `--json` and help.
#[derive(Clone, Copy, Debug)]
pub struct OptionSet {
    /// Whether `--pre-roll` is taken.
    pub pre_roll: bool,
    /// Whether `--since-secs` is taken.
    pub since_secs: bool,
    /// Whether `--scanner-since-secs` is taken.
    pub scanner_since_secs: bool,
}

/// The options of a command line.
#[derive(Clone, Copy, Debug, PartialEq, Eq, Structural)]
pub struct ParsedArgs {
    /// Whether to print JSON.
    pub json_output: bool,
    /// Whether to run the pre-roll checks.
    pub pre_roll: bool,
    /// Lookback in seconds.
    pub since_secs: i64,
    /// Whether help was asked for; what follows is then not read.
    pub help: bool,
}

/// Why a command line was refused.
#[derive(Clone, Debug)]
pub enum ArgsError {
    /// An option without its value.
    MissingValue,
    /// A value that is no integer.
    BadNumber(String),
    /// An argument that the command does not take.
    Unknown(String),
}

/// What a refusal says.
pub enum ArgsErrorView {
    /// An option without its value.
    MissingValue,
    /// A value that is no integer.
    BadNumber(Seq<char>),
    /// An argument that the command does not take.
    Unknown(Seq<char>),
}

impl View for ArgsError {
    type V = ArgsErrorView;

    open spec fn view(&self) -> ArgsErrorView {
        match *self {
            ArgsError::MissingValue => ArgsErrorView::MissingValue,
            ArgsError::BadNumber(text) => ArgsErrorView::BadNumber(text@),
            ArgsError::Unknown(text) => ArgsErrorView::Unknown(text@),
        }
    }
}

/// A command line without arguments.
pub open spec fn no_args(since_secs: i64) -> ParsedArgs {
    ParsedArgs { json_output: false, pre_roll: false, since_secs, help: false }
}

/// Whether an argument asks for help.
pub open spec fn asks_help(arg: Seq<char>) -> bool {
    arg == "--help"@ || arg == "-h"@
}

/// Whether an argument is a lookback option of the command.
pub open spec fn is_since(options: OptionSet, arg: Seq<char>) -> bool {
    (options.since_secs && arg == "--since-secs"@) || (options.scanner_since_secs && arg
        == "--scanner-since-secs"@)
}

/// The meaning of the arguments from a position on.
pub open spec fn meaning(
    options: OptionSet,
    args: Seq<Seq<char>>,
    at: int,
    so_far: ParsedArgs,
) -> Result<ParsedArgs, ArgsErrorView>
    decreases args.len() - at,
{
    if at >= args.len() {
        Ok(so_far)
    } else if args[at] == "--json"@ {
        meaning(options, args, at + 1, (ParsedArgs { json_output: true, ..so_far }))
    } else if options.pre_roll && args[at] == "--pre-roll"@ {
        meaning(options, args, at + 1, (ParsedArgs { pre_roll: true, ..so_far }))
    } else if is_since(options, args[at]) {
        if at + 1 >= args.len() {
            Err(ArgsErrorView::MissingValue)
        } else {
            match integer_in(args[at + 1]) {
                Some(n) => meaning(
                    options,
                    args,
                    at + 2,
                    (ParsedArgs {
                        since_secs: (if n < 0 {
                            0
                        } else {
                            n
                        }) as i64,
                        ..so_far
                    }),
                ),
                None => Err(ArgsErrorView::BadNumber(args[at + 1])),
            }
        }
    } else if asks_help(args[at]) {
        Ok(ParsedArgs { help: true, ..so_far })
    } else {
        Err(ArgsErrorView::Unknown(args[at]))
    }
}

/// What a result says.
pub open spec fn outcome_view(outcome: Result<ParsedArgs, ArgsError>) -> Result<
    ParsedArgs,
    ArgsErrorView,
> {
    match outcome {
        Ok(parsed) => Ok(parsed),
        Err(error) => Err(error@),
    }
}

fn parse_options(args: &Vec<String>, options: OptionSet, since_secs: i64) -> (outcome: Result<
    ParsedArgs,
    ArgsError,
>)
    ensures
        outcome_view(outcome) == meaning(options, texts(args@), 0, no_args(since_secs)),
{
    let mut parsed = ParsedArgs { json_output: false, pre_roll: false, since_secs, help: false };
    let n: usize = args.len();
    let mut i: usize = 0;
    let ghost all = texts(args@);
    while i < n
        invariant
            n == args@.len(),
            i <= n,
            all == texts(args@),
            meaning(options, all, 0, no_args(since_secs)) == meaning(options, all, i as int, parsed),
        decreases n - i,
    {
        let arg = args[i].as_str();
        assert(all[i as int] == arg@);
        if same_text(arg, "--json") {
            parsed.json_output = true;
        } else if options.pre_roll && same_text(arg, "--pre-roll") {
            parsed.pre_roll = true;
        } else if (options.since_secs && same_text(arg, "--since-secs")) || (
        options.scanner_since_secs && same_text(arg, "--scanner-since-secs")) {
            if n - i <= 1 {
                return Err(ArgsError::MissingValue);
            }
            i += 1;
            assert(all[i as int] == args@[i as int]@);
            match parse_integer(args[i].as_str()) {
                Some(value) => {
                    parsed.since_secs = if value < 0 {
                        0
                    } else {
                        value
                    };
                },
                None => {
                    return Err(ArgsError::BadNumber(args[i].clone()));
                },
            }
        } else if same_text(arg, "--help") || same_text(arg, "-h") {
            parsed.help = true;
            return Ok(parsed);
        } else {
            return Err(ArgsError::Unknown(args[i].clone()));
        }
        i += 1;
    }
    Ok(parsed)
}

/// The options of the configuration check.
pub open spec fn lint_options() -> OptionSet {
    OptionSet {
        pre_roll: true,
        since_secs: false,
        scanner_since_secs: false,
    }
}

/// The options of the scanner report.
pub open spec fn scanner_options() -> OptionSet {
    OptionSet {
        pre_roll: false,
        since_secs: true,
        scanner_since_secs: false,
    }
}

/// The options of the one-shot validation.
pub open spec fn doctor_options() -> OptionSet {
    OptionSet { pre_roll: false, since_secs: true, scanner_since_secs: true }
}

/// The options of the universe plan.
pub open spec fn universe_options() -> OptionSet {
    OptionSet {
        pre_roll: false,
        since_secs: false,
        scanner_since_secs: false,
    }
}

/// Lookback of the scanner report, unless another is asked for.
pub const DEFAULT_SINCE_SECS: i64 = 86_400;

/// Lookback of the one-shot validation, unless another is asked for.
pub const DEFAULT_SCANNER_SINCE_SECS: i64 = 600;

/// Reads the arguments of the configuration check.
pub fn parse_lint_args(args: &Vec<String>) -> (outcome: Result<ParsedArgs, ArgsError>)
    ensures
        outcome_view(outcome) == meaning(lint_options(), texts(args@), 0, no_args(0)),
{
    parse_options(
        args,
        OptionSet {
            pre_roll: true,
            since_secs: false,
            scanner_since_secs: false,
        },
        0,
    )
}

/// Reads the arguments of the scanner report.
pub fn parse_scanner_args(args: &Vec<String>) -> (outcome: Result<ParsedArgs, ArgsError>)
    ensures
        outcome_view(outcome) == meaning(
            scanner_options(),
            texts(args@),
            0,
            no_args(DEFAULT_SINCE_SECS),
        ),
{
    parse_options(
        args,
        OptionSet {
            pre_roll: false,
            since_secs: true,
            scanner_since_secs: false,
        },
        DEFAULT_SINCE_SECS,
    )
}

/// Reads the arguments of the one-shot validation.
pub fn parse_doctor_args(args: &Vec<String>) -> (outcome: Result<ParsedArgs, ArgsError>)
    ensures
        outcome_view(outcome) == meaning(
            doctor_options(),
            texts(args@),
            0,
            no_args(DEFAULT_SCANNER_SINCE_SECS),
        ),
{
    parse_options(
        args,
        OptionSet { pre_roll: false, since_secs: true, scanner_since_secs: true },
        DEFAULT_SCANNER_SINCE_SECS,
    )
}

/// Reads the arguments of the universe plan.
pub fn parse_universe_args(args: &Vec<String>) -> (outcome: Result<ParsedArgs, ArgsError>)
    ensures
        outcome_view(outcome) == meaning(universe_options(), texts(args@), 0, no_args(0)),
{
    parse_options(
        args,
        OptionSet {
            pre_roll: false,
            since_secs: false,
            scanner_since_secs: false,
        },
        0,
    )
}

/// The text of a refusal by a command whose lookback option has a name; none for a value that is no
/// integer.
pub open spec fn error_chars(error: ArgsErrorView, command: Seq<char>, option: Seq<char>) -> Option<
    Seq<char>,
> {
    match error {
        ArgsErrorView::MissingValue => Some(option + " requires a value"@),
        ArgsErrorView::BadNumber(_) => None,
        ArgsErrorView::Unknown(arg) => Some("unknown "@ + command + " argument `"@ + arg + "`"@),
    }
}

/// Writes a refusal by a command whose lookback option has a name.
pub fn args_error_text(error: &ArgsError, command: &str, option: &str) -> (text: Option<String>)
    ensures
        opt_text(text) == error_chars(error@, command@, option@),
{
    match error {
        ArgsError::MissingValue => Some(option.to_owned().concat(" requires a value")),
        ArgsError::BadNumber(_) => None,
        ArgsError::Unknown(arg) => Some(
            "unknown ".to_owned().concat(command).concat(" argument `").concat(arg.as_str()).concat(
                "`",
            ),
        ),
    }
}

/// A lookback is never negative.
pub proof fn lookbacks_are_never_negative(
    options: OptionSet,
    args: Seq<Seq<char>>,
    at: int,
    so_far: ParsedArgs,
)
    requires
        so_far.since_secs >= 0,
    ensures
        match meaning(options, args, at, so_far) {
            Ok(parsed) => parsed.since_secs >= 0,
            Err(_) => true,
        },
    decreases args.len() - at,
{
    if at < args.len() {
        if args[at] == "--json"@ {
            lookbacks_are_never_negative(
                options,
                args,
                at + 1,
                (ParsedArgs { json_output: true, ..so_far }),
            );
        } else if options.pre_roll && args[at] == "--pre-roll"@ {
            lookbacks_are_never_negative(
                options,
                args,
                at + 1,
                (ParsedArgs { pre_roll: true, ..so_far }),
            );
        } else if is_since(options, args[at]) && at + 1 < args.len() {
            match integer_in(args[at + 1]) {
                Some(n) => {
                    let since_secs = (if n < 0 {
                        0
                    } else {
                        n
                    }) as i64;
                    lookbacks_are_never_negative(
                        options,
                        args,
                        at + 2,
                        (ParsedArgs { since_secs, ..so_far }),
                    );
                },
                None => {},
            }
        }
    }
}

} // verus!
