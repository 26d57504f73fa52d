//! The command line of the server: `-h` / `--help`, and `-p` / `--port`
//! with the port to listen on.

use crate::port::{parse_port, port_number};
use vstd::prelude::*;
use vstd::slice::slice_subrange;
use vstd::string::StringExecFns;

verus! {

/// What the command line asks for.
#[derive(Debug)]
pub struct Params {
    /// The usage text, if help was asked for.
    pub help: Option<String>,
    /// The port to listen on.
    pub port: u16,
}

/// The mathematical value of [`Params`].
pub struct ParamsView {
    pub help: Option<Seq<char>>,
    pub port: u16,
}

impl View for Params {
    type V = ParamsView;

    open spec fn view(&self) -> ParamsView {
        ParamsView { help: self.help.deep_view(), port: self.port }
    }
}

/// Why a command line was not understood.
#[derive(Debug)]
pub enum CliError {
    /// The arguments do not fit the options that the program has.
    InvalidArguments,
    /// What was given as the port, and is no port number.
    InvalidPort(String),
}

/// The mathematical value of a [`CliError`].
pub enum CliErrorView {
    InvalidArguments,
    InvalidPort(Seq<char>),
}

impl View for CliError {
    type V = CliErrorView;

    open spec fn view(&self) -> CliErrorView {
        match self {
            CliError::InvalidArguments => CliErrorView::InvalidArguments,
            CliError::InvalidPort(text) => CliErrorView::InvalidPort(text@),
        }
    }
}

impl CliError {
    /// The error in words.
    pub fn message(&self) -> (text: String)
        ensures
            text@ == match self@ {
                CliErrorView::InvalidArguments => "Could not parse arguments"@,
                CliErrorView::InvalidPort(port) => "Could not parse argument "@ + port
                    + " as valid port number"@,
            },
    {
        match self {
            CliError::InvalidArguments => String::from_str("Could not parse arguments"),
            CliError::InvalidPort(port) => {
                let mut text = String::from_str("Could not parse argument ");
                text.append(port.as_str());
                text.append(" as valid port number");
                text
            },
        }
    }
}

/// Whether an option takes a value.
pub enum TakesValue {
    Yes,
    No,
    Maybe,
}

/// How often an option may be given.
pub enum Occurs {
    Once,
    AtMostOnce,
    AnyNumberOfTimes,
}

/// One option that a program declares: its names (either may be empty),
/// what the usage text says of it, whether it takes a value and how often it
/// may be given.
pub struct OptionDecl {
    pub short_name: Seq<char>,
    pub long_name: Seq<char>,
    pub description: Seq<char>,
    pub hint: Seq<char>,
    pub takes_value: TakesValue,
    pub occurs: Occurs,
}

/// The occurrences of each option on a command line, in the order in which
/// they came, under each of the option's names: `None` for an occurrence
/// without a value.
pub type Occurrences = Map<Seq<char>, Seq<Option<Seq<char>>>>;

#[verifier::external_type_specification]
#[verifier::external_body]
pub struct ExOptions(getopts::Options);

#[verifier::external_type_specification]
#[verifier::external_body]
pub struct ExMatches(getopts::Matches);

#[verifier::external_type_specification]
#[verifier::external_body]
pub struct ExFail(getopts::Fail);

/// The options that `options` holds, in the order in which they were
/// declared.
pub uninterp spec fn declared(options: getopts::Options) -> Seq<OptionDecl>;

/// Whether `options` parses in the style that `getopts::Options::new` sets:
/// options and free arguments may be mixed, and a long name takes two
/// hyphens.
pub uninterp spec fn default_style(options: getopts::Options) -> bool;

/// What `matches` holds: the occurrences of each option.
pub uninterp spec fn matched(matches: getopts::Matches) -> Occurrences;

/// What `getopts::Options::parse` makes of the arguments `args`, for
/// options `decls` in the default style: the occurrences of each option, or
/// `None` where the arguments do not fit the options.
pub uninterp spec fn parsed(decls: Seq<OptionDecl>, args: Seq<Seq<char>>) -> Option<Occurrences>;

/// The text that `getopts::Options::usage` lays out for options `decls` in
/// the default style, under the line `brief`.
pub uninterp spec fn usage_text(decls: Seq<OptionDecl>, brief: Seq<char>) -> Seq<char>;

/// Names that an option can be declared with: a short name is empty or one
/// ASCII character, a long name is empty or has two characters or more.
pub open spec fn valid_names(short_name: Seq<char>, long_name: Seq<char>) -> bool {
    &&& short_name.len() == 0 || (short_name.len() == 1 && short_name[0] <= '\u{7f}')
    &&& long_name.len() != 1
}

/// Every option of `decls` has valid names, and one at least.
pub open spec fn well_named(decls: Seq<OptionDecl>) -> bool {
    forall|i: int|
        0 <= i < decls.len() ==> {
            &&& valid_names((#[trigger] decls[i]).short_name, decls[i].long_name)
            &&& decls[i].short_name.len() > 0 || decls[i].long_name.len() > 0
        }
}

/// The names under which the options of `decls` can be asked for.
pub open spec fn option_names(decls: Seq<OptionDecl>) -> Set<Seq<char>> {
    Set::new(
        |name: Seq<char>|
            name.len() > 0 && exists|i: int|
                0 <= i < decls.len() && ((#[trigger] decls[i]).short_name == name
                    || decls[i].long_name == name),
    )
}

/// The value of the first of `occurrences`, if there is an occurrence and it
/// has a value.
pub open spec fn first_value(occurrences: Seq<Option<Seq<char>>>) -> Option<Seq<char>> {
    if occurrences.len() > 0 {
        occurrences[0]
    } else {
        None
    }
}

/// `getopts::Options::new` makes a set of options that holds none, in the
/// default style.
#[verifier::external_body]
fn new_options() -> (options: getopts::Options)
    ensures
        declared(options) == Seq::<OptionDecl>::empty(),
        default_style(options),
{
    getopts::Options::new()
}

/// `getopts::Options::optflag` declares, after those that `options` holds,
/// an option that takes no value and may be given once. It panics on names
/// that are not valid, which are left out here.
#[verifier::external_body]
fn declare_flag(options: &mut getopts::Options, short_name: &str, long_name: &str, description: &str)
    requires
        valid_names(short_name@, long_name@),
    ensures
        declared(*final(options)) == declared(*old(options)).push(
            OptionDecl {
                short_name: short_name@,
                long_name: long_name@,
                description: description@,
                hint: Seq::empty(),
                takes_value: TakesValue::No,
                occurs: Occurs::AtMostOnce,
            },
        ),
        default_style(*final(options)) == default_style(*old(options)),
{
    options.optflag(short_name, long_name, description);
}

/// `getopts::Options::optopt` declares, after those that `options` holds, an
/// option that takes a value and may be given once. It panics on names that
/// are not valid, which are left out here.
#[verifier::external_body]
fn declare_value(
    options: &mut getopts::Options,
    short_name: &str,
    long_name: &str,
    description: &str,
    hint: &str,
)
    requires
        valid_names(short_name@, long_name@),
    ensures
        declared(*final(options)) == declared(*old(options)).push(
            OptionDecl {
                short_name: short_name@,
                long_name: long_name@,
                description: description@,
                hint: hint@,
                takes_value: TakesValue::Yes,
                occurs: Occurs::AtMostOnce,
            },
        ),
        default_style(*final(options)) == default_style(*old(options)),
{
    options.optopt(short_name, long_name, description, hint);
}

/// `getopts::Options::parse` reads `args` against `options`. What it finds
/// is a function of the declared options and the arguments, here
/// [`parsed`]; the matches that it returns can be asked for every declared
/// name, and for no other. It panics on an option without any name, which is
/// left out here.
#[verifier::external_body]
fn parse_options(options: &getopts::Options, args: &[String]) -> (outcome: Result<
    getopts::Matches,
    getopts::Fail,
>)
    requires
        well_named(declared(*options)),
        default_style(*options),
    ensures
        match parsed(declared(*options), args.deep_view()) {
            Some(found) => outcome matches Ok(matches) && matched(matches) == found,
            None => outcome is Err,
        },
        outcome matches Ok(matches) ==> matched(matches).dom() == option_names(declared(*options)),
{
    options.parse(args)
}

/// `getopts::Matches::opt_present` says whether the option `name` occurred.
/// It panics on a name that was not declared, which is left out here.
#[verifier::external_body]
fn option_present(matches: &getopts::Matches, name: &str) -> (present: bool)
    requires
        matched(*matches).contains_key(name@),
    ensures
        present == (matched(*matches)[name@].len() > 0),
{
    matches.opt_present(name)
}

/// `getopts::Matches::opt_str` returns the value of the first occurrence of
/// the option `name`, if it occurred and that occurrence has a value. It
/// panics on a name that was not declared, which is left out here.
#[verifier::external_body]
fn option_value(matches: &getopts::Matches, name: &str) -> (value: Option<String>)
    requires
        matched(*matches).contains_key(name@),
    ensures
        value.deep_view() == first_value(matched(*matches)[name@]),
{
    matches.opt_str(name)
}

/// `getopts::Options::usage` lays out `brief` and one entry for each
/// declared option. The text is a function of the declared options and
/// `brief`, here [`usage_text`].
#[verifier::external_body]
fn usage(options: &getopts::Options, brief: &str) -> (text: String)
    requires
        well_named(declared(*options)),
        default_style(*options),
    ensures
        text@ == usage_text(declared(*options), brief@),
{
    options.usage(brief)
}

/// The options of the program: `-h`, `--help` and `-p PORT`, `--port PORT`.
pub open spec fn program_options() -> Seq<OptionDecl> {
    seq![
        OptionDecl {
            short_name: "h"@,
            long_name: "help"@,
            description: "Show help & exit"@,
            hint: Seq::empty(),
            takes_value: TakesValue::No,
            occurs: Occurs::AtMostOnce,
        },
        OptionDecl {
            short_name: "p"@,
            long_name: "port"@,
            description: "Port to listen on"@,
            hint: "PORT"@,
            takes_value: TakesValue::Yes,
            occurs: Occurs::AtMostOnce,
        },
    ]
}

/// The options of the program have valid names, among them `h` and `p`.
proof fn lemma_program_options()
    ensures
        valid_names("h"@, "help"@),
        valid_names("p"@, "port"@),
        well_named(program_options()),
        option_names(program_options()).contains("h"@),
        option_names(program_options()).contains("p"@),
{
    reveal_strlit("h");
    reveal_strlit("help");
    reveal_strlit("p");
    reveal_strlit("port");
}

/// Declares the options of the program.
fn create_options() -> (options: getopts::Options)
    ensures
        declared(options) == program_options(),
        default_style(options),
{
    proof {
        lemma_program_options();
    }
    let mut options = new_options();
    declare_flag(&mut options, "h", "help", "Show help & exit");
    declare_value(&mut options, "p", "port", "Port to listen on", "PORT");
    options
}

/// The first line of the usage text of `program`.
pub open spec fn usage_brief(program: Seq<char>) -> Seq<char> {
    "Usage: "@ + program + " [options]"@
}

/// The usage text of `program`: the line `Usage: program [options]`, and
/// below it the options, as `getopts` lays them out.
pub fn create_help(program: &str) -> (help: String)
    ensures
        help@ == usage_text(program_options(), usage_brief(program@)),
{
    proof {
        lemma_program_options();
    }
    let options = create_options();
    let mut brief = String::from_str("Usage: ");
    brief.append(program);
    brief.append(" [options]");
    usage(&options, brief.as_str())
}

/// The port that is listened on when the command line names none.
pub open spec fn default_port_text() -> Seq<char> {
    "3000"@
}

/// The parameters for a command line that asked for help with the text
/// `help`, or did not, and gave `port_text` as its port, or none: the port
/// is `port_text`, or 3000 without it, and has to be a port number.
pub open spec fn selected(help: Option<Seq<char>>, port_text: Option<Seq<char>>) -> Result<
    ParamsView,
    CliErrorView,
> {
    let text = match port_text {
        Some(text) => text,
        None => default_port_text(),
    };
    match port_number(text) {
        Some(port) => Ok(ParamsView { help, port }),
        None => Err(CliErrorView::InvalidPort(text)),
    }
}

/// Makes the parameters for a command line that asked for help with the
/// text `help`, or did not, and gave `port_text` as its port, or none.
pub fn select_params(help: Option<String>, port_text: Option<String>) -> (params: Result<
    Params,
    CliError,
>)
    ensures
        match selected(help.deep_view(), port_text.deep_view()) {
            Ok(expected) => params matches Ok(p) && p@ == expected,
            Err(expected) => params matches Err(e) && e@ == expected,
        },
{
    let text = match port_text {
        Some(text) => text,
        None => String::from_str("3000"),
    };
    match parse_port(text.as_str()) {
        Some(port) => Ok(Params { help, port }),
        None => Err(CliError::InvalidPort(text)),
    }
}

/// What the parameters are when `found` are the occurrences of the options
/// on the command line of `program`.
pub open spec fn params_of(found: Occurrences, program: Seq<char>) -> Result<ParamsView, CliErrorView> {
    selected(
        if found["h"@].len() > 0 {
            Some(usage_text(program_options(), usage_brief(program)))
        } else {
            None
        },
        first_value(found["p"@]),
    )
}

/// Reads the command line `args`, whose first item is the name of the
/// program.
///
/// Arguments that do not fit the options are an error. The usage text is
/// handed back if help was asked for. The port is what `-p` or `--port`
/// gives, or 3000, and has to be a port number.
pub fn parse_args(args: &[String]) -> (params: Result<Params, CliError>)
    requires
        args@.len() > 0,
    ensures
        match parsed(program_options(), args.deep_view().skip(1)) {
            None => params matches Err(e) && e@ == CliErrorView::InvalidArguments,
            Some(found) => match params_of(found, args@[0]@) {
                Ok(expected) => params matches Ok(p) && p@ == expected,
                Err(expected) => params matches Err(e) && e@ == expected,
            },
        },
{
    proof {
        lemma_program_options();
    }
    let options = create_options();
    let rest = slice_subrange(args, 1, args.len());
    assert(rest.deep_view() =~= args.deep_view().skip(1));
    let matches = match parse_options(&options, rest) {
        Ok(matches) => matches,
        Err(_) => {
            return Err(CliError::InvalidArguments);
        },
    };
    let help = if option_present(&matches, "h") {
        Some(create_help(args[0].as_str()))
    } else {
        None
    };
    let port_text = option_value(&matches, "p");
    select_params(help, port_text)
}

} // verus!
