//! The command line of the emulator: which binary to run and how.

use getopts::{Matches, Options};
use vstd::prelude::*;

verus! {

/// How the emulator runs a program.
#[derive(Debug)]
pub enum EmulationMode {
    /// Without stopping.
    Normal,
    /// Printing the CPU state after every instruction.
    PerCycleDump,
    /// Printing the CPU state after every instruction and waiting for the
    /// Enter key.
    InteractiveMode,
    /// Without stopping, under test with the given name.
    Test(String),
}

/// The parsed command line.
#[derive(Debug)]
pub struct Args {
    pub file_path: String,
    pub emulation_mode: EmulationMode,
}

/// What the command line asks for.
#[derive(Debug)]
pub enum ParseOutcome {
    /// Run the binary.
    Run(Args),
    /// Print this usage text and stop.
    Usage(String),
    /// The command line is malformed; the message says how.
    Failed(String),
}

#[verifier::external_type_specification]
#[verifier::external_body]
pub struct ExOptions(Options);

#[verifier::external_type_specification]
#[verifier::external_body]
pub struct ExMatches(Matches);

/// The short and long names of the flags of a set of options, in the
/// order in which they were added.
pub uninterp spec fn option_names(opts: Options) -> Seq<(Seq<char>, Seq<char>)>;

/// The descriptions of the flags of a set of options, in the order in
/// which they were added.
pub uninterp spec fn option_descriptions(opts: Options) -> Seq<Seq<char>>;

/// Every option of the set was added as a flag without argument
/// (`optflag`), in the default parsing style.
pub uninterp spec fn only_flags(opts: Options) -> bool;

/// The short and long names of the flags that a parse result knows.
pub uninterp spec fn matched_names(m: Matches) -> Seq<(Seq<char>, Seq<char>)>;

/// What a parse result holds: every name, short and long, of every flag
/// that was given, whichever of its names was typed; and the free
/// arguments in order.
pub uninterp spec fn matched_flags(m: Matches) -> (Set<Seq<char>>, Seq<Seq<char>>);

/// What `getopts` makes of the arguments `args` under flags without
/// argument named `flags`: when it rejects them, the message of its
/// failure (`Display` of `getopts::Fail`); otherwise every name of every
/// flag that was given, and the free arguments.
pub uninterp spec fn getopts_parse(flags: Seq<(Seq<char>, Seq<char>)>, args: Seq<Seq<char>>) -> Result<
    (Set<Seq<char>>, Seq<Seq<char>>),
    Seq<char>,
>;

/// The usage text that `getopts` writes for flags without argument named
/// `flags`, described by `descs`, under the first line `brief`.
pub uninterp spec fn getopts_usage(
    flags: Seq<(Seq<char>, Seq<char>)>,
    descs: Seq<Seq<char>>,
    brief: Seq<char>,
) -> Seq<char>;

/// Names that getopts takes for a flag: ASCII, a short name of at most one
/// character, a long name that is not one character long, and not both
/// empty.
pub open spec fn valid_flag_names(short: Seq<char>, long: Seq<char>) -> bool {
    &&& vstd::utf8::is_ascii_chars(short)
    &&& vstd::utf8::is_ascii_chars(long)
    &&& short.len() <= 1
    &&& long.len() != 1
    &&& !(short.len() == 0 && long.len() == 0)
}

/// Every flag of `names` has names that getopts takes.
pub open spec fn valid_flags(names: Seq<(Seq<char>, Seq<char>)>) -> bool {
    forall|i: int| 0 <= i < names.len() ==> valid_flag_names(#[trigger] names[i].0, names[i].1)
}

/// Flag `name` is among `names`: a one-character name by its short name,
/// a longer one by its long name.
pub open spec fn names_define(names: Seq<(Seq<char>, Seq<char>)>, name: Seq<char>) -> bool {
    exists|i: int|
        0 <= i < names.len() && (if name.len() == 1 {
            #[trigger] names[i].0 == name
        } else {
            name.len() > 1 && names[i].1 == name
        })
}

/// The strings of `args`, as sequences of characters.
pub open spec fn arg_views(args: Seq<String>) -> Seq<Seq<char>> {
    args.map_values(|a: String| a@)
}

/// `getopts::Options::new`: a set of options with no flag.
#[verifier::external_body]
fn new_options() -> (opts: Options)
    ensures
        option_names(opts) == Seq::<(Seq<char>, Seq<char>)>::empty(),
        option_descriptions(opts) == Seq::<Seq<char>>::empty(),
        only_flags(opts),
{
    Options::new()
}

/// `getopts::Options::optflag`: adds a flag without argument, with its
/// short name (one character or none), its long name (longer than one
/// character, or none) and its description; other names make it panic.
#[verifier::external_body]
fn add_flag(opts: &mut Options, short_name: &str, long_name: &str, desc: &str)
    requires
        short_name.is_ascii(),
        long_name.is_ascii(),
        short_name@.len() <= 1,
        long_name@.len() != 1,
    ensures
        option_names(*final(opts)) == option_names(*old(opts)).push((short_name@, long_name@)),
        option_descriptions(*final(opts)) == option_descriptions(*old(opts)).push(desc@),
        only_flags(*final(opts)) == only_flags(*old(opts)),
{
    opts.optflag(short_name, long_name, desc);
}

/// `getopts::Options::parse`: the flags and free arguments of `args`, or
/// the message (`Display` of `getopts::Fail`) of why they do not fit the
/// options. It panics on a flag whose names it does not take. The parse
/// result knows the flags of the options; for options that are all flags
/// without argument it is `getopts_parse` of their names and the arguments.
#[verifier::external_body]
fn parse_with(opts: &Options, args: &[String]) -> (r: Result<Matches, String>)
    requires
        valid_flags(option_names(*opts)),
    ensures
        r matches Ok(m) ==> matched_names(m) == option_names(*opts),
        only_flags(*opts) ==> match getopts_parse(option_names(*opts), arg_views(args@)) {
            Ok(p) => r matches Ok(m) && matched_flags(m) == p,
            Err(msg) => r matches Err(t) && t@ == msg,
        },
{
    match opts.parse(args) {
        Ok(m) => Ok(m),
        Err(f) => Err(f.to_string()),
    }
}

/// `getopts::Matches::opt_present`: whether flag `name` was given; it
/// panics for a name that the options do not define.
#[verifier::external_body]
fn flag_present(m: &Matches, name: &str) -> (b: bool)
    requires
        name.is_ascii(),
        names_define(matched_names(*m), name@),
    ensures
        b == matched_flags(*m).0.contains(name@),
{
    m.opt_present(name)
}

/// The free arguments of a parse result (the field `Matches::free`).
#[verifier::external_body]
fn free_args(m: &Matches) -> (free: Vec<String>)
    ensures
        arg_views(free@) == matched_flags(*m).1,
{
    m.free.clone()
}

/// `getopts::Options::usage`: the usage text of the options, which starts
/// with the line `brief`, an empty line and the line `Options:`; for
/// options that are all flags without argument it is `getopts_usage` of
/// their names, their descriptions and `brief`. It panics on a flag whose
/// names it does not take.
#[verifier::external_body]
fn usage_text(opts: &Options, brief: &str) -> (s: String)
    requires
        valid_flags(option_names(*opts)),
    ensures
        (brief@ + "\n\nOptions:\n"@).is_prefix_of(s@),
        only_flags(*opts) ==> s@ == getopts_usage(option_names(*opts), option_descriptions(*opts), brief@),
{
    opts.usage(brief)
}

/// The first line of the usage text of program `program`.
pub open spec fn usage_brief_text(program: Seq<char>) -> Seq<char> {
    "Usage: "@ + program + " BINARY [options]"@
}

/// The first line of the usage text of program `program`.
fn usage_brief(program: &str) -> (s: String)
    ensures
        s@ == usage_brief_text(program@),
{
    proof {
        reveal_strlit("Usage: ");
        reveal_strlit(" BINARY [options]");
    }
    let mut s = String::from_str("Usage: ");
    s.append(program);
    s.append(" BINARY [options]");
    s
}

/// The names of the emulator's flags: help, verbose and interactive.
pub open spec fn emulator_flag_names() -> Seq<(Seq<char>, Seq<char>)> {
    seq![("h"@, "help"@), ("v"@, "verbose"@), ("i"@, "interactive"@)]
}

/// The descriptions of the emulator's flags.
pub open spec fn emulator_flag_descriptions() -> Seq<Seq<char>> {
    seq![
        "Print this help menu"@,
        "Print verbose log messages during emulation"@,
        "Run emulation with interactive shell."@,
    ]
}

/// The usage text of the emulator run as `program`.
pub open spec fn emulator_usage(program: Seq<char>) -> Seq<char> {
    getopts_usage(emulator_flag_names(), emulator_flag_descriptions(), usage_brief_text(program))
}

/// The emulator's options: `-h`/`--help`, `-v`/`--verbose` and
/// `-i`/`--interactive`.
pub fn emulator_options() -> (opts: Options)
    ensures
        option_names(opts) == emulator_flag_names(),
        option_descriptions(opts) == emulator_flag_descriptions(),
        only_flags(opts),
        valid_flags(option_names(opts)),
{
    proof {
        reveal_strlit("h");
        reveal_strlit("help");
        reveal_strlit("v");
        reveal_strlit("verbose");
        reveal_strlit("i");
        reveal_strlit("interactive");
    }
    let mut opts = new_options();
    add_flag(&mut opts, "h", "help", "Print this help menu");
    add_flag(&mut opts, "v", "verbose", "Print verbose log messages during emulation");
    add_flag(&mut opts, "i", "interactive", "Run emulation with interactive shell.");
    assert(option_names(opts) =~= emulator_flag_names());
    assert(option_descriptions(opts) =~= emulator_flag_descriptions());
    opts
}

/// The mode that the flags select: verbose before interactive, else
/// normal.
pub open spec fn mode_of_flags(verbose: bool, interactive: bool) -> EmulationMode {
    if verbose {
        EmulationMode::PerCycleDump
    } else if interactive {
        EmulationMode::InteractiveMode
    } else {
        EmulationMode::Normal
    }
}

/// What a parsed command line asks for: the usage text when help is asked
/// or no binary is named; otherwise to run the first free argument in the
/// mode that the flags select.
pub open spec fn outcome_of_flags(
    help: bool,
    verbose: bool,
    interactive: bool,
    free: Seq<String>,
    usage: String,
) -> ParseOutcome {
    if help || free.len() == 0 {
        ParseOutcome::Usage(usage)
    } else {
        ParseOutcome::Run(Args { file_path: free[0], emulation_mode: mode_of_flags(verbose, interactive) })
    }
}

/// What a parsed command line asks for: the usage text when help is asked
/// or no binary is named; otherwise to run the first free argument in the
/// mode that the flags select.
pub fn args_from_flags(help: bool, verbose: bool, interactive: bool, free: Vec<String>, usage: String) -> (o:
    ParseOutcome)
    ensures
        o == outcome_of_flags(help, verbose, interactive, free@, usage),
{
    if help || free.len() == 0 {
        return ParseOutcome::Usage(usage);
    }
    let mode = if verbose {
        EmulationMode::PerCycleDump
    } else if interactive {
        EmulationMode::InteractiveMode
    } else {
        EmulationMode::Normal
    };
    let file_path = free[0].clone();
    ParseOutcome::Run(Args { file_path, emulation_mode: mode })
}

/// What the command line asks for, given what getopts found: with `-h` or
/// no free argument the usage text `usage`; otherwise to run the first
/// free argument in the mode that `-v` and `-i` select.
pub open spec fn outcome_fits(o: ParseOutcome, given: Set<Seq<char>>, free: Seq<Seq<char>>, usage: Seq<char>) -> bool {
    if given.contains("h"@) || free.len() == 0 {
        o matches ParseOutcome::Usage(u) && u@ == usage
    } else {
        o matches ParseOutcome::Run(a) && a.file_path@ == free[0] && a.emulation_mode == mode_of_flags(
            given.contains("v"@),
            given.contains("i"@),
        )
    }
}

/// Parses the command line `args`, whose first element is the program's
/// name, with the flags `-h`/`--help`, `-v`/`--verbose` and
/// `-i`/`--interactive`: it fails (with getopts' message) exactly when
/// getopts rejects the other arguments; otherwise the outcome is what the
/// flags and free arguments that getopts found ask for.
pub fn parse_args(args: &Vec<String>) -> (o: ParseOutcome)
    requires
        args@.len() >= 1,
    ensures
        match getopts_parse(emulator_flag_names(), arg_views(args@.subrange(1, args@.len() as int))) {
            Err(msg) => o matches ParseOutcome::Failed(t) && t@ == msg,
            Ok(p) => outcome_fits(o, p.0, p.1, emulator_usage(args@[0]@)),
        },
{
    let program = args[0].as_str();
    let opts = emulator_options();
    let rest = vstd::slice::slice_subrange(args.as_slice(), 1, args.len());
    assert(rest@ == args@.subrange(1, args@.len() as int));
    let matches = match parse_with(&opts, rest) {
        Ok(m) => m,
        Err(msg) => {
            return ParseOutcome::Failed(msg);
        },
    };
    proof {
        reveal_strlit("h");
        reveal_strlit("v");
        reveal_strlit("i");
        assert(emulator_flag_names()[0].0 == "h"@);
        assert(emulator_flag_names()[1].0 == "v"@);
        assert(emulator_flag_names()[2].0 == "i"@);
    }
    let help = flag_present(&matches, "h");
    let verbose = flag_present(&matches, "v");
    let interactive = flag_present(&matches, "i");
    let brief = usage_brief(program);
    let usage = usage_text(&opts, brief.as_str());
    let free = free_args(&matches);
    let ghost free_view = free@;
    let ghost usage_value = usage;
    proof {
        if free_view.len() > 0 {
            assert(arg_views(free_view)[0] == free_view[0]@);
        }
    }
    let o = args_from_flags(help, verbose, interactive, free, usage);
    assert(o == outcome_of_flags(help, verbose, interactive, free_view, usage_value));
    o
}

/// `-v` selects the per-cycle dump whether or not `-i` is given; `-i`
/// without `-v` selects the interactive mode; neither runs normally. With
/// `-h`, or without a binary, the usage text is the outcome whatever else
/// is given; otherwise the binary run is the first free argument.
pub proof fn lemma_flags_select_mode(interactive: bool, help: bool, verbose: bool, free: Seq<String>, usage: String)
    ensures
        mode_of_flags(true, interactive) == EmulationMode::PerCycleDump,
        mode_of_flags(false, true) == EmulationMode::InteractiveMode,
        mode_of_flags(false, false) == EmulationMode::Normal,
        help || free.len() == 0 ==> outcome_of_flags(help, verbose, interactive, free, usage) == ParseOutcome::Usage(
            usage,
        ),
        !help && free.len() > 0 ==> (outcome_of_flags(help, verbose, interactive, free, usage) matches ParseOutcome::Run(
            a,
        ) && a.file_path == free[0]),
{
}

} // verus!
