//! The command-line decision logic: the option set, the reading of the
//! parsed matches, the validation of the requested suffix length, and
//! the choice of what the invocation should do.

use vstd::prelude::*;

verus! {

/// The getopts option-set type, held opaquely.
#[verifier::external_type_specification]
#[verifier::external_body]
pub struct ExOptions(getopts::Options);

/// The getopts parse-result type, held opaquely.
#[verifier::external_type_specification]
#[verifier::external_body]
pub struct ExMatches(getopts::Matches);

/// The getopts parse-error type, held opaquely.
#[verifier::external_type_specification]
#[verifier::external_body]
pub struct ExFail(getopts::Fail);

/// The groups of a getopts option set: for each defined option, its
/// short name, its long name, and whether it takes an argument, in the
/// order the options were added.
pub uninterp spec fn opts_of(o: getopts::Options) -> Seq<(Seq<char>, Seq<char>, bool)>;

/// What a getopts parse result holds for this tool's three options:
/// whether the help and version flags occurred, and the argument given
/// to the kana option.
pub uninterp spec fn matches_of(m: getopts::Matches) -> (bool, bool, Option<Seq<char>>);

/// The outcome getopts computes from an option set built by this
/// library (so under the default parsing configuration) and an argument
/// list: the three reports on success, or the failure message.
pub uninterp spec fn parse_reports(opts: Seq<(Seq<char>, Seq<char>, bool)>, args: Seq<Seq<char>>)
    -> Result<(bool, bool, Option<Seq<char>>), Seq<char>>;

/// The usage text getopts renders for the given groups under a brief
/// line naming the given program.
pub uninterp spec fn usage_of(opts: Seq<(Seq<char>, Seq<char>, bool)>, program: Seq<char>) -> Seq<
    char,
>;

/// The message a getopts parse error describes itself with.
pub uninterp spec fn fail_of(f: getopts::Fail) -> Seq<char>;

/// The views of a list of argument strings.
pub open spec fn views_of(args: Seq<String>) -> Seq<Seq<char>> {
    args.map_values(|s: String| s@)
}

/// An option set for this tool. The held getopts value is only ever
/// built by `make_options`, so its groups all carry validated,
/// non-empty names and its parsing configuration is getopts' default;
/// the trusted contracts below rely on that.
pub struct OptionSet {
    opts: getopts::Options,
}

impl OptionSet {
    /// The groups of the held option set.
    pub closed spec fn groups(&self) -> Seq<(Seq<char>, Seq<char>, bool)> {
        opts_of(self.opts)
    }
}

/// Relies on `getopts::Options::new`, which creates an option set with
/// no groups; it cannot panic.
#[verifier::external_body]
fn options_new() -> (r: getopts::Options)
    ensures
        opts_of(r) == Seq::<(Seq<char>, Seq<char>, bool)>::empty(),
{
    getopts::Options::new()
}

/// Relies on `getopts::Options::optflag`, which appends one group that
/// takes no argument. Its name check panics unless the short name is
/// one byte (here: one ASCII character) and the long name more than
/// one, so those inputs are required here.
#[verifier::external_body]
fn add_flag(o: &mut getopts::Options, short: &str, long: &str, desc: &str)
    requires
        short@.len() == 1 && (short@[0] as u32) < 0x80,
        long@.len() > 1,
    ensures
        opts_of(*final(o)) == opts_of(*old(o)).push((short@, long@, false)),
{
    o.optflag(short, long, desc);
}

/// Relies on `getopts::Options::optopt`, which appends one group that
/// takes an argument. Its name check panics unless the short name is
/// one byte (here: one ASCII character) and the long name more than
/// one, so those inputs are required here.
#[verifier::external_body]
fn add_opt(o: &mut getopts::Options, short: &str, long: &str, desc: &str, hint: &str)
    requires
        short@.len() == 1 && (short@[0] as u32) < 0x80,
        long@.len() > 1,
    ensures
        opts_of(*final(o)) == opts_of(*old(o)).push((short@, long@, true)),
{
    o.optopt(short, long, desc, hint);
}

/// Relies on `getopts::Options::parse`, which matches the arguments
/// against the option set and reports every malformed argument as an
/// `Err` value. Every `OptionSet` holds only groups added through
/// `add_flag` and `add_opt`, whose names are validated and non-empty,
/// so the group conversion inside `parse` cannot panic; and its parsing
/// configuration is getopts' default, so the outcome is a function of
/// the groups and the arguments alone.
#[verifier::external_body]
fn parse_opts(o: &OptionSet, args: &Vec<String>) -> (r: Result<getopts::Matches, getopts::Fail>)
    ensures
        r is Ok <==> parse_reports(o.groups(), views_of(args@)) is Ok,
        r matches Ok(m) ==> (parse_reports(o.groups(), views_of(args@)) matches Ok(t)
            && matches_of(m) == t),
        r matches Err(f) ==> (parse_reports(o.groups(), views_of(args@)) matches Err(e) && fail_of(
            f,
        ) == e),
{
    o.opts.parse(args)
}

/// Relies on `getopts::Matches::opt_present`, which reports whether the
/// named option occurred among the arguments. It panics on a name the
/// option set never defined, so the lookup is guarded with
/// `getopts::Matches::opt_defined`, which never panics.
#[verifier::external_body]
fn opt_present(m: &getopts::Matches, name: &str) -> (r: bool)
    ensures
        name@ == "h"@ ==> r == matches_of(*m).0,
        name@ == "v"@ ==> r == matches_of(*m).1,
{
    m.opt_defined(name) && m.opt_present(name)
}

/// Relies on `getopts::Matches::opt_str`, which returns the argument
/// supplied to the named option, or `None` when it did not occur. It
/// panics on a name the option set never defined, so the lookup is
/// guarded with `getopts::Matches::opt_defined`, which never panics.
#[verifier::external_body]
fn opt_str(m: &getopts::Matches, name: &str) -> (r: Option<String>)
    ensures
        name@ == "k"@ ==> (r matches Some(s) ==> matches_of(*m).2 == Some(s@)),
        name@ == "k"@ && r is None ==> matches_of(*m).2 is None,
{
    if m.opt_defined(name) {
        m.opt_str(name)
    } else {
        None
    }
}

/// Relies on `getopts::Options::usage`, which renders the option
/// descriptions under the given brief line, here built from the program
/// name. Its formatting panics only on a short option name longer than
/// one byte, which `add_flag` and `add_opt` already exclude from every
/// `OptionSet`.
#[verifier::external_body]
fn usage_text(o: &OptionSet, program: &str) -> (r: String)
    ensures
        r@ == usage_of(o.groups(), program@),
{
    o.opts.usage(&format!("Usage: {} [OPTIONS]", program))
}

/// Relies on the `Display` impl of `getopts::Fail`, which describes the
/// parse error in one line.
#[verifier::external_body]
fn fail_message(f: &getopts::Fail) -> (r: String)
    ensures
        r@ == fail_of(*f),
{
    format!("{}", f)
}

/// Builds the tool's option set: the help and version flags and the
/// kana-count option, in that order.
pub fn make_options() -> (r: OptionSet)
    ensures
        r.groups() == seq![
            ("h"@, "help"@, false),
            ("v"@, "version"@, false),
            ("k"@, "kana"@, true),
        ],
{
    let mut o = options_new();
    proof {
        reveal_strlit("h");
        reveal_strlit("help");
        reveal_strlit("v");
        reveal_strlit("version");
        reveal_strlit("k");
        reveal_strlit("kana");
    }
    add_flag(&mut o, "h", "help", "print this help menu");
    add_flag(&mut o, "v", "version", "print the version");
    add_opt(&mut o, "k", "kana", "append N random katakana characters, up to 255", "N");
    proof {
        assert(opts_of(o) =~= seq![
            ("h"@, "help"@, false),
            ("v"@, "version"@, false),
            ("k"@, "kana"@, true),
        ]);
    }
    OptionSet { opts: o }
}

/// True of the decimal digit characters.
pub open spec fn is_digit(c: char) -> bool {
    0x30 <= c as u32 <= 0x39
}

/// The numeric value of one decimal digit character.
pub open spec fn digit_val(c: char) -> nat {
    (c as u32 - 0x30) as nat
}

/// True of a non-empty text made of decimal digits only.
pub open spec fn is_dec(s: Seq<char>) -> bool {
    s.len() > 0 && forall|i: int| 0 <= i < s.len() ==> is_digit(#[trigger] s[i])
}

/// The numeric value of a decimal digit text.
pub open spec fn dec_value(s: Seq<char>) -> nat
    decreases s.len(),
{
    if s.len() == 0 {
        0
    } else {
        dec_value(s.drop_last()) * 10 + digit_val(s.last())
    }
}

/// True exactly when the text names a valid suffix length: a decimal
/// integer between 0 and 255.
pub open spec fn valid_kana_count(s: Seq<char>) -> bool {
    is_dec(s) && dec_value(s) <= 255
}

/// Parses a requested suffix length: `Some` exactly on a non-empty
/// all-digit text whose value is at most 255, and then that value.
pub fn parse_kana_value(s: &str) -> (r: Option<u8>)
    ensures
        r is Some <==> valid_kana_count(s@),
        r is Some ==> r->0 as nat == dec_value(s@),
{
    let len = s.unicode_len();
    if len == 0 {
        return None;
    }
    // `acc` tracks the value of the digits read so far, saturated to the
    // sentinel 300 once that value can no longer be at most 255.
    let mut acc: u32 = 0;
    let mut i: usize = 0;
    while i < len
        invariant
            i <= len,
            len == s@.len(),
            forall|j: int| 0 <= j < i ==> is_digit(#[trigger] s@[j]),
            if dec_value(s@.take(i as int)) <= 255 {
                acc == dec_value(s@.take(i as int))
            } else {
                acc == 300
            },
        decreases len - i,
    {
        let c = s.get_char(i);
        let u = c as u32;
        if !(0x30 <= u && u <= 0x39) {
            return None;
        }
        let d = u - 0x30;
        proof {
            assert(s@.take(i + 1).drop_last() =~= s@.take(i as int));
            assert(s@.take(i + 1).last() == s@[i as int]);
        }
        if acc <= 255 {
            let t = acc * 10 + d;
            if t <= 255 {
                acc = t;
            } else {
                acc = 300;
            }
        }
        i += 1;
    }
    proof {
        assert(s@.take(len as int) =~= s@);
    }
    if acc <= 255 {
        Some(acc as u8)
    } else {
        None
    }
}

/// What one invocation of the tool should do, decided from its
/// arguments alone.
pub enum CliAction {
    /// Print the given usage text and succeed.
    ShowHelp(String),
    /// Print the version and succeed.
    ShowVersion,
    /// Transform the input, appending this many katakana characters.
    Run(u8),
    /// The requested suffix length is not an integer from 0 to 255:
    /// print a diagnostic and fail.
    BadKana,
    /// The arguments did not parse: print the given message and fail.
    BadArgs(String),
}

/// Chooses the action from what the argument parser reported: help wins
/// over version, version over running, and a run needs a suffix length
/// that is a decimal integer between 0 and 255 (0 when absent). The
/// rendered usage text is taken as an argument so that the choice
/// itself stays a pure, fully specified function.
pub fn decide_action(help: bool, version: bool, kana_arg: Option<String>, usage: String) -> (r:
    CliAction)
    ensures
        help ==> (r matches CliAction::ShowHelp(u) && u@ == usage@),
        !help && version ==> r == CliAction::ShowVersion,
        !help && !version && kana_arg is None ==> r == CliAction::Run(0),
        !help && !version && kana_arg is Some && valid_kana_count(kana_arg->0@) ==> r
            == CliAction::Run(dec_value(kana_arg->0@) as u8),
        !help && !version && kana_arg is Some && !valid_kana_count(kana_arg->0@) ==> r
            == CliAction::BadKana,
{
    if help {
        CliAction::ShowHelp(usage)
    } else if version {
        CliAction::ShowVersion
    } else {
        match kana_arg {
            None => CliAction::Run(0),
            Some(a) => match parse_kana_value(a.as_str()) {
                Some(k) => CliAction::Run(k),
                None => CliAction::BadKana,
            },
        }
    }
}

/// Matches the arguments (the program name left out) against the option
/// set and chooses the action: on a parse failure, `BadArgs` with the
/// parser's message; otherwise exactly what `decide_action` chooses
/// from the parser's three reports and the rendered usage text.
pub fn parse_args(opts: &OptionSet, program: &str, args: &Vec<String>) -> (r: CliAction)
    ensures
        parse_reports(opts.groups(), views_of(args@)) matches Err(e) ==> (r
            matches CliAction::BadArgs(s) && s@ == e),
        parse_reports(opts.groups(), views_of(args@)) matches Ok(t) ==> ({
            &&& t.0 ==> (r matches CliAction::ShowHelp(u) && u@ == usage_of(
                opts.groups(),
                program@,
            ))
            &&& !t.0 && t.1 ==> r == CliAction::ShowVersion
            &&& !t.0 && !t.1 && t.2 is None ==> r == CliAction::Run(0)
            &&& !t.0 && !t.1 && t.2 is Some && valid_kana_count(t.2->0) ==> r == CliAction::Run(
                dec_value(t.2->0) as u8,
            )
            &&& !t.0 && !t.1 && t.2 is Some && !valid_kana_count(t.2->0) ==> r
                == CliAction::BadKana
        }),
{
    match parse_opts(opts, args) {
        Err(f) => CliAction::BadArgs(fail_message(&f)),
        Ok(m) => {
            let help = opt_present(&m, "h");
            let version = opt_present(&m, "v");
            let kana_arg = opt_str(&m, "k");
            decide_action(help, version, kana_arg, usage_text(opts, program))
        },
    }
}

} // verus!
