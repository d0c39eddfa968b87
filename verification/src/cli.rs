//! The command line of the survey processor: commands, options, and how an
//! argument list is read into them.

use vstd::prelude::*;
use crate::error::types::{ConfigError, Error};
use crate::order::{lemma_lex_total, lemma_lex_trans, lex_le, lex_le_exec, sorted};
use crate::text::{cat, opt_text, owned, parse_u64, parse_unsigned, parse_usize, str_eq};

verus! {

/// The commands of the command line.
#[derive(Debug, Clone, Copy, PartialEq, Eq, Structural)]
pub enum Command {
    Process,
    ProcessRandom,
    ProcessDags,
    ProcessDagsRandom,
    ListSurveys,
    Validate,
    ValidateConfig,
    PrintConfig,
    MigrateLegacy,
    Version,
    Help,
}

/// The command and options of a command line.
#[derive(Debug)]
pub struct Args {
    pub command: Command,
    pub survey: Option<String>,
    pub environment: Option<String>,
    pub config_path: Option<String>,
    pub verbose: bool,
    pub output_dir: Option<String>,
    pub count: Option<usize>,
    pub seed: Option<u64>,
    pub allow_multi: bool,
}

/// A command line's command and options as plain values.
pub struct ArgsView {
    pub command: Command,
    pub survey: Option<Seq<char>>,
    pub environment: Option<Seq<char>>,
    pub config_path: Option<Seq<char>>,
    pub verbose: bool,
    pub output_dir: Option<Seq<char>>,
    pub count: Option<nat>,
    pub seed: Option<nat>,
    pub allow_multi: bool,
}


impl View for Args {
    type V = ArgsView;

    open spec fn view(&self) -> ArgsView {
        ArgsView {
            command: self.command,
            survey: opt_text(self.survey),
            environment: opt_text(self.environment),
            config_path: opt_text(self.config_path),
            verbose: self.verbose,
            output_dir: opt_text(self.output_dir),
            count: match self.count {
                Some(n) => Some(n as nat),
                None => None,
            },
            seed: match self.seed {
                Some(n) => Some(n as nat),
                None => None,
            },
            allow_multi: self.allow_multi,
        }
    }
}

/// Help, with no option set.
pub open spec fn no_options() -> ArgsView {
    ArgsView {
        command: Command::Help,
        survey: None,
        environment: None,
        config_path: None,
        verbose: false,
        output_dir: None,
        count: None,
        seed: None,
        allow_multi: false,
    }
}

/// The command a word names, if it names one.
pub open spec fn command_named(a: Seq<char>) -> Option<Command> {
    if a == "process"@ {
        Some(Command::Process)
    } else if a == "process-random"@ {
        Some(Command::ProcessRandom)
    } else if a == "process-dags"@ {
        Some(Command::ProcessDags)
    } else if a == "process-dags-random"@ {
        Some(Command::ProcessDagsRandom)
    } else if a == "list-surveys"@ {
        Some(Command::ListSurveys)
    } else if a == "validate"@ {
        Some(Command::Validate)
    } else if a == "validate-config"@ {
        Some(Command::ValidateConfig)
    } else if a == "print-config"@ {
        Some(Command::PrintConfig)
    } else if a == "migrate-legacy"@ {
        Some(Command::MigrateLegacy)
    } else if a == "--version"@ || a == "-V"@ {
        Some(Command::Version)
    } else if a == "--help"@ || a == "-h"@ {
        Some(Command::Help)
    } else {
        None
    }
}

/// The options read from `args` at position `i` on, over `acc`, or the
/// message of the first error. A command word sets the command (the last
/// one wins); "--survey"/"-s", "--env"/"-e", "--config"/"-c" and
/// "--output"/"-o" take the next argument as their value; "--count"/"-n"
/// and "--seed" take the next argument as a number; "--verbose"/"-v" and
/// "--allow-multi" set their flags; anything else is an unknown argument.
pub open spec fn parse_from(args: Seq<Seq<char>>, i: int, acc: ArgsView) -> Result<ArgsView, Seq<char>>
    decreases args.len() - i,
{
    if i < 0 || i >= args.len() {
        Ok(acc)
    } else {
        let a = args[i];
        let has_value = i + 1 < args.len();
        if command_named(a) is Some {
            parse_from(args, i + 1, ArgsView { command: command_named(a)->0, ..acc })
        } else if a == "--survey"@ || a == "-s"@ {
            if has_value {
                parse_from(args, i + 2, ArgsView { survey: Some(args[i + 1]), ..acc })
            } else {
                Err("Missing survey code after --survey"@)
            }
        } else if a == "--env"@ || a == "-e"@ {
            if has_value {
                parse_from(args, i + 2, ArgsView { environment: Some(args[i + 1]), ..acc })
            } else {
                Err("Missing environment after --env"@)
            }
        } else if a == "--config"@ || a == "-c"@ {
            if has_value {
                parse_from(args, i + 2, ArgsView { config_path: Some(args[i + 1]), ..acc })
            } else {
                Err("Missing config path after --config"@)
            }
        } else if a == "--output"@ || a == "-o"@ {
            if has_value {
                parse_from(args, i + 2, ArgsView { output_dir: Some(args[i + 1]), ..acc })
            } else {
                Err("Missing output directory after --output"@)
            }
        } else if a == "--verbose"@ || a == "-v"@ {
            parse_from(args, i + 1, ArgsView { verbose: true, ..acc })
        } else if a == "--count"@ || a == "-n"@ {
            if has_value {
                match parse_unsigned(args[i + 1], usize::MAX as nat) {
                    Some(n) => parse_from(args, i + 2, ArgsView { count: Some(n), ..acc }),
                    None => Err("Invalid count value: "@ + args[i + 1]),
                }
            } else {
                Err("Missing number after --count"@)
            }
        } else if a == "--seed"@ {
            if has_value {
                match parse_unsigned(args[i + 1], u64::MAX as nat) {
                    Some(n) => parse_from(args, i + 2, ArgsView { seed: Some(n), ..acc }),
                    None => Err("Invalid seed value: "@ + args[i + 1]),
                }
            } else {
                Err("Missing number after --seed"@)
            }
        } else if a == "--allow-multi"@ {
            parse_from(args, i + 1, ArgsView { allow_multi: true, ..acc })
        } else {
            Err("Unknown argument: "@ + a)
        }
    }
}

/// What a command line gives: the program's name comes first and is
/// passed over; with nothing after it, help.
pub open spec fn parsed(args: Seq<Seq<char>>) -> Result<ArgsView, Seq<char>> {
    if args.len() < 2 {
        Ok(no_options())
    } else {
        parse_from(args, 1, no_options())
    }
}

/// The command word `a` names, if any.
fn command_of(a: &str) -> (r: Option<Command>)
    ensures
        r == command_named(a@),
{
    if str_eq(a, "process") {
        Some(Command::Process)
    } else if str_eq(a, "process-random") {
        Some(Command::ProcessRandom)
    } else if str_eq(a, "process-dags") {
        Some(Command::ProcessDags)
    } else if str_eq(a, "process-dags-random") {
        Some(Command::ProcessDagsRandom)
    } else if str_eq(a, "list-surveys") {
        Some(Command::ListSurveys)
    } else if str_eq(a, "validate") {
        Some(Command::Validate)
    } else if str_eq(a, "validate-config") {
        Some(Command::ValidateConfig)
    } else if str_eq(a, "print-config") {
        Some(Command::PrintConfig)
    } else if str_eq(a, "migrate-legacy") {
        Some(Command::MigrateLegacy)
    } else if str_eq(a, "--version") || str_eq(a, "-V") {
        Some(Command::Version)
    } else if str_eq(a, "--help") || str_eq(a, "-h") {
        Some(Command::Help)
    } else {
        None
    }
}

/// The error for an invalid argument.
pub open spec fn argument_error(e: Error, message: Seq<char>) -> bool {
    e matches Error::Config(ConfigError::ValidationError { message: m, field: f }) && m@ == message && f is None
}

/// The error for an invalid argument.
fn invalid_argument(message: String) -> (e: Error)
    ensures
        argument_error(e, message@),
{
    Error::Config(ConfigError::InvalidArgument(message))
}

/// The command and options of the command line `args` (see `parsed`), or
/// the invalid-argument error of the first argument that cannot be read.
pub fn parse_args(args: &Vec<String>) -> (r: Result<Args, Error>)
    ensures
        match parsed(args@.map_values(|s: String| s@)) {
            Ok(v) => r matches Ok(a) && a@ == v,
            Err(m) => r matches Err(e) && argument_error(e, m),
        },
{
    let ghost av = args@.map_values(|s: String| s@);
    let mut out = Args {
        command: Command::Help,
        survey: None,
        environment: None,
        config_path: None,
        verbose: false,
        output_dir: None,
        count: None,
        seed: None,
        allow_multi: false,
    };
    if args.len() < 2 {
        return Ok(out);
    }
    let mut i: usize = 1;
    while i < args.len()
        invariant
            av == args@.map_values(|s: String| s@),
            1 <= i <= args@.len() + 1,
            parsed(av) == parse_from(av, i as int, out@),
            args@.len() >= 2,
        decreases args@.len() + 1 - i,
    {
        let a = args[i].as_str();
        assert(av[i as int] == a@);
        let has_value = i + 1 < args.len();
        if has_value {
            assert(av[i + 1] == args@[i + 1]@);
        }
        match command_of(a) {
            Some(c) => {
                out.command = c;
                i = i + 1;
                continue;
            },
            None => {},
        }
        if str_eq(a, "--survey") || str_eq(a, "-s") {
            if has_value {
                out.survey = Some(args[i + 1].clone());
                i = i + 2;
            } else {
                return Err(invalid_argument(owned("Missing survey code after --survey")));
            }
        } else if str_eq(a, "--env") || str_eq(a, "-e") {
            if has_value {
                out.environment = Some(args[i + 1].clone());
                i = i + 2;
            } else {
                return Err(invalid_argument(owned("Missing environment after --env")));
            }
        } else if str_eq(a, "--config") || str_eq(a, "-c") {
            if has_value {
                out.config_path = Some(args[i + 1].clone());
                i = i + 2;
            } else {
                return Err(invalid_argument(owned("Missing config path after --config")));
            }
        } else if str_eq(a, "--output") || str_eq(a, "-o") {
            if has_value {
                out.output_dir = Some(args[i + 1].clone());
                i = i + 2;
            } else {
                return Err(invalid_argument(owned("Missing output directory after --output")));
            }
        } else if str_eq(a, "--verbose") || str_eq(a, "-v") {
            out.verbose = true;
            i = i + 1;
        } else if str_eq(a, "--count") || str_eq(a, "-n") {
            if has_value {
                match parse_usize(args[i + 1].as_str()) {
                    Some(n) => {
                        out.count = Some(n);
                        i = i + 2;
                    },
                    None => {
                        return Err(invalid_argument(cat("Invalid count value: ", args[i + 1].as_str())));
                    },
                }
            } else {
                return Err(invalid_argument(owned("Missing number after --count")));
            }
        } else if str_eq(a, "--seed") {
            if has_value {
                match parse_u64(args[i + 1].as_str()) {
                    Some(n) => {
                        out.seed = Some(n);
                        i = i + 2;
                    },
                    None => {
                        return Err(invalid_argument(cat("Invalid seed value: ", args[i + 1].as_str())));
                    },
                }
            } else {
                return Err(invalid_argument(owned("Missing number after --seed")));
            }
        } else if str_eq(a, "--allow-multi") {
            out.allow_multi = true;
            i = i + 1;
        } else {
            return Err(invalid_argument(cat("Unknown argument: ", a)));
        }
    }
    Ok(out)
}

/// Whether a directory under the survey configurations is a survey: names
/// starting with '_' or '.', and "TEMPLATE", are not.
pub open spec fn is_survey_dir(name: Seq<char>) -> bool {
    !(name.len() > 0 && (name[0] == '_' || name[0] == '.')) && name != "TEMPLATE"@
}

/// Whether the directory `name` holds a survey (see `is_survey_dir`).
pub fn is_survey_dir_name(name: &str) -> (b: bool)
    ensures
        b == is_survey_dir(name@),
{
    let n = name.unicode_len();
    if n > 0 {
        let c = name.get_char(0);
        if c == '_' || c == '.' {
            return false;
        }
    }
    !str_eq(name, "TEMPLATE")
}

/// A survey found among the survey configurations.
#[derive(Debug)]
pub struct DiscoveredSurvey {
    pub code: String,
    pub name: String,
    pub description: Option<String>,
    pub size_class: Option<String>,
}

/// A survey from the fields of its overview: the code defaults to
/// "unknown" and the name to "Unknown Survey".
pub fn discovered_survey(
    code: Option<String>,
    name: Option<String>,
    description: Option<String>,
    size_class: Option<String>,
) -> (d: DiscoveredSurvey)
    ensures
        d.code@ == match code {
            Some(c) => c@,
            None => "unknown"@,
        },
        d.name@ == match name {
            Some(n) => n@,
            None => "Unknown Survey"@,
        },
        d.description == description,
        d.size_class == size_class,
{
    DiscoveredSurvey {
        code: match code {
            Some(c) => c,
            None => owned("unknown"),
        },
        name: match name {
            Some(n) => n,
            None => owned("Unknown Survey"),
        },
        description,
        size_class,
    }
}

/// The codes of the surveys.
pub open spec fn codes_of(v: Seq<DiscoveredSurvey>) -> Seq<Seq<char>> {
    v.map_values(|d: DiscoveredSurvey| d.code@)
}

/// The surveys sorted by code; surveys of equal codes keep their order.
/// The result holds the same surveys as `v`.
pub fn sort_by_code(v: Vec<DiscoveredSurvey>) -> (r: Vec<DiscoveredSurvey>)
    ensures
        sorted(codes_of(r@)),
        r@.to_multiset() == v@.to_multiset(),
{
    let ghost orig = v@;
    let mut rest = v;
    let mut r: Vec<DiscoveredSurvey> = Vec::new();
    let mut i: usize = 0;
    let n = rest.len();
    proof {
        assert(r@ =~= orig.take(0));
    }
    while rest.len() > 0
        invariant
            n == orig.len(),
            rest@ == orig.skip(n - rest@.len()),
            rest@.len() <= n,
            sorted(codes_of(r@)),
            r@.to_multiset() == orig.take(n - rest@.len()).to_multiset(),
        decreases rest@.len(),
    {
        let ghost done = n - rest@.len();
        let x = rest.remove(0);
        assert(x == orig[done]);
        assert(rest@ =~= orig.skip(n - rest@.len()));
        let mut p: usize = 0;
        while p < r.len() && lex_le_exec(r[p].code.as_str(), x.code.as_str())
            invariant
                p <= r@.len(),
                forall|k: int| 0 <= k < p ==> lex_le(#[trigger] codes_of(r@)[k], x.code@),
            decreases r@.len() - p,
        {
            p = p + 1;
        }
        let ghost before = r@;
        let ghost bc = codes_of(before);
        let ghost xc = x.code@;
        let ghost xv = x;
        r.insert(p, x);
        proof {
            assert(r@ =~= before.insert(p as int, xv));
            assert(codes_of(r@) =~= bc.insert(p as int, xc));
            if p < bc.len() {
                lemma_lex_total(bc[p as int], xc);
            }
            assert forall|a: int, b: int| 0 <= a < b < codes_of(r@).len() implies lex_le(
                #[trigger] codes_of(r@)[a],
                #[trigger] codes_of(r@)[b],
            ) by {
                let s = codes_of(r@);
                if a < p && b < p {
                    assert(s[a] == bc[a] && s[b] == bc[b]);
                } else if a < p && b == p {
                    assert(s[a] == bc[a]);
                } else if a < p && b > p {
                    assert(s[a] == bc[a] && s[b] == bc[b - 1]);
                    if b - 1 > a {
                        assert(lex_le(bc[a], bc[b - 1]));
                    }
                } else if a == p {
                    assert(s[b] == bc[b - 1]);
                    if b - 1 > p {
                        assert(lex_le(bc[p as int], bc[b - 1]));
                        lemma_lex_trans(xc, bc[p as int], bc[b - 1]);
                    }
                } else {
                    assert(s[a] == bc[a - 1] && s[b] == bc[b - 1]);
                }
            }
            let ins = r@;
            assert(ins.remove(p as int) =~= before);
            ins.to_multiset_ensures();
            assert(ins.contains(xv)) by {
                assert(ins[p as int] == xv);
            }
            assert(ins.to_multiset() =~= before.to_multiset().insert(xv)) by {
                broadcast use vstd::multiset::group_multiset_axioms;
            }
            assert(orig.take(done + 1) =~= orig.take(done).push(orig[done]));
            orig.take(done).to_multiset_ensures();
        }
    }
    assert(orig.take(n as int) =~= orig);
    r
}

/// How many surveys `process-random` takes: the count asked for (5 when
/// none is given), and no more than are available.
pub fn random_pick_count(count: Option<usize>, available: usize) -> (n: usize)
    ensures
        n == (match count {
            Some(c) => if c < available { c } else { available },
            None => if 5 < available { 5 } else { available },
        }),
{
    let c = match count {
        Some(c) => c,
        None => 5,
    };
    if c < available { c } else { available }
}

/// How many surveys `process-dags-random` asks for: the count given (3
/// when none is), held at 3 unless several may run.
pub fn dag_request_count(count: Option<usize>, allow_multi: bool) -> (n: usize)
    ensures
        n == ({
            let c = match count {
                Some(c) => c,
                None => 3usize,
            };
            if !allow_multi && c > 3 { 3usize } else { c }
        }),
{
    let c = match count {
        Some(c) => c,
        None => 3,
    };
    if !allow_multi && c > 3 { 3 } else { c }
}

/// How many surveys `process-dags-random` takes: the count it asks for (see
/// `dag_request_count`), and no more than have a DAG.
pub fn random_dag_pick_count(count: Option<usize>, allow_multi: bool, available: usize) -> (n: usize)
    ensures
        ({
            let c = match count {
                Some(c) => c,
                None => 3usize,
            };
            let asked = if !allow_multi && c > 3 { 3usize } else { c };
            n == if asked < available { asked } else { available }
        }),
{
    let asked = dag_request_count(count, allow_multi);
    if asked < available { asked } else { available }
}

} // verus!
