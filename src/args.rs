use vstd::prelude::*;
use vstd::string::*;

use crate::error::DxError;
use crate::plan::strs;

verus! {

/// A parsed invocation.
#[derive(Debug, Clone, PartialEq, Eq)]
pub struct UserArgs {
    /// Values of `-e` / `--environ`, in the order given.
    pub environ: Vec<String>,
    /// Values of `-v` / `--volume`, in the order given.
    pub volume: Vec<String>,
    /// Whether `-n` / `--no-cache` was given.
    pub no_cache: bool,
    /// The one positional argument, if any: the command to run.
    pub command: Option<String>,
}

/// What a `UserArgs` holds, as plain sequences.
pub struct ArgsModel {
    pub environ: Seq<Seq<char>>,
    pub volume: Seq<Seq<char>>,
    pub no_cache: bool,
    pub command: Option<Seq<char>>,
}

impl View for UserArgs {
    type V = ArgsModel;

    open spec fn view(&self) -> ArgsModel {
        ArgsModel {
            environ: strs(self.environ@),
            volume: strs(self.volume@),
            no_cache: self.no_cache,
            command: match self.command {
                Some(c) => Some(c@),
                None => None,
            },
        }
    }
}

/// What the command line asks for.
#[derive(Debug, Clone, PartialEq, Eq)]
pub enum Parsed {
    /// `--help`: print usage.
    Help,
    /// `--version`: print the version.
    Version,
    /// Run a command, or list the commands when none is named.
    Args(UserArgs),
}

/// What a `Parsed` holds, as plain sequences.
pub enum ParsedModel {
    Help,
    Version,
    Args(ArgsModel),
}

impl View for Parsed {
    type V = ParsedModel;

    open spec fn view(&self) -> ParsedModel {
        match self {
            Parsed::Help => ParsedModel::Help,
            Parsed::Version => ParsedModel::Version,
            Parsed::Args(a) => ParsedModel::Args(a@),
        }
    }
}

/// Nothing given yet.
pub open spec fn empty_args() -> ArgsModel {
    ArgsModel { environ: Seq::empty(), volume: Seq::empty(), no_cache: false, command: None }
}

/// A token that looks like a flag: `-` followed by at least one character.
pub open spec fn flag_like(t: Seq<char>) -> bool {
    t.len() > 1 && t[0] == '-'
}

/// Reads the tokens from position `i` on, with `acc` gathered so far.
///
/// `--help` and `--version` end the reading where they stand. `-n` takes no
/// value and may be given once. `-e` and `-v` take the next token verbatim.
/// Any other token that looks like a flag is refused, and so is a second
/// positional argument.
pub open spec fn parse_from(toks: Seq<Seq<char>>, i: int, acc: ArgsModel) -> Result<
    ParsedModel,
    DxError,
>
    decreases toks.len() - i,
{
    if i < 0 || i >= toks.len() {
        Ok(ParsedModel::Args(acc))
    } else {
        let t = toks[i];
        if t == "--help"@ {
            Ok(ParsedModel::Help)
        } else if t == "--version"@ {
            Ok(ParsedModel::Version)
        } else if t == "-n"@ || t == "--no-cache"@ {
            if acc.no_cache {
                Err(DxError::BadArgs)
            } else {
                parse_from(toks, i + 1, ArgsModel { no_cache: true, ..acc })
            }
        } else if t == "-e"@ || t == "--environ"@ {
            if i + 1 >= toks.len() {
                Err(DxError::BadArgs)
            } else {
                parse_from(toks, i + 2, ArgsModel { environ: acc.environ.push(toks[i + 1]), ..acc })
            }
        } else if t == "-v"@ || t == "--volume"@ {
            if i + 1 >= toks.len() {
                Err(DxError::BadArgs)
            } else {
                parse_from(toks, i + 2, ArgsModel { volume: acc.volume.push(toks[i + 1]), ..acc })
            }
        } else if flag_like(t) {
            Err(DxError::BadArgs)
        } else if acc.command is Some {
            Err(DxError::BadArgs)
        } else {
            parse_from(toks, i + 1, ArgsModel { command: Some(t), ..acc })
        }
    }
}

/// The meaning of a whole command line (without the program name).
pub open spec fn parse_spec(toks: Seq<Seq<char>>) -> Result<ParsedModel, DxError> {
    parse_from(toks, 0, empty_args())
}

/// Whether `a` holds exactly the characters of `lit`.
fn is(a: &String, lit: &str) -> (r: bool)
    ensures
        r == (a@ == lit@),
{
    *a == String::from_str(lit)
}

/// Reads the command line (without the program name).
pub fn parse_args(argv: &Vec<String>) -> (r: Result<Parsed, DxError>)
    ensures
        match r {
            Ok(p) => parse_spec(strs(argv@)) == Ok::<ParsedModel, DxError>(p@),
            Err(e) => parse_spec(strs(argv@)) == Err::<ParsedModel, DxError>(e),
        },
{
    let ghost toks = strs(argv@);
    let mut out = UserArgs {
        environ: Vec::new(),
        volume: Vec::new(),
        no_cache: false,
        command: None,
    };
    proof {
        assert(out@.environ =~= Seq::<Seq<char>>::empty());
        assert(out@.volume =~= Seq::<Seq<char>>::empty());
    }
    let mut i: usize = 0;
    while i < argv.len()
        invariant
            i <= argv.len(),
            toks == strs(argv@),
            parse_spec(toks) == parse_from(toks, i as int, out@),
        decreases argv.len() - i,
    {
        let t = &argv[i];
        assert(toks[i as int] == t@);
        if is(t, "--help") {
            return Ok(Parsed::Help);
        } else if is(t, "--version") {
            return Ok(Parsed::Version);
        } else if is(t, "-n") || is(t, "--no-cache") {
            if out.no_cache {
                return Err(DxError::BadArgs);
            }
            out.no_cache = true;
            i += 1;
        } else if is(t, "-e") || is(t, "--environ") {
            if i + 1 >= argv.len() {
                return Err(DxError::BadArgs);
            }
            let ghost before = out@;
            out.environ.push(argv[i + 1].clone());
            proof {
                assert(out@.environ =~= before.environ.push(toks[i + 1]));
                assert(out@ == ArgsModel { environ: before.environ.push(toks[i + 1]), ..before });
            }
            i += 2;
        } else if is(t, "-v") || is(t, "--volume") {
            if i + 1 >= argv.len() {
                return Err(DxError::BadArgs);
            }
            let ghost before = out@;
            out.volume.push(argv[i + 1].clone());
            proof {
                assert(out@.volume =~= before.volume.push(toks[i + 1]));
                assert(out@ == ArgsModel { volume: before.volume.push(toks[i + 1]), ..before });
            }
            i += 2;
        } else if t.as_str().unicode_len() > 1 && t.as_str().get_char(0) == '-' {
            return Err(DxError::BadArgs);
        } else if out.command.is_some() {
            return Err(DxError::BadArgs);
        } else {
            out.command = Some(t.clone());
            i += 1;
        }
    }
    Ok(Parsed::Args(out))
}

} // verus!
