//! The command line of `catr`, read by clap.

use crate::config::{resolve, resolved, Config, Matches, MatchesView, UsageError, STDIN_NAME};
use clap::{App, Arg};
use vstd::prelude::*;

verus! {

/// clap's error type. Nothing of what it holds is visible to the proofs.
#[verifier::external_type_specification]
#[verifier::external_body]
pub struct ExClapError(clap::Error);

/// What clap finds when it reads `args`, the first of which is the program's
/// name, against the command line of `catr`: the values of the positional
/// `files`, and whether `-n`/`--number` and `-b`/`--number-nonblank` are
/// present; or `None` where clap returns an error instead.
pub uninterp spec fn clap_matches(args: Seq<Seq<char>>) -> Option<MatchesView>;

/// Describes the command line of `catr` to clap with `clap::App` and
/// `clap::Arg`, and has `App::get_matches_from_safe` read `args` against it.
/// `ArgMatches::values_of_lossy` and `ArgMatches::is_present` then give what
/// was found. The contract claims one thing: that the answer, error or not and
/// what was found, is settled by `args` alone, so that it can go by the name
/// `clap_matches`. Nothing is claimed of the error.
///
/// Asked for the version (`-V`, `--version`), clap writes it to standard
/// output itself before it returns its error, whose message is then empty.
#[verifier::external_body]
fn parse_command_line(args: &Vec<String>) -> (outcome: Result<Matches, clap::Error>)
    ensures
        outcome is Ok <==> clap_matches(args.deep_view()) is Some,
        outcome matches Ok(found) ==> clap_matches(args.deep_view()) == Some(found@),
{
    let matches = App::new("catr")
        .version("0.1.0").author("me").about("Rust cat")
        .arg(Arg::with_name("files").value_name("Files").help("Add files to cat")
            .min_values(1).default_value(STDIN_NAME))
        .arg(Arg::with_name("number").short("n").long("number").help("Number lines")
            .takes_value(false).conflicts_with("number-nonblank"))
        .arg(Arg::with_name("number-nonblank").short("b").long("number-nonblank")
            .help("Number nonblank lines").takes_value(false))
        .get_matches_from_safe(args)?;
    Ok(Matches {
        files: matches.values_of_lossy("files"),
        number: matches.is_present("number"),
        number_nonblank: matches.is_present("number-nonblank"),
    })
}

/// Takes from a clap error what the library keeps of it: the `message`
/// field, and what `clap::Error::use_stderr` answers. Nothing is claimed of
/// either beyond the variant that holds them.
#[verifier::external_body]
fn rejection(error: clap::Error) -> (reason: UsageError)
    ensures
        reason is Rejected,
{
    UsageError::Rejected { to_stderr: error.use_stderr(), message: error.message }
}

/// What `get_args` returns on a command line for which clap finds `found`:
/// the configuration that it settles, or the conflict of the two flags.
/// Where clap finds nothing, the error is clap's own.
pub open spec fn settles(found: Option<MatchesView>, result: Result<Config, UsageError>) -> bool {
    match found {
        Some(found) => match resolved(found) {
            Ok(settled) => result matches Ok(config) && config@ == settled,
            Err(reason) => result matches Err(error) && error@ == reason,
        },
        None => result matches Err(error) && error is Rejected,
    }
}

/// Reads the command line `args`, the program's name first, and settles the
/// configuration of the run. Nothing is written, but for the version, which
/// clap writes to standard output itself when it is asked for it.
pub fn get_args(args: Vec<String>) -> (result: Result<Config, UsageError>)
    ensures
        settles(clap_matches(args.deep_view()), result),
        result matches Ok(config) ==> config.wf(),
{
    match parse_command_line(&args) {
        Ok(found) => resolve(found),
        Err(error) => Err(rejection(error)),
    }
}

} // verus!
