//! Command-line arguments of the EVM runner.
//!
//! The runner takes three options, each followed by its value:
//! `--contract-code-path`, `--calldata` and `--num-runs`. Arguments are read
//! from left to right; an option given twice takes its last value, and
//! anything that is no option is skipped. The first argument, the program's
//! name, is never looked at.

use crate::decimal::{parse_u8, parse_unsigned};
use crate::text::same_text;
use vstd::prelude::*;
use vstd::utf8::encode_utf8;

verus! {

/// What the runner was asked to do.
#[derive(Debug, PartialEq, Eq)]
pub struct RunConfig {
    /// Path of the file that holds the contract's runtime code in hex.
    pub contract_code_path: String,
    /// The call data in hex.
    pub calldata: String,
    /// How many times the call is run and timed.
    pub num_runs: u8,
}

/// The mathematical content of a [`RunConfig`].
pub struct RunSettings {
    pub contract_code_path: Seq<char>,
    pub calldata: Seq<char>,
    pub num_runs: u8,
}

impl View for RunConfig {
    type V = RunSettings;

    open spec fn view(&self) -> RunSettings {
        RunSettings {
            contract_code_path: self.contract_code_path@,
            calldata: self.calldata@,
            num_runs: self.num_runs,
        }
    }
}

/// Why the arguments could not be read.
#[derive(Debug, Clone, Copy, PartialEq, Eq, Structural)]
pub enum ArgsError {
    /// The option at `index` is the last argument: its value is missing.
    MissingValue { index: usize },
    /// The argument at `index` should be a run count and is no number from
    /// 0 to 255.
    InvalidRunCount { index: usize },
}

/// The arguments as texts.
pub open spec fn texts(args: Seq<String>) -> Seq<Seq<char>> {
    args.map_values(|arg: String| arg@)
}

/// The settings in force before any argument is read: no path, no call
/// data, one run.
pub open spec fn default_settings() -> RunSettings {
    RunSettings { contract_code_path: Seq::empty(), calldata: Seq::empty(), num_runs: 1 }
}

/// Whether `arg` is one of the runner's options.
pub open spec fn is_option(arg: Seq<char>) -> bool {
    arg == "--contract-code-path"@ || arg == "--calldata"@ || arg == "--num-runs"@
}

/// The settings that result from reading `args` from index `at` on, starting
/// out from `settings`.
pub open spec fn settings_from(args: Seq<Seq<char>>, at: int, settings: RunSettings) -> Result<
    RunSettings,
    ArgsError,
>
    decreases args.len() - at,
{
    if at < 0 || at >= args.len() {
        Ok(settings)
    } else if !is_option(args[at]) {
        settings_from(args, at + 1, settings)
    } else if at + 1 >= args.len() {
        Err(ArgsError::MissingValue { index: at as usize })
    } else if args[at] == "--contract-code-path"@ {
        settings_from(
            args,
            at + 2,
            RunSettings { contract_code_path: args[at + 1], ..settings },
        )
    } else if args[at] == "--calldata"@ {
        settings_from(args, at + 2, RunSettings { calldata: args[at + 1], ..settings })
    } else {
        match parse_unsigned(encode_utf8(args[at + 1]), u8::MAX as nat) {
            Some(runs) => settings_from(
                args,
                at + 2,
                RunSettings { num_runs: runs as u8, ..settings },
            ),
            None => Err(ArgsError::InvalidRunCount { index: (at + 1) as usize }),
        }
    }
}

/// The settings that the command line `args` asks for.
pub open spec fn settings_of(args: Seq<Seq<char>>) -> Result<RunSettings, ArgsError> {
    settings_from(args, 1, default_settings())
}

/// From index 1 on, reading the arguments does not depend on the first one.
pub proof fn lemma_first_argument_is_skipped(
    args: Seq<Seq<char>>,
    name: Seq<char>,
    at: int,
    settings: RunSettings,
)
    requires
        args.len() > 0,
        at >= 1,
    ensures
        settings_from(args.update(0, name), at, settings) == settings_from(args, at, settings),
    decreases args.len() - at,
{
    if at < args.len() {
        if !is_option(args[at]) {
            lemma_first_argument_is_skipped(args, name, at + 1, settings);
        } else if at + 1 < args.len() {
            if args[at] == "--contract-code-path"@ {
                lemma_first_argument_is_skipped(
                    args,
                    name,
                    at + 2,
                    RunSettings { contract_code_path: args[at + 1], ..settings },
                );
            } else if args[at] == "--calldata"@ {
                lemma_first_argument_is_skipped(
                    args,
                    name,
                    at + 2,
                    RunSettings { calldata: args[at + 1], ..settings },
                );
            } else {
                match parse_unsigned(encode_utf8(args[at + 1]), u8::MAX as nat) {
                    Some(runs) => {
                        lemma_first_argument_is_skipped(
                            args,
                            name,
                            at + 2,
                            RunSettings { num_runs: runs as u8, ..settings },
                        );
                    },
                    None => {},
                }
            }
        }
    }
}

/// The program's name has no say in the settings.
pub proof fn lemma_program_name_is_ignored(args: Seq<Seq<char>>, name: Seq<char>)
    requires
        args.len() > 0,
    ensures
        settings_of(args.update(0, name)) == settings_of(args),
{
    lemma_first_argument_is_skipped(args, name, 1, default_settings());
}

/// Reads the runner's command line, program name included.
pub fn parse_args(args: &[String]) -> (result: Result<RunConfig, ArgsError>)
    ensures
        match settings_of(texts(args@)) {
            Ok(settings) => result is Ok && result->Ok_0@ == settings,
            Err(error) => result is Err && result->Err_0 == error,
        },
{
    let mut config: RunConfig = RunConfig {
        contract_code_path: String::new(),
        calldata: String::new(),
        num_runs: 1,
    };
    let ghost all = texts(args@);
    let mut i: usize = 1;
    while i < args.len()
        invariant
            1 <= i,
            all == texts(args@),
            settings_of(all) == settings_from(all, i as int, config@),
        decreases args.len() - i,
    {
        let arg: &str = args[i].as_str();
        let is_path: bool = same_text(arg, "--contract-code-path");
        let is_calldata: bool = same_text(arg, "--calldata");
        let is_runs: bool = same_text(arg, "--num-runs");
        if !(is_path || is_calldata || is_runs) {
            i += 1;
        } else if args.len() - i < 2 {
            return Err(ArgsError::MissingValue { index: i });
        } else {
            let value: &String = &args[i + 1];
            if is_path {
                config.contract_code_path = value.clone();
            } else if is_calldata {
                config.calldata = value.clone();
            } else {
                match parse_u8(value.as_str()) {
                    Some(runs) => {
                        config.num_runs = runs;
                    },
                    None => {
                        return Err(ArgsError::InvalidRunCount { index: i + 1 });
                    },
                }
            }
            i += 2;
        }
    }
    Ok(config)
}

} // verus!
