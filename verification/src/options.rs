//! The compile configuration and its construction from CLI flags and the
//! environment's color override, with the exact mapping each input gets.

use crate::error::CliError;
use crate::path::FsPath;
use vstd::prelude::*;

verus! {

/// The compiler's optimization levels, ordered from none to aggressive.
#[derive(Copy, Debug, Clone, PartialEq, Eq, Structural)]
pub enum OptimizationLevel {
    NoOpt,
    Less,
    Default,
    Aggressive,
}

/// Whether diagnostics are colored.
#[derive(Copy, Debug, Clone, PartialEq, Eq, Structural)]
pub enum DisplayColor {
    Enable,
    Auto,
    Disable,
}

/// The target triple to compile for: the host's native target by default,
/// or an explicit triple whose validation against the supported set is the
/// compiler's own concern.
#[derive(Debug, Clone)]
pub enum TargetChoice {
    HostDefault,
    Explicit(String),
}

/// A structured compile configuration.
#[derive(Debug, Clone)]
pub struct Config {
    pub target: TargetChoice,
    pub optimization_lvl: OptimizationLevel,
    pub out_dir: Option<FsPath>,
    pub display_color: DisplayColor,
}

/// Whether `s` holds exactly the text of `lit`.
fn str_matches(s: &String, lit: &str) -> (r: bool)
    ensures
        r == (s@ == lit@),
{
    let owned: String = lit.to_owned();
    *s == owned
}

/// The level selected by an `--opt-level` value: absence defaults to
/// `Default`, `0` to `3` name the four ordered levels, and nothing else is
/// accepted.
pub open spec fn spec_optimization(flag: Option<Seq<char>>) -> Option<OptimizationLevel> {
    match flag {
        None => Some(OptimizationLevel::Default),
        Some(s) => if s == "0"@ {
            Some(OptimizationLevel::NoOpt)
        } else if s == "1"@ {
            Some(OptimizationLevel::Less)
        } else if s == "2"@ {
            Some(OptimizationLevel::Default)
        } else if s == "3"@ {
            Some(OptimizationLevel::Aggressive)
        } else {
            None
        },
    }
}

/// The view of an optional borrowed string.
pub open spec fn view_opt(o: Option<&String>) -> Option<Seq<char>> {
    match o {
        Some(s) => Some(s@),
        None => None,
    }
}

/// Maps the `--opt-level` flag to its level; any value outside `0`-`3` is a
/// usage error naming the valid set.
pub fn optimization_from_flag(flag: Option<&String>) -> (r: Result<OptimizationLevel, CliError>)
    ensures
        match spec_optimization(view_opt(flag)) {
            Some(lvl) => r == Ok::<OptimizationLevel, CliError>(lvl),
            None => r == Err::<OptimizationLevel, CliError>(CliError::InvalidOptLevel),
        },
{
    match flag {
        None => Ok(OptimizationLevel::Default),
        Some(s) => {
            if str_matches(s, "0") {
                Ok(OptimizationLevel::NoOpt)
            } else if str_matches(s, "1") {
                Ok(OptimizationLevel::Less)
            } else if str_matches(s, "2") {
                Ok(OptimizationLevel::Default)
            } else if str_matches(s, "3") {
                Ok(OptimizationLevel::Aggressive)
            } else {
                Err(CliError::InvalidOptLevel)
            }
        },
    }
}

/// The color mode one value names: `disable`, `enable`, or — leniently —
/// `auto` for anything unrecognized.
pub open spec fn color_of(s: Seq<char>) -> DisplayColor {
    if s == "disable"@ {
        DisplayColor::Disable
    } else if s == "enable"@ {
        DisplayColor::Enable
    } else {
        DisplayColor::Auto
    }
}

/// Resolves the color mode. The explicit flag wins over the environment
/// override, and with neither present the mode is `Auto`. An unrecognized
/// environment value falls back to `Auto` on purpose — unlike the flag,
/// whose values the argument parser already restricts.
pub fn display_color_from(flag: Option<&String>, env_value: Option<&String>) -> (r: DisplayColor)
    ensures
        flag matches Some(s) ==> r == color_of(s@),
        flag is None ==> (env_value matches Some(e) ==> r == color_of(e@)),
        flag is None && env_value is None ==> r == DisplayColor::Auto,
{
    let chosen: Option<&String> = match flag {
        Some(s) => Some(s),
        None => env_value,
    };
    match chosen {
        Some(value) => {
            if str_matches(value, "disable") {
                DisplayColor::Disable
            } else if str_matches(value, "enable") {
                DisplayColor::Enable
            } else {
                DisplayColor::Auto
            }
        },
        None => DisplayColor::Auto,
    }
}

/// Builds the compile configuration from the CLI flags and the environment's
/// color override, both handed in by the caller. The output directory is not
/// configurable here; the target triple is carried as given.
pub fn compiler_options(
    opt_level: Option<&String>,
    color_flag: Option<&String>,
    env_color: Option<&String>,
    target: Option<&String>,
) -> (r: Result<Config, CliError>)
    ensures
        match spec_optimization(view_opt(opt_level)) {
            None => r matches Err(e) && e is InvalidOptLevel,
            Some(lvl) => r matches Ok(c) && {
                &&& c.optimization_lvl == lvl
                &&& (color_flag matches Some(s) ==> c.display_color == color_of(s@))
                &&& (color_flag is None ==> (env_color matches Some(e) ==> c.display_color
                    == color_of(e@)))
                &&& (color_flag is None && env_color is None ==> c.display_color
                    == DisplayColor::Auto)
                &&& c.out_dir is None
                &&& (match target {
                    Some(t) => c.target matches TargetChoice::Explicit(chosen) && chosen@ == t@,
                    None => c.target is HostDefault,
                })
            },
        },
{
    let optimization_lvl = match optimization_from_flag(opt_level) {
        Ok(lvl) => lvl,
        Err(e) => {
            return Err(e);
        },
    };
    let display_color = display_color_from(color_flag, env_color);
    let target_choice = match target {
        Some(t) => TargetChoice::Explicit(t.clone()),
        None => TargetChoice::HostDefault,
    };
    Ok(
        Config {
            target: target_choice,
            optimization_lvl,
            out_dir: None,
            display_color,
        },
    )
}

} // verus!
