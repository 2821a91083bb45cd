//! The command line: `-c <path>` names the configuration database.
use std::path::PathBuf;
use vstd::prelude::*;

verus! {

/// The start-up arguments; without a configuration path, storage finds its
/// default location.
#[derive(Debug, PartialEq, Eq)]
pub struct AppArgs {
    /// The configuration database given with `-c <path>`.
    pub config_path: Option<PathBuf>,
}

/// What is wrong with the command line.
#[derive(Debug, Clone, Copy, PartialEq, Eq, Structural)]
pub enum ArgumentProblem {
    /// `-c` was given twice.
    DuplicateConfigPath,
    /// `-c` is the last argument.
    MissingConfigPath,
    /// The argument at this position is not an option this program knows.
    UnexpectedArgument(usize),
}

/// Reads the command line from position `i` on, given which arguments are `-c`
/// and the position of the configuration path found so far.
pub open spec fn scan_arguments(flags: Seq<bool>, i: int, found: Option<int>) -> Result<Option<int>, ArgumentProblem>
    decreases flags.len() - i,
{
    if i < 0 || i >= flags.len() {
        Ok(found)
    } else if !flags[i] {
        Err(ArgumentProblem::UnexpectedArgument(i as usize))
    } else if found is Some {
        Err(ArgumentProblem::DuplicateConfigPath)
    } else if i + 1 >= flags.len() {
        Err(ArgumentProblem::MissingConfigPath)
    } else {
        scan_arguments(flags, i + 2, Some(i + 1))
    }
}

/// Where the configuration path stands on the command line, given which arguments
/// are `-c`: the argument after the only `-c`, or none; every other argument,
/// a second `-c`, or a `-c` with nothing after it is refused.
pub fn config_path_position(is_config_flag: &[bool]) -> (r: Result<Option<usize>, ArgumentProblem>)
    ensures
        match scan_arguments(is_config_flag@, 0, None) {
            Ok(Some(p)) => r == Ok::<Option<usize>, ArgumentProblem>(Some(p as usize)),
            Ok(None) => r == Ok::<Option<usize>, ArgumentProblem>(None),
            Err(e) => r == Err::<Option<usize>, ArgumentProblem>(e),
        },
        r matches Ok(Some(p)) ==> 0 < p < is_config_flag@.len() && is_config_flag@[p - 1],
{
    let mut found: Option<usize> = None;
    let mut i: usize = 0;
    while i < is_config_flag.len()
        invariant
            i <= is_config_flag@.len() + 1,
            scan_arguments(is_config_flag@, 0, None) == scan_arguments(
                is_config_flag@,
                i as int,
                match found {
                    Some(p) => Some(p as int),
                    None => None,
                },
            ),
            found matches Some(p) ==> 0 < p < is_config_flag@.len() && p < i && is_config_flag@[p - 1],
        decreases is_config_flag@.len() + 1 - i,
    {
        if !is_config_flag[i] {
            return Err(ArgumentProblem::UnexpectedArgument(i));
        }
        if found.is_some() {
            return Err(ArgumentProblem::DuplicateConfigPath);
        }
        if i + 1 >= is_config_flag.len() {
            return Err(ArgumentProblem::MissingConfigPath);
        }
        found = Some(i + 1);
        i = i + 2;
    }
    Ok(found)
}

} // verus!
