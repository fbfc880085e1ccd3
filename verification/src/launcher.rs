//! Launching an installed version: which executable is run, whether it has
//! to be made executable first, how it is invoked, and what is said of the
//! outcome.

use vstd::prelude::*;
use vstd::string::StringExecFns;
use crate::text::join2;

verus! {

/// How an attempt to launch ended.
#[derive(Clone, Debug, PartialEq, Eq)]
pub enum LaunchResult {
    /// The game was started.
    Launched,
    /// None of the candidate executables exists.
    NotFound,
    /// The process could not be created; the text says why.
    SpawnError(String),
}

/// What a launch result stands for.
pub enum LaunchModel {
    Launched,
    NotFound,
    SpawnError(Seq<char>),
}

impl View for LaunchResult {
    type V = LaunchModel;

    open spec fn view(&self) -> LaunchModel {
        match self {
            LaunchResult::Launched => LaunchModel::Launched,
            LaunchResult::NotFound => LaunchModel::NotFound,
            LaunchResult::SpawnError(text) => LaunchModel::SpawnError(text@),
        }
    }
}

/// True when `i` is the first position of `found` that holds true.
pub open spec fn is_first_found(found: Seq<bool>, i: int) -> bool {
    0 <= i < found.len() && found[i] && forall|j: int| 0 <= j < i ==> !found[j]
}

/// The permission bits that let the owner, the group and all others execute
/// a file.
pub const EXECUTE_BITS: u32 = 0o111;

/// The mode that a file has to be given before it is run: none where
/// somebody may execute it already, else its mode with the three execute
/// bits added and nothing else changed.
pub open spec fn repaired_mode(mode: u32) -> Option<u32> {
    if mode & EXECUTE_BITS == 0 {
        Some(mode | EXECUTE_BITS)
    } else {
        None
    }
}

/// The status line for a launch of the instance `name`.
pub open spec fn launch_message(result: LaunchModel, name: Seq<char>) -> Seq<char> {
    match result {
        LaunchModel::Launched => "Launched "@ + name,
        LaunchModel::NotFound => "Executable not found for "@ + name,
        LaunchModel::SpawnError(text) => "Launch error: "@ + text,
    }
}

/// Picks the executable to run: the first candidate that exists. `found`
/// tells of each candidate, in their order, whether it exists.
pub fn choose_binary(found: &Vec<bool>) -> (choice: Option<usize>)
    ensures
        match choice {
            Some(i) => is_first_found(found@, i as int),
            None => forall|j: int| 0 <= j < found.len() ==> !found[j],
        },
{
    let mut i: usize = 0;
    while i < found.len()
        invariant
            i <= found.len(),
            forall|j: int| 0 <= j < i ==> !found[j],
        decreases found.len() - i,
    {
        if found[i] {
            return Some(i);
        }
        i += 1;
    }
    None
}

/// The mode that the chosen executable has to be given before it is run, if
/// it has to be given one.
pub fn executable_mode(mode: u32) -> (fixed: Option<u32>)
    ensures
        fixed == repaired_mode(mode),
{
    if mode & EXECUTE_BITS == 0 {
        Some(mode | EXECUTE_BITS)
    } else {
        None
    }
}

/// Decides what is launched: the first candidate that exists, or, where none
/// exists, that the launch ends as not found. `found` tells of each
/// candidate, in their order, whether it exists.
pub fn plan_launch(found: &Vec<bool>) -> (r: Result<usize, LaunchResult>)
    ensures
        match r {
            Ok(i) => is_first_found(found@, i as int),
            Err(e) => e@ == LaunchModel::NotFound && forall|j: int|
                0 <= j < found.len() ==> !found[j],
        },
{
    match choose_binary(found) {
        Some(i) => Ok(i),
        None => Err(LaunchResult::NotFound),
    }
}

/// The command by which an executable is run: the shell, told to run the one
/// command that is the executable's path.
pub fn shell_invocation(binary: &str) -> (command: Vec<String>)
    ensures
        command.len() == 3,
        command[0]@ == "bash"@,
        command[1]@ == "-c"@,
        command[2]@ == binary@,
{
    let mut command: Vec<String> = Vec::new();
    command.push(String::from_str("bash"));
    command.push(String::from_str("-c"));
    command.push(String::from_str(binary));
    command
}

/// The result of a launch whose executable was found: launched where the
/// process was created, else the error with its reason.
pub fn spawn_outcome(spawned: Result<(), String>) -> (result: LaunchResult)
    ensures
        result@ == match spawned {
            Ok(_) => LaunchModel::Launched,
            Err(reason) => LaunchModel::SpawnError(reason@),
        },
{
    match spawned {
        Ok(_) => LaunchResult::Launched,
        Err(reason) => LaunchResult::SpawnError(reason),
    }
}

impl LaunchResult {
    /// The status line for this result of launching the instance `name`.
    pub fn status(&self, name: &str) -> (line: String)
        ensures
            line@ == launch_message(self@, name@),
    {
        match self {
            LaunchResult::Launched => join2("Launched ", name),
            LaunchResult::NotFound => join2("Executable not found for ", name),
            LaunchResult::SpawnError(text) => join2("Launch error: ", text.as_str()),
        }
    }
}

} // verus!
