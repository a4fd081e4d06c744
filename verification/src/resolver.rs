//! The search for a helper script: beside the running executable first, then
//! in the current working directory.

use vstd::prelude::*;

verus! {

/// A script that the application hands to the Python interpreter.
#[derive(Clone, Copy, Debug, PartialEq, Eq, Structural)]
pub enum Script {
    /// The entry point of the backend service.
    Service,
    /// The command-line helper that performs the authorization exchange.
    OAuthHelper,
}

impl Script {
    /// The file name under which the script is searched.
    pub open spec fn file_name_text(self) -> Seq<char> {
        match self {
            Script::Service => "main.py"@,
            Script::OAuthHelper => "iflow_oauth_cli.py"@,
        }
    }

    /// The file name under which the script is searched.
    pub fn file_name(self) -> (name: &'static str)
        ensures
            name@ == self.file_name_text(),
    {
        match self {
            Script::Service => "main.py",
            Script::OAuthHelper => "iflow_oauth_cli.py",
        }
    }
}

/// A directory in which a script may lie.
#[derive(Clone, Copy, Debug, PartialEq, Eq, Structural)]
pub enum Location {
    /// The directory that holds the running executable.
    BesideExecutable,
    /// The current working directory of the process.
    WorkingDirectory,
}

/// What the caller found when it looked for the script in one location.
#[derive(Clone, Copy, Debug, PartialEq, Eq, Structural)]
pub enum Probe {
    /// The script is there.
    Exists,
    /// The directory is known and the script is not in it.
    Missing,
    /// The operating system could not name the directory.
    LookupFailed,
    /// The executable's path has no parent directory.
    NoDirectory,
}

/// The state of a search after one probe.
#[derive(Clone, Copy, Debug, PartialEq, Eq, Structural)]
pub enum Search {
    /// Look in this location next.
    Look(Location),
    /// The script was found in this location.
    Use(Location),
    /// No location holds the script.
    NotFound,
    /// The search ended because a directory could not be named.
    LookupFailed,
    /// The search ended because the executable has no parent directory.
    NoDirectory,
}

/// The location that every search starts with.
pub open spec fn first_location() -> Location {
    Location::BesideExecutable
}

/// How a search goes on after `location` answered `probe`.
pub open spec fn search_step(location: Location, probe: Probe) -> Search {
    match probe {
        Probe::Exists => Search::Use(location),
        Probe::Missing => match location {
            Location::BesideExecutable => Search::Look(Location::WorkingDirectory),
            Location::WorkingDirectory => Search::NotFound,
        },
        Probe::LookupFailed => Search::LookupFailed,
        Probe::NoDirectory => Search::NoDirectory,
    }
}

/// The end of a whole search, where `beside` is what the executable's
/// directory answers and `working` what the working directory would answer
/// if it were asked.
pub open spec fn search_result(beside: Probe, working: Probe) -> Search {
    match search_step(first_location(), beside) {
        Search::Look(next) => search_step(next, working),
        done => done,
    }
}

/// The location that every search starts with.
pub fn begin_search() -> (location: Location)
    ensures
        location == first_location(),
{
    Location::BesideExecutable
}

/// Decides how a search goes on after `location` answered `probe`.
pub fn continue_search(location: Location, probe: Probe) -> (search: Search)
    ensures
        search == search_step(location, probe),
{
    match probe {
        Probe::Exists => Search::Use(location),
        Probe::Missing => match location {
            Location::BesideExecutable => Search::Look(Location::WorkingDirectory),
            Location::WorkingDirectory => Search::NotFound,
        },
        Probe::LookupFailed => Search::LookupFailed,
        Probe::NoDirectory => Search::NoDirectory,
    }
}

/// A search ends after at most two probes, takes the first location that
/// holds the script, and asks the working directory only when the
/// executable's directory is known not to hold it.
pub proof fn lemma_search_takes_first_match(beside: Probe, working: Probe)
    ensures
        !(search_result(beside, working) is Look),
        beside == Probe::Exists ==> search_result(beside, working) == Search::Use(
            Location::BesideExecutable,
        ),
        beside != Probe::Missing ==> search_result(beside, working) == search_step(
            first_location(),
            beside,
        ),
        beside == Probe::Missing && working == Probe::Exists ==> search_result(beside, working)
            == Search::Use(Location::WorkingDirectory),
        beside == Probe::Missing && working == Probe::Missing ==> search_result(beside, working)
            == Search::NotFound,
        search_result(beside, working) is Use <==> (beside == Probe::Exists || (beside
            == Probe::Missing && working == Probe::Exists)),
{
}

} // verus!
