//! Command-line settings, as plain values, and what the rest of the program
//! asks of them.
use vstd::prelude::*;

verus! {

/// The settings given on the command line.
#[derive(Debug)]
pub struct Args {
    /// Create every device that discovery finds, at startup.
    pub enable_auto_create: bool,
    /// Delete the settings file before starting.
    pub reset: bool,
    /// Address of the REST server, as `<IP>:<PORT>`.
    pub rest_server: String,
    /// Log everything up to debug level.
    pub verbose: bool,
    /// Where log files go.
    pub log_path: Option<String>,
    /// Log everything up to trace level to the log file.
    pub enable_tracing_level_log_file: bool,
    /// Log only this crate's events.
    pub log_current_crate_only: bool,
    /// Turn on the Tracy profiler integration.
    pub enable_tracy: bool,
}

/// The settings the program runs with.
#[derive(Debug)]
pub struct Manager {
    pub clap_matches: Args,
}

impl Manager {
    pub fn new(args: Args) -> (r: Manager)
        ensures
            r.clap_matches == args,
    {
        Manager { clap_matches: args }
    }
}

/// Takes the parsed command line as the settings of the program.
pub fn init(args: Args) -> (r: Manager)
    ensures
        r.clap_matches == args,
{
    Manager::new(args)
}

/// Whether the verbosity flag was given.
pub fn is_verbose(m: &Manager) -> (r: bool)
    ensures
        r == m.clap_matches.verbose,
{
    m.clap_matches.verbose
}

pub fn is_tracing(m: &Manager) -> (r: bool)
    ensures
        r == m.clap_matches.enable_tracing_level_log_file,
{
    m.clap_matches.enable_tracing_level_log_file
}

pub fn is_tracy(m: &Manager) -> (r: bool)
    ensures
        r == m.clap_matches.enable_tracy,
{
    m.clap_matches.enable_tracy
}

pub fn log_current_crate_only(m: &Manager) -> (r: bool)
    ensures
        r == m.clap_matches.log_current_crate_only,
{
    m.clap_matches.log_current_crate_only
}

pub fn is_enable_auto_create(m: &Manager) -> (r: bool)
    ensures
        r == m.clap_matches.enable_auto_create,
{
    m.clap_matches.enable_auto_create
}

/// The address of the REST server.
pub fn server_address(m: &Manager) -> (r: String)
    ensures
        r == m.clap_matches.rest_server,
{
    m.clap_matches.rest_server.clone()
}

} // verus!
