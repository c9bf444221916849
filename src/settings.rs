//! The request handed to the library: global options and one subcommand.
use vstd::prelude::*;

verus! {

/// An optional string as the contracts see it.
pub open spec fn opt_view(o: Option<String>) -> Option<Seq<char>> {
    match o {
        Some(s) => Some(s@),
        None => None,
    }
}

/// A copy of an optional string.
pub fn clone_optional(o: &Option<String>) -> (r: Option<String>)
    ensures
        r == *o,
{
    match o {
        Some(s) => Some(s.clone()),
        None => None,
    }
}

/// Whether two strings hold the same characters.
pub fn same_text(a: &str, b: &str) -> (r: bool)
    ensures
        r == (a@ == b@),
{
    String::from_str(a) == String::from_str(b)
}

/// Global options together with the subcommand to perform.
#[derive(Debug)]
pub struct ClusterSettings {
    /// Host inventory file, in a format Ansible reads.
    pub inventory: Option<String>,
    /// How many times the verbosity option was given.
    pub verbose: u64,
    /// Host pattern; `None` means every managed host.
    pub host_pattern: Option<String>,
    pub subcommand: SubCommand,
}

/// What to do on the cluster.
#[derive(Debug)]
pub enum SubCommand {
    /// Copy local files to the machines.
    Copy(CopyCommand),
    /// Fetch files from the machines.
    Fetch(CopyCommand),
    /// Operate on the configured inventory.
    Inventory(InventoryCommand),
    /// Check that every machine is alive and reachable.
    Ping(GenericCommand),
    /// Reboot the machines.
    Reboot(GenericCommand),
    /// Run a command on the machines.
    Run(RunCommand),
    /// Deploy or delete a service.
    Service(ServiceCommand),
    /// Shut the machines down.
    Shutdown(GenericCommand),
    /// Open a secure shell connection to a machine.
    Ssh(GenericCommand),
    /// Update the operating system and the installed packages.
    Update(GenericCommand),
    /// Show how long the machines have been running.
    Uptime(GenericCommand),
}

/// A subcommand without options.
#[derive(Debug)]
pub struct GenericCommand;

/// Source and destination of a copy or a fetch.
#[derive(Debug)]
pub struct CopyCommand {
    pub src: String,
    pub dest: String,
}

#[derive(Debug)]
pub struct InventoryCommand {
    pub subcommand: InventorySubCommand,
}

#[derive(Debug)]
pub enum InventorySubCommand {
    /// List every configured host.
    List(InventoryCommandOptions),
}

#[derive(Debug)]
pub struct InventoryCommandOptions;

/// A shell command to run on the machines.
#[derive(Debug)]
pub struct RunCommand {
    pub command: String,
    /// The command is run with elevated privileges.
    pub needs_become: bool,
    /// Directory on the machines to change to before running the command.
    pub chdir: Option<String>,
}

#[derive(Debug)]
pub struct ServiceCommand {
    pub subcommand: ServiceSubCommand,
}

#[derive(Debug)]
pub enum ServiceSubCommand {
    Deploy(ServiceCommandOptions),
    Delete(ServiceCommandOptions),
}

/// Names the service to operate on (`kubernetes`, `docker`, ...).
#[derive(Debug)]
pub struct ServiceCommandOptions {
    pub service: String,
}

} // verus!
