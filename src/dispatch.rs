//! From a request to what has to run.
use vstd::prelude::*;

use crate::ansible::{adhoc_arguments, AdhocView, AnsibleCommand, ModuleView};
use crate::playbook::BatchShape;
use crate::service::{
    delete_service_playbooks, deploy_service_playbooks, service_playbooks, ServiceAction,
    ServicePlaybook, UnknownService,
};
use crate::settings::{
    clone_optional, opt_view, ClusterSettings, InventorySubCommand, ServiceSubCommand, SubCommand,
};

verus! {

/// Module that shuts the machines down.
pub const SHUTDOWN_MODULE: &'static str = "community.general.shutdown";

/// What has to run for a request.
#[derive(Debug)]
pub enum Plan {
    /// One ad-hoc command, run by `ansible`.
    Adhoc(AnsibleCommand),
    /// Service playbooks, run by `ansible-playbook` in the given shape.
    Playbooks { playbooks: Vec<ServicePlaybook>, shape: BatchShape },
    /// The listing of the inventory by `ansible-inventory`.
    ListInventory,
}

/// An ad-hoc command of module `m` without parameters.
pub open spec fn simple_command(m: Seq<char>, needs_become: bool, hp: Option<Seq<char>>) -> AdhocView {
    AdhocView {
        module: ModuleView::Named(m),
        needs_become,
        host_pattern: hp,
        parameters: Seq::empty(),
    }
}

/// A raw command line, run from `chdir` when one is given.
pub open spec fn run_command_view(
    line: Seq<char>,
    needs_become: bool,
    hp: Option<Seq<char>>,
    chdir: Option<Seq<char>>,
) -> AdhocView {
    AdhocView {
        module: ModuleView::RawCommand(line),
        needs_become,
        host_pattern: hp,
        parameters: match chdir {
            Some(d) => seq![("chdir"@, d)],
            None => Seq::empty(),
        },
    }
}

/// A copy or fetch of `src` to `dest` by module `m`.
pub open spec fn transfer_view(m: Seq<char>, hp: Option<Seq<char>>, src: Seq<char>, dest: Seq<char>) -> AdhocView {
    AdhocView {
        module: ModuleView::Named(m),
        needs_become: false,
        host_pattern: hp,
        parameters: seq![("src"@, src), ("dest"@, dest)],
    }
}

/// The package update on the hosts of `hp`.
pub open spec fn update_view(hp: Option<Seq<char>>) -> AdhocView {
    AdhocView {
        module: ModuleView::Named("apt"@),
        needs_become: true,
        host_pattern: hp,
        parameters: seq![
            ("update_cache"@, "yes"@),
            ("autoremove"@, "yes"@),
            ("force_apt_get"@, "yes"@),
            ("upgrade"@, "yes"@),
        ],
    }
}

/// `r` is the ad-hoc plan of command `c`.
pub open spec fn is_adhoc(r: Result<Plan, UnknownService>, c: AdhocView) -> bool {
    r matches Ok(Plan::Adhoc(cmd)) && cmd@ == c
}

/// `r` is what the service `name` calls for under `action`: its playbooks, run
/// in sequence, or the error that the service is unknown.
pub open spec fn is_service_plan(
    r: Result<Plan, UnknownService>,
    action: ServiceAction,
    name: Seq<char>,
) -> bool {
    match service_playbooks(action, name) {
        Some(ps) => r matches Ok(Plan::Playbooks { playbooks, shape }) && playbooks@ == ps && shape
            == BatchShape::Sequential,
        None => r matches Err(e) && e.service@ == name && e.action == action,
    }
}

impl ClusterSettings {
    /// What has to run for the subcommand of these settings.
    pub fn plan(&self) -> (r: Result<Plan, UnknownService>)
        ensures
            ({
                let hp = opt_view(self.host_pattern);
                match self.subcommand {
                    SubCommand::Copy(cc) => is_adhoc(r, transfer_view("copy"@, hp, cc.src@, cc.dest@)),
                    SubCommand::Fetch(cc) => is_adhoc(r, transfer_view("fetch"@, hp, cc.src@, cc.dest@)),
                    SubCommand::Inventory(_) => r matches Ok(Plan::ListInventory),
                    SubCommand::Ping(_) => is_adhoc(r, simple_command("ping"@, false, hp)),
                    SubCommand::Reboot(_) => is_adhoc(r, simple_command("reboot"@, true, hp)),
                    SubCommand::Run(rc) => is_adhoc(
                        r,
                        run_command_view(rc.command@, rc.needs_become, hp, opt_view(rc.chdir)),
                    ),
                    SubCommand::Service(sc) => match sc.subcommand {
                        ServiceSubCommand::Deploy(o) => is_service_plan(r, ServiceAction::Deploy, o.service@),
                        ServiceSubCommand::Delete(o) => is_service_plan(r, ServiceAction::Delete, o.service@),
                    },
                    SubCommand::Shutdown(_) => is_adhoc(r, simple_command(SHUTDOWN_MODULE@, true, hp)),
                    SubCommand::Ssh(_) => is_adhoc(r, simple_command("ssh"@, false, hp)),
                    SubCommand::Update(_) => is_adhoc(r, update_view(hp)),
                    SubCommand::Uptime(_) => is_adhoc(r, run_command_view("uptime"@, false, hp, None)),
                }
            }),
    {
        let hp = clone_optional(&self.host_pattern);
        match &self.subcommand {
            SubCommand::Copy(cc) => Ok(
                Plan::Adhoc(
                    AnsibleCommand::new_copy_command(false, hp, cc.src.as_str(), cc.dest.as_str()),
                ),
            ),
            SubCommand::Fetch(cc) => Ok(
                Plan::Adhoc(
                    AnsibleCommand::new_fetch_command(false, hp, cc.src.as_str(), cc.dest.as_str()),
                ),
            ),
            SubCommand::Inventory(ic) => match &ic.subcommand {
                InventorySubCommand::List(_) => Ok(Plan::ListInventory),
            },
            SubCommand::Ping(_) => Ok(Plan::Adhoc(AnsibleCommand::new("ping", false, hp))),
            SubCommand::Reboot(_) => Ok(Plan::Adhoc(AnsibleCommand::new("reboot", true, hp))),
            SubCommand::Run(rc) => Ok(
                Plan::Adhoc(
                    AnsibleCommand::new_run_command(
                        rc.command.as_str(),
                        rc.needs_become,
                        hp,
                        clone_optional(&rc.chdir),
                    ),
                ),
            ),
            SubCommand::Service(sc) => {
                let found = match &sc.subcommand {
                    ServiceSubCommand::Deploy(o) => deploy_service_playbooks(o.service.as_str()),
                    ServiceSubCommand::Delete(o) => delete_service_playbooks(o.service.as_str()),
                };
                match found {
                    Ok(playbooks) => Ok(Plan::Playbooks { playbooks, shape: BatchShape::Sequential }),
                    Err(e) => Err(e),
                }
            },
            SubCommand::Shutdown(_) => Ok(Plan::Adhoc(AnsibleCommand::new(SHUTDOWN_MODULE, true, hp))),
            SubCommand::Ssh(_) => Ok(Plan::Adhoc(AnsibleCommand::new("ssh", false, hp))),
            SubCommand::Update(_) => Ok(Plan::Adhoc(AnsibleCommand::new_update_command(hp))),
            SubCommand::Uptime(_) => Ok(
                Plan::Adhoc(AnsibleCommand::new_run_command("uptime", false, hp, None)),
            ),
        }
    }
}

/// The arguments of `ansible` that update the hosts of `settings`.
pub fn run_update(settings: &ClusterSettings) -> (r: Vec<String>)
    ensures
        r.deep_view() == adhoc_arguments(
            settings.verbose,
            opt_view(settings.inventory),
            update_view(opt_view(settings.host_pattern)),
        ),
{
    let c = AnsibleCommand::new_update_command(clone_optional(&settings.host_pattern));
    c.arguments(settings)
}

} // verus!
