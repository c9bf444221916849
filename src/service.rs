//! The services the cluster can run, and the playbooks that deploy or delete
//! them.
use vstd::prelude::*;

use crate::playbook::{AnsibleAggregatePlaybook, AnsiblePlaybook};
use crate::settings::same_text;

verus! {

/// Name of the Kubernetes service.
pub const SERVICE_NAME_KUBERNETES: &'static str = "kubernetes";

/// Name of the Docker service.
pub const SERVICE_NAME_DOCKER: &'static str = "docker";

/// The playbooks that deploy and delete services.
#[derive(PartialEq, Eq, Structural, Clone, Copy, Debug)]
pub enum ServicePlaybook {
    /// Installs the container runtime and Kubernetes.
    InstallKubernetes,
    /// Brings up the Kubernetes cluster on the installed machines.
    SetupKubernetesCluster,
    UninstallKubernetes,
    InstallDocker,
    UninstallDocker,
}

/// Name of the file that holds playbook `p`.
pub open spec fn playbook_file_name(p: ServicePlaybook) -> Seq<char> {
    match p {
        ServicePlaybook::InstallKubernetes => "install-kubernetes.yaml"@,
        ServicePlaybook::SetupKubernetesCluster => "setup-kubernetes-cluster.yaml"@,
        ServicePlaybook::UninstallKubernetes => "uninstall-kubernetes.yaml"@,
        ServicePlaybook::InstallDocker => "install-docker.yaml"@,
        ServicePlaybook::UninstallDocker => "uninstall-docker.yaml"@,
    }
}

impl ServicePlaybook {
    /// Name of the file that holds the playbook.
    pub fn file_name(&self) -> (r: &'static str)
        ensures
            r@ == playbook_file_name(*self),
    {
        match self {
            ServicePlaybook::InstallKubernetes => "install-kubernetes.yaml",
            ServicePlaybook::SetupKubernetesCluster => "setup-kubernetes-cluster.yaml",
            ServicePlaybook::UninstallKubernetes => "uninstall-kubernetes.yaml",
            ServicePlaybook::InstallDocker => "install-docker.yaml",
            ServicePlaybook::UninstallDocker => "uninstall-docker.yaml",
        }
    }
}

/// What is asked of a service.
#[derive(PartialEq, Eq, Structural, Clone, Copy, Debug)]
pub enum ServiceAction {
    Deploy,
    Delete,
}

/// The playbooks that perform `action` on the service `name`, in the order
/// they must run, or `None` for a service that is not known.
pub open spec fn service_playbooks(action: ServiceAction, name: Seq<char>) -> Option<
    Seq<ServicePlaybook>,
> {
    if name == SERVICE_NAME_KUBERNETES@ {
        match action {
            ServiceAction::Deploy => Some(
                seq![ServicePlaybook::InstallKubernetes, ServicePlaybook::SetupKubernetesCluster],
            ),
            ServiceAction::Delete => Some(seq![ServicePlaybook::UninstallKubernetes]),
        }
    } else if name == SERVICE_NAME_DOCKER@ {
        match action {
            ServiceAction::Deploy => Some(seq![ServicePlaybook::InstallDocker]),
            ServiceAction::Delete => Some(seq![ServicePlaybook::UninstallDocker]),
        }
    } else {
        None
    }
}

/// Deploying Kubernetes takes two playbooks, every other action on a known
/// service one, and an unknown service none at all.
pub proof fn lemma_service_batch_sizes(action: ServiceAction, name: Seq<char>)
    ensures
        name == SERVICE_NAME_KUBERNETES@ && action == ServiceAction::Deploy ==> (service_playbooks(
            action,
            name,
        ) matches Some(ps) && ps.len() == 2),
        name == SERVICE_NAME_KUBERNETES@ && action == ServiceAction::Delete ==> (service_playbooks(
            action,
            name,
        ) matches Some(ps) && ps.len() == 1),
        name == SERVICE_NAME_DOCKER@ ==> (service_playbooks(action, name) matches Some(ps)
            && ps.len() == 1),
        name != SERVICE_NAME_KUBERNETES@ && name != SERVICE_NAME_DOCKER@ ==> service_playbooks(
            action,
            name,
        ) is None,
{
    reveal_strlit("kubernetes");
    reveal_strlit("docker");
    assert(SERVICE_NAME_KUBERNETES@[0] != SERVICE_NAME_DOCKER@[0]);
}

/// A request on a service that is not known.
#[derive(Debug)]
pub struct UnknownService {
    pub service: String,
    pub action: ServiceAction,
}

impl UnknownService {
    /// The message that reports the error.
    pub fn message(&self) -> (r: String)
        ensures
            r@ == "Unknown service '"@ + self.service@ + (match self.action {
                ServiceAction::Deploy => "', can't deploy"@,
                ServiceAction::Delete => "', can't delete"@,
            }),
    {
        let mut r = String::from_str("Unknown service '");
        r.append(self.service.as_str());
        match self.action {
            ServiceAction::Deploy => r.append("', can't deploy"),
            ServiceAction::Delete => r.append("', can't delete"),
        }
        r
    }
}

/// The playbooks that perform `action` on the service `service`, in the
/// order they must run; an unknown service is an error.
pub fn playbooks_for_service(action: ServiceAction, service: &str) -> (r: Result<
    Vec<ServicePlaybook>,
    UnknownService,
>)
    ensures
        match service_playbooks(action, service@) {
            Some(ps) => r matches Ok(v) && v@ == ps,
            None => r matches Err(e) && e.service@ == service@ && e.action == action,
        },
{
    let mut v: Vec<ServicePlaybook> = Vec::new();
    if same_text(service, SERVICE_NAME_KUBERNETES) {
        match action {
            ServiceAction::Deploy => {
                v.push(ServicePlaybook::InstallKubernetes);
                v.push(ServicePlaybook::SetupKubernetesCluster);
            },
            ServiceAction::Delete => v.push(ServicePlaybook::UninstallKubernetes),
        }
    } else if same_text(service, SERVICE_NAME_DOCKER) {
        match action {
            ServiceAction::Deploy => v.push(ServicePlaybook::InstallDocker),
            ServiceAction::Delete => v.push(ServicePlaybook::UninstallDocker),
        }
    } else {
        return Err(UnknownService { service: String::from_str(service), action });
    }
    assert(service_playbooks(action, service@) matches Some(ps) && v@ =~= ps);
    Ok(v)
}

/// The playbooks that deploy the service `service`.
pub fn deploy_service_playbooks(service: &str) -> (r: Result<Vec<ServicePlaybook>, UnknownService>)
    ensures
        match service_playbooks(ServiceAction::Deploy, service@) {
            Some(ps) => r matches Ok(v) && v@ == ps,
            None => r matches Err(e) && e.service@ == service@ && e.action == ServiceAction::Deploy,
        },
{
    playbooks_for_service(ServiceAction::Deploy, service)
}

/// The playbooks that delete the service `service`.
pub fn delete_service_playbooks(service: &str) -> (r: Result<Vec<ServicePlaybook>, UnknownService>)
    ensures
        match service_playbooks(ServiceAction::Delete, service@) {
            Some(ps) => r matches Ok(v) && v@ == ps,
            None => r matches Err(e) && e.service@ == service@ && e.action == ServiceAction::Delete,
        },
{
    playbooks_for_service(ServiceAction::Delete, service)
}

/// The texts of the service playbooks, supplied from outside the library.
pub struct PlaybookCatalog {
    pub install_kubernetes: String,
    pub setup_kubernetes_cluster: String,
    pub uninstall_kubernetes: String,
    pub install_docker: String,
    pub uninstall_docker: String,
}

/// The text that `catalog` holds for playbook `p`.
pub open spec fn catalog_text(catalog: PlaybookCatalog, p: ServicePlaybook) -> Seq<char> {
    match p {
        ServicePlaybook::InstallKubernetes => catalog.install_kubernetes@,
        ServicePlaybook::SetupKubernetesCluster => catalog.setup_kubernetes_cluster@,
        ServicePlaybook::UninstallKubernetes => catalog.uninstall_kubernetes@,
        ServicePlaybook::InstallDocker => catalog.install_docker@,
        ServicePlaybook::UninstallDocker => catalog.uninstall_docker@,
    }
}

impl PlaybookCatalog {
    /// Playbook `p`, with its text from the catalog.
    pub fn playbook(&self, p: ServicePlaybook) -> (r: AnsiblePlaybook)
        ensures
            r@ == catalog_text(*self, p),
    {
        let text = match p {
            ServicePlaybook::InstallKubernetes => self.install_kubernetes.as_str(),
            ServicePlaybook::SetupKubernetesCluster => self.setup_kubernetes_cluster.as_str(),
            ServicePlaybook::UninstallKubernetes => self.uninstall_kubernetes.as_str(),
            ServicePlaybook::InstallDocker => self.install_docker.as_str(),
            ServicePlaybook::UninstallDocker => self.uninstall_docker.as_str(),
        };
        AnsiblePlaybook::load(text)
    }

    /// A batch of the playbooks `ps`, in their order.
    pub fn batch(&self, ps: &Vec<ServicePlaybook>) -> (r: AnsibleAggregatePlaybook)
        ensures
            r@ == Seq::new(ps@.len(), |i: int| catalog_text(*self, ps@[i])),
    {
        let mut b = AnsibleAggregatePlaybook::new();
        let mut i: usize = 0;
        while i < ps.len()
            invariant
                i <= ps@.len(),
                b@ == Seq::new(i as nat, |j: int| catalog_text(*self, ps@[j])),
            decreases ps@.len() - i,
        {
            b.add_playbook(self.playbook(ps[i]));
            i = i + 1;
            assert(b@ =~= Seq::new(i as nat, |j: int| catalog_text(*self, ps@[j])));
        }
        b
    }
}

impl AnsiblePlaybook {
    /// Every service playbook of `catalog`: Docker's installation, then
    /// Kubernetes' installation and cluster setup, then the removal of Docker
    /// and of Kubernetes.
    pub fn get_available_playbooks(catalog: &PlaybookCatalog) -> (r: Vec<AnsiblePlaybook>)
        ensures
            r@.len() == 5,
            r@[0]@ == catalog.install_docker@,
            r@[1]@ == catalog.install_kubernetes@,
            r@[2]@ == catalog.setup_kubernetes_cluster@,
            r@[3]@ == catalog.uninstall_docker@,
            r@[4]@ == catalog.uninstall_kubernetes@,
    {
        let mut v: Vec<AnsiblePlaybook> = Vec::new();
        v.push(catalog.playbook(ServicePlaybook::InstallDocker));
        v.push(catalog.playbook(ServicePlaybook::InstallKubernetes));
        v.push(catalog.playbook(ServicePlaybook::SetupKubernetesCluster));
        v.push(catalog.playbook(ServicePlaybook::UninstallDocker));
        v.push(catalog.playbook(ServicePlaybook::UninstallKubernetes));
        v
    }
}

} // verus!
