use clusterctl::dispatch::Plan;
use clusterctl::playbook::{AnsiblePlaybook, BatchShape};
use clusterctl::service::{
    delete_service_playbooks, deploy_service_playbooks, PlaybookCatalog, ServiceAction, ServicePlaybook,
};
use clusterctl::settings::{ClusterSettings, ServiceCommand, ServiceCommandOptions, ServiceSubCommand, SubCommand};

fn service_settings(deploy: bool, name: &str) -> ClusterSettings {
    let options = ServiceCommandOptions { service: name.to_string() };
    let subcommand = if deploy { ServiceSubCommand::Deploy(options) } else { ServiceSubCommand::Delete(options) };
    ClusterSettings {
        inventory: None,
        verbose: 0,
        host_pattern: None,
        subcommand: SubCommand::Service(ServiceCommand { subcommand }),
    }
}

fn catalog() -> PlaybookCatalog {
    PlaybookCatalog {
        install_kubernetes: "install k8s".to_string(),
        setup_kubernetes_cluster: "setup cluster".to_string(),
        uninstall_kubernetes: "uninstall k8s".to_string(),
        install_docker: "install docker".to_string(),
        uninstall_docker: "uninstall docker".to_string(),
    }
}

#[test]
fn kubernetes_deploy_takes_two_playbooks() {
    let ps = deploy_service_playbooks("kubernetes").unwrap();
    assert_eq!(ps, vec![ServicePlaybook::InstallKubernetes, ServicePlaybook::SetupKubernetesCluster]);
}

#[test]
fn other_known_actions_take_one_playbook() {
    assert_eq!(delete_service_playbooks("kubernetes").unwrap(), vec![ServicePlaybook::UninstallKubernetes]);
    assert_eq!(deploy_service_playbooks("docker").unwrap(), vec![ServicePlaybook::InstallDocker]);
    assert_eq!(delete_service_playbooks("docker").unwrap(), vec![ServicePlaybook::UninstallDocker]);
}

#[test]
fn unknown_services_are_rejected() {
    let e = deploy_service_playbooks("Kubernetes").unwrap_err();
    assert_eq!(e.service, "Kubernetes");
    assert_eq!(e.action, ServiceAction::Deploy);
    let e = delete_service_playbooks("").unwrap_err();
    assert_eq!(e.message(), "Unknown service '', can't delete");
}

#[test]
fn unknown_service_deploy_plans_nothing() {
    match service_settings(true, "unknown-svc").plan() {
        Err(e) => {
            assert_eq!(e.service, "unknown-svc");
            assert_eq!(e.message(), "Unknown service 'unknown-svc', can't deploy");
        },
        Ok(p) => panic!("planned {:?}", p),
    }
}

#[test]
fn service_plans_run_in_sequence() {
    match service_settings(true, "kubernetes").plan() {
        Ok(Plan::Playbooks { playbooks, shape }) => {
            assert_eq!(shape, BatchShape::Sequential);
            assert_eq!(playbooks, vec![ServicePlaybook::InstallKubernetes, ServicePlaybook::SetupKubernetesCluster]);
        },
        other => panic!("unexpected plan {:?}", other),
    }
    match service_settings(false, "docker").plan() {
        Ok(Plan::Playbooks { playbooks, .. }) => assert_eq!(playbooks, vec![ServicePlaybook::UninstallDocker]),
        other => panic!("unexpected plan {:?}", other),
    }
}

#[test]
fn catalog_builds_batches_in_order() {
    let c = catalog();
    let batch = c.batch(&vec![ServicePlaybook::InstallKubernetes, ServicePlaybook::SetupKubernetesCluster]);
    assert_eq!(batch.len(), 2);
    assert_eq!(batch.contents(), vec!["install k8s".to_string(), "setup cluster".to_string()]);
}

#[test]
fn available_playbooks() {
    let all = AnsiblePlaybook::get_available_playbooks(&catalog());
    let texts: Vec<&str> = all.iter().map(|p| p.contents()).collect();
    assert_eq!(texts, vec!["install docker", "install k8s", "setup cluster", "uninstall docker", "uninstall k8s"]);
}

#[test]
fn playbook_file_names() {
    assert_eq!(ServicePlaybook::InstallKubernetes.file_name(), "install-kubernetes.yaml");
    assert_eq!(ServicePlaybook::SetupKubernetesCluster.file_name(), "setup-kubernetes-cluster.yaml");
    assert_eq!(ServicePlaybook::UninstallDocker.file_name(), "uninstall-docker.yaml");
}
