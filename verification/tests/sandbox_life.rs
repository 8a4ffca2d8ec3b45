use browser_sandbox::error::SandboxError;
use browser_sandbox::sandbox::catalog::{
    access_path, browser_url, catalog_entry, list_browsers, list_deployments, start_browser,
    BrowserInfo, BrowserRequest,
};
use browser_sandbox::sandbox::deploy::{
    cleanup, deploy, deploy_next, DeployAction, DeployState, DeployStep,
};
use browser_sandbox::sandbox::ingress::{
    get_loadbalancer_ip, ingress_service, IngressEntry, LoadBalancerStatus, ServiceStatus,
};
use browser_sandbox::sandbox::naming::{
    deployment_name, is_sandbox, namespace_name, owner_of_namespace, service_name, SandboxSession,
};
use browser_sandbox::sandbox::polling::{
    poll_next, wait_for_loadbalancer, PollAction, PollState, POLL_INTERVAL_SECONDS,
};
use browser_sandbox::sandbox::resources::{
    namespace_for, service_for, workload_for, EnvVar, Resource, BROWSER_PORT,
};

#[test]
fn names_are_derived_from_the_owner() {
    assert_eq!(namespace_name("carol"), "carol-browser");
    assert_eq!(deployment_name("carol"), "carol-browser");
    assert_eq!(service_name("carol"), "carol-service");
    assert_eq!(namespace_name(""), "-browser");
    assert_eq!(cleanup("carol"), "carol-browser");
    assert_eq!(ingress_service("carol"), ("carol-browser".to_string(), "carol-service".to_string()));
}

#[test]
fn session_names_follow_its_owner() {
    let mut session = SandboxSession::new("alice");
    assert_eq!(session.owner, "alice");
    assert_eq!(session.ingress_address, None);
    assert_eq!(session.namespace(), "alice-browser");
    assert_eq!(session.deployment_name(), "alice-browser");
    assert_eq!(session.service_name(), "alice-service");
    session.set_ingress_address("10.0.0.7");
    assert_eq!(session.ingress_address, Some("10.0.0.7".to_string()));
    assert_eq!(session.owner, "alice");
}

#[test]
fn sandbox_namespaces_are_recognised() {
    assert!(is_sandbox("carol-browser"));
    assert!(is_sandbox("-browser"));
    assert!(!is_sandbox("kube-browser"));
    assert!(!is_sandbox("kube-system"));
    assert!(!is_sandbox("kube-x-browser"));
    assert!(!is_sandbox("default"));
    assert!(!is_sandbox("carol-browser-old"));
    assert!(is_sandbox("kubernetes-browser"));
}

#[test]
fn owner_is_read_from_the_namespace() {
    assert_eq!(owner_of_namespace("carol-browser"), "carol");
    assert_eq!(owner_of_namespace("carol-browser-browser"), "carol");
    assert_eq!(owner_of_namespace("carol"), "carol");
    assert_eq!(owner_of_namespace(namespace_name("dave").as_str()), "dave");
}

#[test]
fn listing_keeps_sandboxes_in_cluster_order() {
    let names = vec![
        Some("default".to_string()),
        Some("zoe-browser".to_string()),
        None,
        Some("kube-system".to_string()),
        Some("kube-browser".to_string()),
        Some("adam-browser".to_string()),
        Some("zoe-browser".to_string()),
    ];
    assert_eq!(list_deployments(&names), vec!["zoe-browser", "adam-browser", "zoe-browser"]);
    assert_eq!(list_deployments(&vec![]), Vec::<String>::new());
}

#[test]
fn system_namespace_is_never_listed() {
    let names = vec![Some("kube-browser".to_string())];
    assert_eq!(list_deployments(&names), Vec::<String>::new());
    let more = vec![
        Some("kube-browser".to_string()),
        Some("carol-browser".to_string()),
        Some("kube-browser".to_string()),
    ];
    assert!(!list_deployments(&more).contains(&"kube-browser".to_string()));
}

#[test]
fn workload_is_described_in_full() {
    let workload = workload_for("carol");
    assert_eq!(workload.name, "carol-browser");
    assert_eq!(workload.namespace, "carol-browser");
    assert_eq!(workload.app_label, "carol");
    assert_eq!(workload.replicas, 1);
    assert_eq!(workload.container_name, "chromium");
    assert_eq!(workload.image, "dilanek/docker_chromiun:test");
    assert_eq!(
        workload.env,
        vec![
            EnvVar { name: "PUID".to_string(), value: "1000".to_string() },
            EnvVar { name: "PGID".to_string(), value: "1000".to_string() },
            EnvVar { name: "TZ".to_string(), value: "Etc/UTC".to_string() },
            EnvVar {
                name: "CHROME_CLI".to_string(),
                value: "https://isen-mediterranee.fr/en/".to_string(),
            },
        ]
    );
    assert_eq!(workload.container_port, 3000);
    assert_eq!(workload.protocol, "TCP");
    assert_eq!(workload.seccomp_profile, "Unconfined");
    assert_eq!(workload.volume_name, "shm");
    assert_eq!(workload.mount_path, "/dev/shm");
    assert_eq!(workload.volume_medium, "Memory");
    assert_eq!(workload.volume_size_limit, "1Gi");
    assert_eq!(workload.memory_request, "512Mi");
    assert_eq!(workload.memory_limit, "1Gi");
}

#[test]
fn service_and_namespace_are_described_in_full() {
    let service = service_for("carol");
    assert_eq!(service.name, "carol-service");
    assert_eq!(service.namespace, "carol-browser");
    assert_eq!(service.app_label, "carol");
    assert_eq!(service.port, BROWSER_PORT);
    assert_eq!(service.target_port, 3000);
    assert_eq!(service.protocol, "TCP");
    assert_eq!(service.service_type, "LoadBalancer");
    assert_eq!(namespace_for("carol").name, "carol-browser");
}

#[test]
fn deployment_creates_namespace_workload_service_in_order() {
    let (state, action) = deploy("carol");
    assert_eq!(state, DeployState::Creating(DeployStep::Namespace));
    assert_eq!(action, DeployAction::Create(Resource::Namespace(namespace_for("carol"))));
    let (state, action) = deploy_next("carol", state, Ok(()));
    assert_eq!(state, DeployState::Creating(DeployStep::Workload));
    assert_eq!(action, DeployAction::Create(Resource::Workload(workload_for("carol"))));
    let (state, action) = deploy_next("carol", state, Ok(()));
    assert_eq!(state, DeployState::Creating(DeployStep::Service));
    assert_eq!(action, DeployAction::Create(Resource::Service(service_for("carol"))));
    let (state, action) = deploy_next("carol", state, Ok(()));
    assert_eq!(state, DeployState::Deployed);
    assert_eq!(action, DeployAction::Finish(Ok(())));
    let (state, action) = deploy_next("carol", state, Ok(()));
    assert_eq!(state, DeployState::Deployed);
    assert_eq!(action, DeployAction::Finish(Ok(())));
}

#[test]
fn failed_creation_ends_the_deployment_with_its_error() {
    let duplicate = SandboxError::AlreadyExists("namespaces \"carol-browser\"".to_string());
    let (state, _) = deploy("carol");
    let (state, action) = deploy_next("carol", state, Err(duplicate.clone()));
    assert_eq!(state, DeployState::Failed(duplicate.clone()));
    assert_eq!(action, DeployAction::Finish(Err(duplicate.clone())));
    let (state, action) = deploy_next("carol", state, Ok(()));
    assert_eq!(state, DeployState::Failed(duplicate.clone()));
    assert_eq!(action, DeployAction::Finish(Err(duplicate)));
}

#[test]
fn failure_at_the_workload_leaves_no_further_creation() {
    let refused = SandboxError::Upstream("quota exceeded".to_string());
    let (state, _) = deploy("carol");
    let (state, _) = deploy_next("carol", state, Ok(()));
    let (state, action) = deploy_next("carol", state, Err(refused.clone()));
    assert_eq!(state, DeployState::Failed(refused.clone()));
    assert_eq!(action, DeployAction::Finish(Err(refused)));
}

fn run_deploy(owner: &str, cluster: &mut Vec<Option<String>>) -> Result<(), SandboxError> {
    let (mut state, mut action) = deploy(owner);
    loop {
        let outcome = match action {
            DeployAction::Finish(result) => return result,
            DeployAction::Create(Resource::Namespace(spec)) => {
                if cluster.contains(&Some(spec.name.clone())) {
                    Err(SandboxError::from_status(409, spec.name))
                } else {
                    cluster.push(Some(spec.name));
                    Ok(())
                }
            }
            DeployAction::Create(_) => Ok(()),
        };
        let next = deploy_next(owner, state, outcome);
        state = next.0;
        action = next.1;
    }
}

#[test]
fn session_lifecycle() {
    let mut cluster = vec![Some("default".to_string()), Some("kube-system".to_string())];
    assert_eq!(run_deploy("carol", &mut cluster), Ok(()));
    assert!(list_deployments(&cluster).contains(&"carol-browser".to_string()));
    let doomed = cleanup("carol");
    cluster.retain(|name| name.as_deref() != Some(doomed.as_str()));
    assert!(!list_deployments(&cluster).contains(&"carol-browser".to_string()));
}

#[test]
fn second_deployment_of_an_owner_fails_as_a_duplicate() {
    let mut cluster = vec![];
    assert_eq!(run_deploy("carol", &mut cluster), Ok(()));
    assert_eq!(
        run_deploy("carol", &mut cluster),
        Err(SandboxError::AlreadyExists("carol-browser".to_string()))
    );
    assert_eq!(run_deploy("bob", &mut cluster), Ok(()));
    assert_eq!(list_deployments(&cluster), vec!["carol-browser", "bob-browser"]);
}

fn status(entries: Option<Vec<Option<&str>>>) -> Option<ServiceStatus> {
    Some(ServiceStatus {
        load_balancer: Some(LoadBalancerStatus {
            ingress: entries.map(|list| {
                list.into_iter().map(|ip| IngressEntry { ip: ip.map(|i| i.to_string()) }).collect()
            }),
        }),
    })
}

fn not_found() -> SandboxError {
    SandboxError::NotFound("No LoadBalancer IP found".to_string())
}

#[test]
fn address_is_the_first_ingress_entry() {
    assert_eq!(get_loadbalancer_ip(&status(Some(vec![Some("10.0.0.7")]))), Ok("10.0.0.7".to_string()));
    assert_eq!(
        get_loadbalancer_ip(&status(Some(vec![Some("10.0.0.7"), Some("10.0.0.8")]))),
        Ok("10.0.0.7".to_string())
    );
}

#[test]
fn every_lack_of_an_address_is_not_found() {
    assert_eq!(get_loadbalancer_ip(&None), Err(not_found()));
    assert_eq!(get_loadbalancer_ip(&Some(ServiceStatus { load_balancer: None })), Err(not_found()));
    assert_eq!(get_loadbalancer_ip(&status(None)), Err(not_found()));
    assert_eq!(get_loadbalancer_ip(&status(Some(vec![]))), Err(not_found()));
    assert_eq!(get_loadbalancer_ip(&status(Some(vec![None]))), Err(not_found()));
    assert_eq!(get_loadbalancer_ip(&status(Some(vec![None, Some("10.0.0.8")]))), Err(not_found()));
}

fn run_poll(
    max_attempts: u32,
    answers: Vec<Result<String, SandboxError>>,
) -> (Result<String, SandboxError>, u32, Vec<u64>) {
    let (mut state, mut action) = wait_for_loadbalancer(max_attempts);
    let mut answers = answers.into_iter();
    let mut lookups = 0;
    let mut sleeps = Vec::new();
    loop {
        match action {
            PollAction::Finish(result) => return (result, lookups, sleeps),
            PollAction::Lookup => {}
            PollAction::SleepThenLookup(seconds) => sleeps.push(seconds),
        }
        lookups += 1;
        let answer = answers.next().unwrap_or(Err(not_found()));
        let next = poll_next(state, max_attempts, answer);
        state = next.0;
        action = next.1;
    }
}

#[test]
fn bounded_polling() {
    let (result, lookups, sleeps) = run_poll(3, vec![]);
    assert_eq!(result, Err(SandboxError::Timeout));
    assert_eq!(lookups, 3);
    assert_eq!(sleeps, vec![5, 5]);
    assert_eq!(POLL_INTERVAL_SECONDS, 5);
}

#[test]
fn polling_with_one_attempt_never_sleeps() {
    let (result, lookups, sleeps) = run_poll(1, vec![]);
    assert_eq!(result, Err(SandboxError::Timeout));
    assert_eq!(lookups, 1);
    assert_eq!(sleeps, Vec::<u64>::new());
}

#[test]
fn polling_without_attempts_times_out_at_once() {
    let (state, action) = wait_for_loadbalancer(0);
    assert_eq!(state, PollState::TimedOut);
    assert_eq!(action, PollAction::Finish(Err(SandboxError::Timeout)));
    let (result, lookups, sleeps) = run_poll(0, vec![Ok("10.0.0.7".to_string())]);
    assert_eq!(result, Err(SandboxError::Timeout));
    assert_eq!(lookups, 0);
    assert_eq!(sleeps, Vec::<u64>::new());
}

#[test]
fn polling_ends_with_the_first_address() {
    let answers = vec![Err(not_found()), Err(not_found()), Ok("10.0.0.7".to_string())];
    let (result, lookups, sleeps) = run_poll(12, answers);
    assert_eq!(result, Ok("10.0.0.7".to_string()));
    assert_eq!(lookups, 3);
    assert_eq!(sleeps, vec![5, 5]);
}

#[test]
fn address_at_the_last_attempt_is_still_in_time() {
    let answers = vec![Err(not_found()), Ok("10.0.0.7".to_string())];
    let (result, lookups, _) = run_poll(2, answers);
    assert_eq!(result, Ok("10.0.0.7".to_string()));
    assert_eq!(lookups, 2);
}

#[test]
fn address_after_the_last_attempt_is_too_late() {
    let answers = vec![Err(not_found()), Err(not_found()), Ok("10.0.0.7".to_string())];
    let (result, lookups, _) = run_poll(2, answers);
    assert_eq!(result, Err(SandboxError::Timeout));
    assert_eq!(lookups, 2);
}

#[test]
fn poll_states_follow_the_attempts() {
    let (state, action) = wait_for_loadbalancer(2);
    assert_eq!(state, PollState::Polling(1));
    assert_eq!(action, PollAction::Lookup);
    let (state, action) = poll_next(state, 2, Err(SandboxError::Upstream("down".to_string())));
    assert_eq!(state, PollState::Polling(2));
    assert_eq!(action, PollAction::SleepThenLookup(5));
    let (state, action) = poll_next(state, 2, Ok("10.0.0.7".to_string()));
    assert_eq!(state, PollState::Ready("10.0.0.7".to_string()));
    assert_eq!(action, PollAction::Finish(Ok("10.0.0.7".to_string())));
    let (state, action) = poll_next(state, 2, Err(not_found()));
    assert_eq!(state, PollState::Ready("10.0.0.7".to_string()));
    assert_eq!(action, PollAction::Finish(Ok("10.0.0.7".to_string())));
}

#[test]
fn urls_and_paths() {
    assert_eq!(browser_url("10.0.0.7"), "http://10.0.0.7:3000/");
    assert_eq!(access_path("carol"), "/browser/access-browser/carol");
}

#[test]
fn catalog_lists_every_sandbox_with_or_without_address() {
    let found = vec![
        ("carol-browser".to_string(), Some("10.0.0.7".to_string())),
        ("bob-browser".to_string(), None),
    ];
    assert_eq!(
        list_browsers(&found),
        vec![
            BrowserInfo {
                pod_id: "carol-browser".to_string(),
                username: "carol".to_string(),
                browser_type: "Chrome".to_string(),
                browser_url: Some("http://10.0.0.7:3000/".to_string()),
            },
            BrowserInfo {
                pod_id: "bob-browser".to_string(),
                username: "bob".to_string(),
                browser_type: "Chrome".to_string(),
                browser_url: None,
            },
        ]
    );
    assert_eq!(catalog_entry("bob-browser", &None).browser_url, None);
}

#[test]
fn catalog_of_no_sandboxes_is_empty() {
    assert_eq!(list_browsers(&vec![]), vec![]);
}

#[test]
fn started_browser_is_told_in_full() {
    let request = BrowserRequest { browser_type: "chrome".to_string() };
    let started = start_browser("carol", &request, "10.0.0.7");
    assert_eq!(started.message, "Navigateur lancé avec succès");
    assert_eq!(started.pod_id, "carol-browser");
    assert_eq!(started.browser_type, "chrome");
    assert_eq!(started.browser_url, "http://10.0.0.7:3000/");
    assert_eq!(started.loadbalancer_ip, "10.0.0.7");
    assert_eq!(started.access_url, "/browser/access-browser/carol");
}

#[test]
fn cluster_refusals_are_classified_by_status() {
    assert_eq!(SandboxError::from_status(404, "gone".to_string()), SandboxError::NotFound("gone".to_string()));
    assert_eq!(
        SandboxError::from_status(409, "twice".to_string()),
        SandboxError::AlreadyExists("twice".to_string())
    );
    assert_eq!(SandboxError::from_status(403, "no".to_string()), SandboxError::Upstream("no".to_string()));
    assert_eq!(SandboxError::from_status(500, "down".to_string()), SandboxError::Upstream("down".to_string()));
}

#[test]
fn errors_have_words() {
    assert_eq!(SandboxError::NotFound("gone".to_string()).message(), "gone");
    assert_eq!(SandboxError::AlreadyExists("twice".to_string()).message(), "twice");
    assert_eq!(SandboxError::Unready.message(), "LoadBalancer not ready");
    assert_eq!(SandboxError::Timeout.message(), "LoadBalancer timeout");
    assert_eq!(SandboxError::Upstream("down".to_string()).message(), "down");
    assert_eq!(SandboxError::Decode("bad".to_string()).message(), "bad");
    let error = SandboxError::Decode("bad".to_string());
    assert_eq!(error.duplicate(), error);
}
