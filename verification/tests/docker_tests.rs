use devcontainer_core::config::ResolvedConfig;
use devcontainer_core::docker::{
    cleanup_plan, container_from_create_output, container_identifier, create_container_args,
    exec_call_plan, format_command, image_action, is_bare_command, prepare,
    reconcile_inspect_outcome, resource_create_args, resource_inspect_args, sanitize_name,
    stale_remove_args, stop_identifier, stop_outcome, verify_binary_outcome, version_args,
    CleanupTarget, CmdOutput, DockerProvider, ImageAction, ReconcileAction, ResourceKind,
};
use devcontainer_core::errors::DevcontainerError;
use devcontainer_core::provider::{
    ProviderCleanupOptions, ProviderImage, ProviderPreparation, RunningContainer, VolumeSpec,
};

fn reference_config() -> ResolvedConfig {
    ResolvedConfig {
        project_name: "Sample Project".to_string(),
        workspace_folder: "/home/user/workspace".to_string(),
        container_workspace_folder: None,
        config_path: "/home/user/devcontainer.json".to_string(),
        image_reference: Some("ghcr.io/devcontainers/base:latest".to_string()),
        dockerfile: None,
        features: Vec::new(),
        forward_ports: vec![],
        post_create_command: None,
        post_attach_command: None,
    }
}

fn success_output() -> CmdOutput {
    CmdOutput {
        success: true,
        exit_code: 0,
        stdout: String::new(),
        stderr: String::new(),
    }
}

fn failure_output(stderr: &str) -> CmdOutput {
    CmdOutput {
        success: false,
        exit_code: 1,
        stdout: String::new(),
        stderr: stderr.to_string(),
    }
}

#[test]
fn prepare_builds_expected_metadata_for_reference_image() {
    let config = reference_config();

    let preparation = prepare(&config, true, false).unwrap();
    assert_eq!(preparation.container_name, "devcontainer-sample-project");
    assert_eq!(preparation.project_slug, "sample-project");
    assert_eq!(preparation.workspace_mount_path, "/workspaces/sample-project");
    assert_eq!(
        preparation.networks,
        vec!["devcontainer-sample-project-network".to_string()]
    );
    assert_eq!(preparation.volumes.len(), 1);
    assert_eq!(preparation.volumes[0].name, "devcontainer-sample-project-data");
    assert_eq!(preparation.volumes[0].mount_path, "/workspaces/.devcontainer");
    assert!(matches!(preparation.image, ProviderImage::Reference(_)));
}

#[test]
fn prepare_fails_without_workspace() {
    let config = reference_config();
    let err = prepare(&config, false, false).expect_err("workspace missing");
    match err {
        DevcontainerError::Configuration(message) => {
            assert!(message.contains("Workspace folder"));
            assert!(message.contains("/home/user/workspace"));
        }
        other => panic!("unexpected error: {other:?}"),
    }
}

#[test]
fn prepare_fails_without_image_or_dockerfile() {
    let mut config = reference_config();
    config.image_reference = None;
    let err = prepare(&config, true, false).expect_err("nothing to build from");
    match err {
        DevcontainerError::Configuration(message) => {
            assert!(message.contains("either `image` or `dockerFile`"));
        }
        other => panic!("unexpected error: {other:?}"),
    }
}

#[test]
fn prepare_builds_from_dockerfile() {
    let mut config = reference_config();
    config.image_reference = None;
    config.dockerfile = Some("/home/user/workspace/.devcontainer/Dockerfile".to_string());

    let preparation = prepare(&config, true, true).unwrap();
    match preparation.image {
        ProviderImage::Build(build) => {
            assert_eq!(build.dockerfile, "/home/user/workspace/.devcontainer/Dockerfile");
            assert_eq!(build.build_context, "/home/user/workspace/.devcontainer");
            assert_eq!(build.tag, "devcontainer-sample-project:latest");
        }
        other => panic!("unexpected image: {other:?}"),
    }

    let mut missing = reference_config();
    missing.image_reference = None;
    missing.dockerfile = Some("/home/user/workspace/Dockerfile".to_string());
    let err = prepare(&missing, true, false).expect_err("dockerfile missing");
    match err {
        DevcontainerError::Configuration(message) => {
            assert!(message.contains("Dockerfile"));
            assert!(message.contains("does not exist"));
        }
        other => panic!("unexpected error: {other:?}"),
    }
}

#[test]
fn sanitize_name_normalizes_and_falls_back() {
    assert_eq!(sanitize_name("Sample Project"), "sample-project");
    assert_eq!(sanitize_name("My_App.v2"), "my_app.v2");
    assert_eq!(sanitize_name("--Hello World--"), "hello-world");
    assert_eq!(sanitize_name("///"), "devcontainer");
    assert_eq!(sanitize_name(""), "devcontainer");
}

#[test]
fn format_command_joins_with_spaces() {
    let args = vec!["network".to_string(), "inspect".to_string(), "net-1".to_string()];
    assert_eq!(
        format_command("/usr/bin/docker", &args),
        "/usr/bin/docker network inspect net-1"
    );
    assert_eq!(format_command("docker", &Vec::new()), "docker");
}

#[test]
fn bare_commands_are_recognized() {
    assert!(is_bare_command("docker"));
    assert!(!is_bare_command("/usr/bin/docker"));
    assert!(!is_bare_command("./docker"));
}

#[test]
fn provider_paths_are_kept() {
    assert_eq!(DockerProvider::new().docker_path, "docker");
    assert_eq!(DockerProvider::from_path("/bin/echo").docker_path, "/bin/echo");
}

#[test]
fn reconcile_classifies_inspection_outcomes() {
    let present = reconcile_inspect_outcome(ResourceKind::Network, "net-1", &success_output());
    assert_eq!(present.unwrap(), ReconcileAction::AlreadyPresent);

    let absent = reconcile_inspect_outcome(
        ResourceKind::Network,
        "net-1",
        &failure_output("Error: No such network: net-1"),
    );
    assert_eq!(absent.unwrap(), ReconcileAction::Create);

    let err = reconcile_inspect_outcome(
        ResourceKind::Volume,
        "vol-1",
        &failure_output("permission denied"),
    )
    .expect_err("real failure");
    match err {
        DevcontainerError::Provider(message) => {
            assert_eq!(
                message,
                "Failed to inspect docker volume vol-1: permission denied"
            );
        }
        other => panic!("unexpected error: {other:?}"),
    }
}

#[test]
fn resource_args_follow_engine_vocabulary() {
    assert_eq!(
        resource_inspect_args(ResourceKind::Network, "net-1"),
        vec!["network".to_string(), "inspect".to_string(), "net-1".to_string()]
    );
    assert_eq!(
        resource_create_args(ResourceKind::Volume, "vol-1"),
        vec!["volume".to_string(), "create".to_string(), "vol-1".to_string()]
    );
    assert_eq!(
        stale_remove_args("devcontainer-demo"),
        vec![
            "container".to_string(),
            "rm".to_string(),
            "--force".to_string(),
            "devcontainer-demo".to_string()
        ]
    );
    assert_eq!(
        version_args(),
        vec![
            "version".to_string(),
            "--format".to_string(),
            "{{.Server.Version}}".to_string()
        ]
    );
}

#[test]
fn image_action_uses_local_image_when_present() {
    assert_eq!(image_action(&success_output()), ImageAction::UseLocal);
    assert_eq!(
        image_action(&failure_output("No such image")),
        ImageAction::Pull
    );
}

fn sample_preparation() -> ProviderPreparation {
    ProviderPreparation {
        image: ProviderImage::Reference("example:image".to_string()),
        container_name: "devcontainer-demo".to_string(),
        project_slug: "demo".to_string(),
        networks: vec!["devcontainer-demo-network".to_string()],
        volumes: vec![VolumeSpec {
            name: "devcontainer-demo-data".to_string(),
            mount_path: "/workspaces/.devcontainer".to_string(),
        }],
        workspace_mount_path: "/workspaces/demo".to_string(),
    }
}

#[test]
fn create_container_args_carry_every_mount() {
    let mut config = reference_config();
    config.project_name = "demo".to_string();
    let preparation = sample_preparation();

    let args = create_container_args(&config, &preparation, "example:image");
    assert_eq!(
        args,
        vec![
            "create".to_string(),
            "--name".to_string(),
            "devcontainer-demo".to_string(),
            "--hostname".to_string(),
            "devcontainer-demo".to_string(),
            "--network".to_string(),
            "devcontainer-demo-network".to_string(),
            "--label".to_string(),
            "devcontainer.project=demo".to_string(),
            "--workdir".to_string(),
            "/workspaces/demo".to_string(),
            "--mount".to_string(),
            "type=bind,src=/home/user/workspace,dst=/workspaces/demo".to_string(),
            "--mount".to_string(),
            "type=volume,src=devcontainer-demo-data,dst=/workspaces/.devcontainer".to_string(),
            "example:image".to_string(),
            "sleep".to_string(),
            "infinity".to_string(),
        ]
    );
}

#[test]
fn created_container_takes_id_from_stdout() {
    let out = CmdOutput {
        success: true,
        exit_code: 0,
        stdout: "  abc123\n".to_string(),
        stderr: String::new(),
    };
    let container = container_from_create_output("devcontainer-demo", &out);
    assert_eq!(container.id.as_deref(), Some("abc123"));
    assert_eq!(container.name.as_deref(), Some("devcontainer-demo"));

    let empty = container_from_create_output("devcontainer-demo", &success_output());
    assert!(empty.id.is_none());
}

#[test]
fn container_identifier_prefers_name() {
    let both = RunningContainer {
        id: Some("abc".to_string()),
        name: Some("devcontainer-demo".to_string()),
    };
    assert_eq!(container_identifier(&both).unwrap(), "devcontainer-demo");

    let id_only = RunningContainer {
        id: Some("abc".to_string()),
        name: None,
    };
    assert_eq!(container_identifier(&id_only).unwrap(), "abc");

    let neither = RunningContainer { id: None, name: None };
    match container_identifier(&neither).expect_err("no identifier") {
        DevcontainerError::Provider(message) => {
            assert_eq!(message, "Container has no identifier");
        }
        other => panic!("unexpected error: {other:?}"),
    }
}

#[test]
fn stop_falls_back_to_prepared_name() {
    let neither = RunningContainer { id: None, name: None };
    assert_eq!(
        stop_identifier(&neither, &sample_preparation()),
        "devcontainer-demo"
    );
}

#[test]
fn stop_tolerates_missing_or_stopped_containers() {
    assert!(stop_outcome("c", &success_output()).is_ok());
    assert!(stop_outcome("c", &failure_output("Error: No such container: c")).is_ok());
    assert!(stop_outcome("c", &failure_output("container c is not running")).is_ok());

    match stop_outcome("c", &failure_output("daemon unreachable")).expect_err("real failure") {
        DevcontainerError::Provider(message) => {
            assert_eq!(message, "Failed to stop container c: daemon unreachable");
        }
        other => panic!("unexpected error: {other:?}"),
    }
}

#[test]
fn cleanup_reports_not_found_as_success() {
    let preparation = sample_preparation();
    let options = ProviderCleanupOptions {
        remove_volumes: true,
        remove_unknown: false,
    };
    let plan = cleanup_plan(&preparation, &options);
    assert_eq!(plan.len(), 3);

    let absent_answers = vec![
        failure_output("Error response from daemon: No such container: devcontainer-demo"),
        failure_output("Error: No such network: devcontainer-demo-network"),
        failure_output("Error: No such volume: devcontainer-demo-data"),
    ];
    for (target, out) in plan.iter().zip(absent_answers.iter()) {
        assert!(target.outcome(out).is_ok(), "absence must be success");
    }
}

#[test]
fn cleanup_plan_lists_container_networks_then_volumes() {
    let preparation = sample_preparation();
    let keep_volumes = cleanup_plan(&preparation, &ProviderCleanupOptions::default());
    assert_eq!(
        keep_volumes,
        vec![
            CleanupTarget::Container {
                name: "devcontainer-demo".to_string(),
                remove_volumes: false,
            },
            CleanupTarget::Network("devcontainer-demo-network".to_string()),
        ]
    );

    let with_volumes = cleanup_plan(
        &preparation,
        &ProviderCleanupOptions {
            remove_volumes: true,
            remove_unknown: false,
        },
    );
    assert_eq!(with_volumes.len(), 3);
    assert_eq!(
        with_volumes[2],
        CleanupTarget::Volume("devcontainer-demo-data".to_string())
    );
    assert_eq!(
        with_volumes[0].args(),
        vec![
            "container".to_string(),
            "rm".to_string(),
            "--force".to_string(),
            "--volumes".to_string(),
            "devcontainer-demo".to_string()
        ]
    );
}

#[test]
fn cleanup_failure_names_the_resource() {
    let target = CleanupTarget::Network("devcontainer-demo-network".to_string());
    match target
        .outcome(&failure_output("network is in use"))
        .expect_err("real failure")
    {
        DevcontainerError::Provider(message) => {
            assert_eq!(
                message,
                "Failed to remove docker network devcontainer-demo-network: network is in use"
            );
        }
        other => panic!("unexpected error: {other:?}"),
    }
}

#[test]
fn exec_plan_skips_empty_commands() {
    assert!(exec_call_plan("c", &Vec::new()).is_none());
    let args = exec_call_plan("c", &vec!["echo".to_string(), "hi".to_string()]).unwrap();
    assert_eq!(
        args,
        vec![
            "exec".to_string(),
            "c".to_string(),
            "echo".to_string(),
            "hi".to_string()
        ]
    );
}

#[test]
fn verify_binary_reports_unreachable_engine() {
    assert!(verify_binary_outcome("/usr/bin/docker", &success_output()).is_ok());
    match verify_binary_outcome("/usr/bin/docker", &failure_output("cannot connect"))
        .expect_err("unreachable engine")
    {
        DevcontainerError::Provider(message) => {
            assert_eq!(
                message,
                "Failed to execute '/usr/bin/docker --version': cannot connect"
            );
        }
        other => panic!("unexpected error: {other:?}"),
    }
}
