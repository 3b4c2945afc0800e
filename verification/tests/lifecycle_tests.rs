use std::cell::RefCell;

use devcontainer_core::config::{CommandDefinition, ResolvedConfig};
use devcontainer_core::errors::DevcontainerError;
use devcontainer_core::lifecycle::{
    HookAction, LifecycleEventDetail, LifecycleExecutor, LifecycleHook, LifecyclePhase,
    LifecyclePlan, LifecyclePlanOptions,
};
use devcontainer_core::provider::{
    ExecResult, Provider, ProviderCleanupOptions, ProviderImage, ProviderKind,
    ProviderPreparation, RunningContainer, VolumeSpec,
};

fn sample_config() -> ResolvedConfig {
    ResolvedConfig {
        project_name: "demo".to_string(),
        workspace_folder: "/workspace".to_string(),
        container_workspace_folder: Some("/workspace".to_string()),
        config_path: "/workspace/.devcontainer/devcontainer.json".to_string(),
        image_reference: Some("example:image".to_string()),
        dockerfile: None,
        features: Vec::new(),
        forward_ports: vec![],
        post_create_command: Some(CommandDefinition::from_string("echo post create")),
        post_attach_command: Some(CommandDefinition::from_array(vec![
            "echo".to_string(),
            "post-attach".to_string(),
        ])),
    }
}

#[test]
fn plan_for_up_contains_all_phases() {
    let config = sample_config();
    let plan = LifecyclePlan::for_up(&config, LifecyclePlanOptions::default());

    let phases: Vec<_> = plan.steps.iter().map(|step| step.phase).collect();
    assert_eq!(
        phases,
        vec![
            LifecyclePhase::Resolve,
            LifecyclePhase::Build,
            LifecyclePhase::Create,
            LifecyclePhase::Start,
            LifecyclePhase::PostCreate,
            LifecyclePhase::PostAttach,
        ]
    );

    assert!(matches!(
        plan.steps[1].event.detail,
        LifecycleEventDetail::BuildImage {
            image_reference: Some(ref image)
        } if image == "example:image"
    ));

    assert!(matches!(
        plan.steps[4].event.detail,
        LifecycleEventDetail::Hook {
            hook: LifecycleHook::PostCreate,
            action: HookAction::Execute
        }
    ));

    assert!(matches!(
        plan.steps[5].event.detail,
        LifecycleEventDetail::Hook {
            hook: LifecycleHook::PostAttach,
            action: HookAction::Execute
        }
    ));
}

#[test]
fn plan_for_up_respects_skip_flags() {
    let mut config = sample_config();
    config.image_reference = None;

    let plan = LifecyclePlan::for_up(
        &config,
        LifecyclePlanOptions {
            skip_post_create: Some("--skip-post-create flag set".to_string()),
            skip_post_attach: Some("--skip-post-attach flag set".to_string()),
        },
    );

    assert!(matches!(
        plan.steps[1].event.detail,
        LifecycleEventDetail::BuildImage {
            image_reference: None
        }
    ));

    assert!(matches!(
        plan.steps[4].event.detail,
        LifecycleEventDetail::Hook {
            hook: LifecycleHook::PostCreate,
            action: HookAction::Skip { ref reason }
        } if reason == "--skip-post-create flag set"
    ));

    assert!(matches!(
        plan.steps[5].event.detail,
        LifecycleEventDetail::Hook {
            hook: LifecycleHook::PostAttach,
            action: HookAction::Skip { ref reason }
        } if reason == "--skip-post-attach flag set"
    ));
}

#[test]
fn plan_for_up_skips_hooks_without_commands() {
    let mut config = sample_config();
    config.post_create_command = None;
    config.post_attach_command = None;

    let plan = LifecyclePlan::for_up(&config, LifecyclePlanOptions::default());

    assert!(matches!(
        plan.steps[4].event.detail,
        LifecycleEventDetail::Hook {
            hook: LifecycleHook::PostCreate,
            action: HookAction::Skip { ref reason }
        } if reason == "No postCreate command defined in configuration"
    ));

    assert!(matches!(
        plan.steps[5].event.detail,
        LifecycleEventDetail::Hook {
            hook: LifecycleHook::PostAttach,
            action: HookAction::Skip { ref reason }
        } if reason == "No postAttach command defined in configuration"
    ));
}

#[test]
fn plan_for_up_messages_name_the_project() {
    let config = sample_config();
    let plan = LifecyclePlan::for_up(&config, LifecyclePlanOptions::default());

    assert_eq!(plan.steps[0].event.code, "lifecycle.resolve.config");
    assert_eq!(
        plan.steps[0].event.message,
        "Resolve devcontainer configuration from /workspace/.devcontainer/devcontainer.json"
    );
    assert_eq!(
        plan.steps[1].event.message,
        "Ensure devcontainer image example:image is available"
    );
    assert_eq!(plan.steps[2].event.message, "Create container for project demo");
    assert_eq!(plan.steps[3].event.message, "Start container for project demo");
    assert_eq!(plan.steps[4].event.code, "lifecycle.hook.postCreate");
    assert_eq!(plan.steps[4].event.message, "Run postCreate lifecycle hook");
}

#[test]
fn plan_for_up_skip_codes_and_messages() {
    let mut config = sample_config();
    config.post_create_command = None;
    let plan = LifecyclePlan::for_up(&config, LifecyclePlanOptions::default());
    assert_eq!(plan.steps[4].event.code, "lifecycle.hook.postCreate.skip");
    assert_eq!(
        plan.steps[4].event.message,
        "Skip postCreate lifecycle hook (No postCreate command defined in configuration)"
    );
}

struct TestProvider {
    exec_calls: RefCell<Vec<Vec<String>>>,
    exec_result: ExecResult,
}

impl TestProvider {
    fn new(exec_result: ExecResult) -> Self {
        TestProvider {
            exec_calls: RefCell::new(Vec::new()),
            exec_result,
        }
    }

    fn exec_calls(&self) -> Vec<Vec<String>> {
        self.exec_calls.borrow().clone()
    }
}

impl Provider for TestProvider {
    fn kind(&self) -> ProviderKind {
        ProviderKind::Mock
    }

    fn prepare(&self, _config: &ResolvedConfig) -> Result<ProviderPreparation, DevcontainerError> {
        Ok(ProviderPreparation {
            image: ProviderImage::Reference("example:image".to_string()),
            container_name: "test-container".to_string(),
            project_slug: "demo".to_string(),
            networks: vec!["test-network".to_string()],
            volumes: vec![VolumeSpec {
                name: "test-volume".to_string(),
                mount_path: "/data".to_string(),
            }],
            workspace_mount_path: "/workspace".to_string(),
        })
    }

    fn ensure_networks(
        &self,
        _config: &ResolvedConfig,
        _preparation: &ProviderPreparation,
    ) -> Result<(), DevcontainerError> {
        Ok(())
    }

    fn ensure_volumes(
        &self,
        _config: &ResolvedConfig,
        _preparation: &ProviderPreparation,
    ) -> Result<(), DevcontainerError> {
        Ok(())
    }

    fn build_image(
        &self,
        _config: &ResolvedConfig,
        _preparation: &ProviderPreparation,
    ) -> Result<String, DevcontainerError> {
        Ok("example:image:latest".to_string())
    }

    fn create_container(
        &self,
        _config: &ResolvedConfig,
        _preparation: &ProviderPreparation,
        _image_reference: &str,
    ) -> Result<RunningContainer, DevcontainerError> {
        Ok(RunningContainer {
            id: Some("container-id".to_string()),
            name: Some("test-container".to_string()),
        })
    }

    fn start_container(&self, _container: &RunningContainer) -> Result<(), DevcontainerError> {
        Ok(())
    }

    fn exec(
        &self,
        _container: &RunningContainer,
        command: &Vec<String>,
    ) -> Result<ExecResult, DevcontainerError> {
        self.exec_calls.borrow_mut().push(command.clone());
        Ok(self.exec_result.clone())
    }

    fn stop_container(
        &self,
        _config: &ResolvedConfig,
        _preparation: &ProviderPreparation,
        _container: &RunningContainer,
    ) -> Result<(), DevcontainerError> {
        Ok(())
    }

    fn cleanup(
        &self,
        _config: &ResolvedConfig,
        _preparation: &ProviderPreparation,
        _options: &ProviderCleanupOptions,
    ) -> Result<(), DevcontainerError> {
        Ok(())
    }
}

#[test]
fn executor_runs_hooks_via_provider_exec() {
    let config = sample_config();
    let plan = LifecyclePlan::for_up(&config, LifecyclePlanOptions::default());
    let provider = TestProvider::new(ExecResult::default());
    let executor = LifecycleExecutor::new(provider);

    let outcome = executor
        .execute(&config, &plan)
        .expect("lifecycle execution succeeds");

    assert_eq!(
        outcome.executed_phases,
        vec![
            LifecyclePhase::Resolve,
            LifecyclePhase::Build,
            LifecyclePhase::Create,
            LifecyclePhase::Start,
            LifecyclePhase::PostCreate,
            LifecyclePhase::PostAttach,
        ]
    );

    let calls = executor.provider().exec_calls();
    assert_eq!(calls.len(), 2);
    assert_eq!(
        calls[0],
        vec![
            "/bin/sh".to_string(),
            "-c".to_string(),
            "echo post create".to_string(),
        ]
    );
    assert_eq!(
        calls[1],
        vec!["echo".to_string(), "post-attach".to_string()]
    );
}

#[test]
fn executor_fails_when_hook_returns_non_zero() {
    let config = sample_config();
    let plan = LifecyclePlan::for_up(&config, LifecyclePlanOptions::default());
    let provider = TestProvider::new(ExecResult {
        exit_code: 5,
        stdout: String::new(),
        stderr: "boom".to_string(),
    });
    let executor = LifecycleExecutor::new(provider);

    let err = executor
        .execute(&config, &plan)
        .expect_err("postCreate failure propagates");

    match err {
        DevcontainerError::Provider(message) => {
            assert!(message.contains("postCreate"));
            assert!(message.contains("5"));
            assert!(message.contains("boom"));
        }
        other => panic!("Unexpected error: {other:?}"),
    }

    let calls = executor.provider().exec_calls();
    assert_eq!(calls.len(), 1);
    assert_eq!(
        calls[0],
        vec![
            "/bin/sh".to_string(),
            "-c".to_string(),
            "echo post create".to_string(),
        ]
    );
}

#[test]
fn executor_skips_hooks_when_commands_absent() {
    let mut config = sample_config();
    config.post_create_command = None;
    config.post_attach_command = None;

    let plan = LifecyclePlan::for_up(&config, LifecyclePlanOptions::default());
    let provider = TestProvider::new(ExecResult::default());
    let executor = LifecycleExecutor::new(provider);

    let outcome = executor
        .execute(&config, &plan)
        .expect("lifecycle execution succeeds without hooks");

    assert!(executor.provider().exec_calls().is_empty());
    assert_eq!(
        outcome.executed_phases,
        vec![
            LifecyclePhase::Resolve,
            LifecyclePhase::Build,
            LifecyclePhase::Create,
            LifecyclePhase::Start,
            LifecyclePhase::PostCreate,
            LifecyclePhase::PostAttach,
        ]
    );
}

#[test]
fn executor_runs_parallel_hook_commands_in_key_order() {
    let mut config = sample_config();
    config.post_create_command = Some(CommandDefinition::Parallel(vec![
        (
            "first".to_string(),
            devcontainer_core::config::CommandArgs::String("echo first".to_string()),
        ),
        (
            "second".to_string(),
            devcontainer_core::config::CommandArgs::Array(vec![
                "echo".to_string(),
                "second".to_string(),
            ]),
        ),
    ]));
    config.post_attach_command = None;

    let plan = LifecyclePlan::for_up(&config, LifecyclePlanOptions::default());
    let provider = TestProvider::new(ExecResult::default());
    let executor = LifecycleExecutor::new(provider);

    executor
        .execute(&config, &plan)
        .expect("parallel hooks succeed");

    let calls = executor.provider().exec_calls();
    assert_eq!(calls.len(), 2);
    assert_eq!(
        calls[0],
        vec![
            "/bin/sh".to_string(),
            "-c".to_string(),
            "echo first".to_string(),
        ]
    );
    assert_eq!(
        calls[1],
        vec!["echo".to_string(), "second".to_string()]
    );
}

#[test]
fn failed_parallel_hook_names_the_command() {
    let mut config = sample_config();
    config.post_create_command = Some(CommandDefinition::Parallel(vec![(
        "setup".to_string(),
        devcontainer_core::config::CommandArgs::String("exit 3".to_string()),
    )]));
    config.post_attach_command = None;

    let plan = LifecyclePlan::for_up(&config, LifecyclePlanOptions::default());
    let provider = TestProvider::new(ExecResult {
        exit_code: 3,
        stdout: String::new(),
        stderr: String::new(),
    });
    let executor = LifecycleExecutor::new(provider);

    let err = executor.execute(&config, &plan).expect_err("hook fails");
    match err {
        DevcontainerError::Provider(message) => {
            assert_eq!(message, "postCreate command 'setup' failed with exit code 3");
        }
        other => panic!("Unexpected error: {other:?}"),
    }
}
