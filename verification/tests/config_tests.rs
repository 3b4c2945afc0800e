use devcontainer_core::config::{
    CommandArgs, CommandDefinition, ConfigOverrides, ConfigResolver, ConfigSource,
    ForwardPortDefinition, PortProtocol,
};
use devcontainer_core::errors::DevcontainerError;

fn workspace_resolver(root: &str) -> ConfigResolver {
    ConfigResolver::new(ConfigSource::Workspace(root.to_string()))
}

#[test]
fn resolve_reads_workspace_configuration() {
    let root = "/home/user/sample-workspace";
    let config_path = "/home/user/sample-workspace/.devcontainer/devcontainer.json";
    let text = r#"{
        "name": "sample",
        "image": "mcr.microsoft.com/devcontainers/base:latest",
        "forwardPorts": [
            3000,
            "4000:9229"
        ],
        "postCreateCommand": "echo post create",
        "postAttachCommand": ["echo", "post-attach"],
        "features": {
            "ghcr.io/devcontainers/features/node:1": {
                "version": "18"
            }
        }
    }"#;

    let resolver = workspace_resolver(root);
    let resolved = resolver.resolve_text(config_path, text).expect("resolve config");

    assert_eq!(resolved.project_name, "sample");
    assert_eq!(resolved.workspace_folder, root);
    assert!(resolved.container_workspace_folder.is_none());
    assert_eq!(resolved.config_path, config_path);
    assert_eq!(
        resolved.image_reference.as_deref(),
        Some("mcr.microsoft.com/devcontainers/base:latest")
    );
    assert_eq!(resolved.forward_ports.len(), 2);
    assert_eq!(resolved.forward_ports[0].local_port, 3000);
    assert_eq!(resolved.forward_ports[0].container_port, 3000);
    assert_eq!(resolved.forward_ports[0].protocol, PortProtocol::Tcp);
    assert_eq!(resolved.forward_ports[1].local_port, 4000);
    assert_eq!(resolved.forward_ports[1].container_port, 9229);
    assert_eq!(resolved.forward_ports[1].protocol, PortProtocol::Tcp);
    assert_eq!(resolved.features.len(), 1);
    assert_eq!(resolved.features[0].0, "ghcr.io/devcontainers/features/node:1");
    assert!(resolved.features[0].1.contains("\"version\""));
    assert_eq!(
        resolved.post_create_command,
        Some(CommandDefinition::from_string("echo post create"))
    );
    assert_eq!(
        resolved.post_attach_command,
        Some(CommandDefinition::from_array(vec![
            "echo".to_string(),
            "post-attach".to_string()
        ]))
    );
}

#[test]
fn resolve_supports_parallel_post_create_commands() {
    let root = "/home/user/parallel-workspace";
    let config_path = "/home/user/parallel-workspace/.devcontainer/devcontainer.json";
    let text = r#"{
        "name": "parallel",
        "image": "mcr.microsoft.com/devcontainers/base:latest",
        "postCreateCommand": {
            "first": "echo first",
            "second": ["echo", "second"]
        }
    }"#;

    let resolver = workspace_resolver(root);
    let resolved = resolver.resolve_text(config_path, text).expect("resolve config");

    let expected = vec![
        (
            "first".to_string(),
            CommandArgs::String("echo first".to_string()),
        ),
        (
            "second".to_string(),
            CommandArgs::Array(vec!["echo".to_string(), "second".to_string()]),
        ),
    ];

    assert_eq!(
        resolved.post_create_command,
        Some(CommandDefinition::Parallel(expected))
    );
}

#[test]
fn workspace_folder_from_config_is_relative_to_workspace_root() {
    let root = "/home/user/nested-workspace";
    let config_path = "/home/user/nested-workspace/.devcontainer/devcontainer.json";
    let text = r#"{
        "name": "nested",
        "workspaceFolder": "nested/project",
        "forwardPorts": []
    }"#;

    let resolver = workspace_resolver(root);
    let resolved = resolver.resolve_text(config_path, text).expect("resolve config");

    assert_eq!(resolved.project_name, "nested");
    assert_eq!(
        resolved.workspace_folder,
        "/home/user/nested-workspace/nested/project"
    );
    assert!(resolved.container_workspace_folder.is_none());
    assert!(resolved.dockerfile.is_none());
}

#[test]
fn workspace_folder_placeholders_are_resolved_for_container_paths() {
    let root = "/home/user/myproj";
    let config_path = "/home/user/myproj/.devcontainer/devcontainer.json";
    let text = r#"{
        "name": "placeholders",
        "workspaceFolder": "/workspace/${localWorkspaceFolderBasename}",
        "forwardPorts": []
    }"#;

    let resolver = workspace_resolver(root);
    let resolved = resolver.resolve_text(config_path, text).expect("resolve config");

    assert_eq!(resolved.project_name, "placeholders");
    assert_eq!(resolved.workspace_folder, root);
    assert_eq!(
        resolved.container_workspace_folder.as_deref(),
        Some("/workspace/myproj")
    );
}

#[test]
fn overrides_take_precedence() {
    let root = "/home/user/override-workspace";
    let config_path = "/home/user/override-workspace/.devcontainer/devcontainer.json";
    let text = r#"{
        "name": "original",
        "image": "example:image",
        "forwardPorts": []
    }"#;

    let mut overrides = ConfigOverrides::default()
        .with_workspace_folder("/home/user/override-workspace/workspace-src".to_string())
        .with_project_name("override");
    overrides.image_reference = Some("override:image".to_string());

    let resolver = workspace_resolver(root).with_overrides(overrides);
    let resolved = resolver.resolve_text(config_path, text).expect("resolve config");

    assert_eq!(resolved.project_name, "override");
    assert_eq!(
        resolved.workspace_folder,
        "/home/user/override-workspace/workspace-src"
    );
    assert_eq!(resolved.image_reference.as_deref(), Some("override:image"));
    assert!(resolved.dockerfile.is_none());
}

#[test]
fn invalid_configuration_reports_schema_error() {
    let root = "/home/user/broken-workspace";
    let config_path = "/home/user/broken-workspace/.devcontainer/devcontainer.json";
    let text = r#"{
        "name": "broken",
        "forwardPorts": ["not-a-number"],
        "features": {}
    }"#;

    let resolver = workspace_resolver(root);
    let err = resolver
        .resolve_text(config_path, text)
        .expect_err("expect schema error");

    match err {
        DevcontainerError::Configuration(message) => {
            assert!(message.contains("Invalid devcontainer.json"));
        }
        other => panic!("unexpected error: {other:?}"),
    }
}

#[test]
fn resolve_resolves_dockerfile_path_relative_to_config() {
    let root = "/home/user/dockerfile-workspace";
    let config_path = "/home/user/dockerfile-workspace/.devcontainer/devcontainer.json";
    let text = r#"{
        "name": "dockerfile",
        "dockerFile": "Dockerfile",
        "forwardPorts": []
    }"#;

    let resolver = workspace_resolver(root);
    let resolved = resolver.resolve_text(config_path, text).expect("resolve config");

    assert_eq!(
        resolved.dockerfile.as_deref(),
        Some("/home/user/dockerfile-workspace/.devcontainer/Dockerfile")
    );
}

#[test]
fn relaxed_json_with_comments_and_trailing_commas_is_accepted() {
    let root = "/home/user/relaxed-workspace";
    let config_path = "/home/user/relaxed-workspace/.devcontainer/devcontainer.json";
    let text = r#"{
        // the image we develop in
        "name": "relaxed",
        "image": "example:image",
        "forwardPorts": [8080,],
    }"#;

    let resolver = workspace_resolver(root);
    let resolved = resolver.resolve_text(config_path, text).expect("resolve config");

    assert_eq!(resolved.project_name, "relaxed");
    assert_eq!(resolved.forward_ports.len(), 1);
    assert_eq!(resolved.forward_ports[0].local_port, 8080);
    assert_eq!(resolved.forward_ports[0].container_port, 8080);
}

#[test]
fn document_with_both_image_and_dockerfile_is_accepted() {
    let root = "/home/user/both-workspace";
    let config_path = "/home/user/both-workspace/.devcontainer/devcontainer.json";
    let text = r#"{
        "name": "both",
        "image": "example:image",
        "dockerFile": "Dockerfile"
    }"#;

    let resolver = workspace_resolver(root);
    let resolved = resolver.resolve_text(config_path, text).expect("resolve config");

    assert_eq!(resolved.image_reference.as_deref(), Some("example:image"));
    assert_eq!(
        resolved.dockerfile.as_deref(),
        Some("/home/user/both-workspace/.devcontainer/Dockerfile")
    );
}

#[test]
fn unparsable_document_reports_configuration_error() {
    let root = "/home/user/bad-json-workspace";
    let config_path = "/home/user/bad-json-workspace/.devcontainer/devcontainer.json";
    let text = "{ this is not json at all";

    let resolver = workspace_resolver(root);
    let err = resolver
        .resolve_text(config_path, text)
        .expect_err("expect parse error");

    match err {
        DevcontainerError::Configuration(message) => {
            assert!(message.contains("is not valid JSON"));
            assert!(message.contains(config_path));
        }
        other => panic!("unexpected error: {other:?}"),
    }
}

#[test]
fn forward_port_string_round_trips() {
    let def = ForwardPortDefinition::String("4000:9229".to_string());
    let port = def.to_forward_port().expect("valid port string");
    assert_eq!(port.local_port, 4000);
    assert_eq!(port.container_port, 9229);
    assert_eq!(port.protocol, PortProtocol::Tcp);
}

#[test]
fn forward_port_bare_number_round_trips() {
    let def = ForwardPortDefinition::Number(3000);
    let port = def.to_forward_port().expect("valid port number");
    assert_eq!(port.local_port, 3000);
    assert_eq!(port.container_port, 3000);
    assert_eq!(port.protocol, PortProtocol::Tcp);
}

#[test]
fn forward_port_without_colon_uses_both_sides() {
    let def = ForwardPortDefinition::String("8080".to_string());
    let port = def.to_forward_port().expect("valid port string");
    assert_eq!(port.local_port, 8080);
    assert_eq!(port.container_port, 8080);
}

#[test]
fn forward_port_largest_value_is_accepted() {
    let def = ForwardPortDefinition::String("65535:65535".to_string());
    let port = def.to_forward_port().expect("valid port string");
    assert_eq!(port.local_port, 65535);
    assert_eq!(port.container_port, 65535);
}

#[test]
fn forward_port_out_of_range_is_rejected() {
    let def = ForwardPortDefinition::String("65536".to_string());
    let err = def.to_forward_port().expect_err("port out of range");
    match err {
        DevcontainerError::Configuration(message) => {
            assert!(message.contains("65536"));
        }
        other => panic!("unexpected error: {other:?}"),
    }
}

#[test]
fn empty_forward_port_is_rejected() {
    let def = ForwardPortDefinition::String("".to_string());
    let err = def.to_forward_port().expect_err("empty port");
    match err {
        DevcontainerError::Configuration(message) => {
            assert_eq!(
                message,
                "Invalid forward port value '': value must not be empty"
            );
        }
        other => panic!("unexpected error: {other:?}"),
    }
}

#[test]
fn malformed_forward_port_is_rejected_naming_the_value() {
    let def = ForwardPortDefinition::String("abc".to_string());
    let err = def.to_forward_port().expect_err("malformed port");
    match err {
        DevcontainerError::Configuration(message) => {
            assert_eq!(
                message,
                "Invalid forward port value 'abc': container port is not a valid port number"
            );
        }
        other => panic!("unexpected error: {other:?}"),
    }
}

#[test]
fn malformed_local_side_is_reported() {
    let def = ForwardPortDefinition::String("abc:9229".to_string());
    let err = def.to_forward_port().expect_err("malformed local port");
    match err {
        DevcontainerError::Configuration(message) => {
            assert_eq!(
                message,
                "Invalid forward port value 'abc:9229': local port is not a valid port number"
            );
        }
        other => panic!("unexpected error: {other:?}"),
    }
}

#[test]
fn resolve_is_idempotent() {
    let root = "/home/user/idempotent-workspace";
    let config_path = "/home/user/idempotent-workspace/.devcontainer/devcontainer.json";
    let text = r#"{
        "name": "idempotent",
        "image": "example:image",
        "workspaceFolder": "nested/project",
        "forwardPorts": [3000, "4000:9229"],
        "postCreateCommand": "echo once"
    }"#;

    let resolver = workspace_resolver(root);
    let first = resolver.resolve_text(config_path, text).expect("first resolve");
    let second = resolver.resolve_text(config_path, text).expect("second resolve");

    assert_eq!(first.project_name, second.project_name);
    assert_eq!(first.workspace_folder, second.workspace_folder);
    assert_eq!(
        first.container_workspace_folder,
        second.container_workspace_folder
    );
    assert_eq!(first.config_path, second.config_path);
    assert_eq!(first.image_reference, second.image_reference);
    assert_eq!(first.dockerfile, second.dockerfile);
    assert_eq!(first.features, second.features);
    assert_eq!(first.forward_ports, second.forward_ports);
    assert_eq!(first.post_create_command, second.post_create_command);
    assert_eq!(first.post_attach_command, second.post_attach_command);
}

#[test]
fn explicit_file_source_fails_when_missing() {
    let source = ConfigSource::ExplicitFile("/tmp/elsewhere/devcontainer.json".to_string());
    let err = source.resolve_path(false, false).expect_err("missing file");
    match err {
        DevcontainerError::Configuration(message) => {
            assert!(message.contains("/tmp/elsewhere/devcontainer.json"));
            assert!(message.contains("does not exist"));
        }
        other => panic!("unexpected error: {other:?}"),
    }
}

#[test]
fn workspace_source_prefers_devcontainer_directory() {
    let source = ConfigSource::Workspace("/home/user/ws".to_string());
    let path = source.resolve_path(true, true).expect("primary candidate");
    assert_eq!(path, "/home/user/ws/.devcontainer/devcontainer.json");

    let fallback = source.resolve_path(false, true).expect("fallback candidate");
    assert_eq!(fallback, "/home/user/ws/devcontainer.json");

    let err = source.resolve_path(false, false).expect_err("no candidate");
    match err {
        DevcontainerError::Configuration(message) => {
            assert!(message.contains("Failed to locate devcontainer.json"));
        }
        other => panic!("unexpected error: {other:?}"),
    }
}

#[test]
fn to_exec_args_wraps_shell_strings() {
    let args = CommandArgs::String("echo hi".to_string()).to_exec_args();
    assert_eq!(
        args,
        vec!["/bin/sh".to_string(), "-c".to_string(), "echo hi".to_string()]
    );

    let passthrough = CommandArgs::Array(vec!["echo".to_string(), "hi".to_string()]).to_exec_args();
    assert_eq!(passthrough, vec!["echo".to_string(), "hi".to_string()]);
}

#[test]
fn unsupported_error_carries_its_message() {
    let err = DevcontainerError::Unsupported("--no-cache is ignored".to_string());
    assert_eq!(err.message(), "--no-cache is ignored");
    assert!(!err.is_configuration());
}

#[test]
fn schema_error_aggregates_every_violation() {
    let root = "/home/user/aggregate-workspace";
    let config_path = "/home/user/aggregate-workspace/.devcontainer/devcontainer.json";
    let text = r#"{
        "name": 17,
        "image": 23,
        "forwardPorts": []
    }"#;

    let resolver = workspace_resolver(root);
    let err = resolver
        .resolve_text(config_path, text)
        .expect_err("expect schema error");

    match err {
        DevcontainerError::Configuration(message) => {
            assert!(message.contains("Invalid devcontainer.json"));
            assert!(message.contains("; "), "both violations must be listed: {message}");
        }
        other => panic!("unexpected error: {other:?}"),
    }
}

#[test]
fn deeply_nested_document_is_rejected_up_front() {
    let root = "/home/user/deep-workspace";
    let config_path = "/home/user/deep-workspace/.devcontainer/devcontainer.json";
    let mut text = String::new();
    for _ in 0..5000 {
        text.push('[');
    }

    let resolver = workspace_resolver(root);
    let err = resolver
        .resolve_text(config_path, &text)
        .expect_err("expect depth rejection");

    match err {
        DevcontainerError::Configuration(message) => {
            assert!(message.contains("nested too deeply"));
            assert!(message.contains(config_path));
        }
        other => panic!("unexpected error: {other:?}"),
    }
}

#[test]
fn empty_project_name_falls_through_the_precedence() {
    let root = "/home/user/myproj";
    let config_path = "/home/user/myproj/.devcontainer/devcontainer.json";
    let text = r#"{
        "name": "",
        "image": "example:image"
    }"#;

    let resolver = workspace_resolver(root);
    let resolved = resolver.resolve_text(config_path, text).expect("resolve config");
    assert_eq!(resolved.project_name, "myproj");

    let with_empty_override = workspace_resolver(root)
        .with_overrides(ConfigOverrides::default().with_project_name(""));
    let resolved = with_empty_override
        .resolve_text(config_path, text)
        .expect("resolve config");
    assert_eq!(resolved.project_name, "myproj");
}
