use devcontainers::{BuildConfig, CodecPolicy, DevContainer, MountSpec, PortAttributes};

fn strict() -> CodecPolicy {
    CodecPolicy::default()
}

fn lax() -> CodecPolicy {
    CodecPolicy { allow_unknown_fields: true, ..CodecPolicy::default() }
}

#[test]
fn test_basic_devcontainer() {
    let json = r#"{
        "name": "Test Container",
        "image": "mcr.microsoft.com/devcontainers/rust:latest"
    }"#;

    let devcontainer = DevContainer::decode_text(strict(), json).unwrap();
    assert_eq!(devcontainer.name, Some("Test Container".to_string()));
    assert_eq!(
        devcontainer.image,
        Some("mcr.microsoft.com/devcontainers/rust:latest".to_string())
    );
}

#[test]
fn test_with_build_config() {
    let json = r#"{
        "name": "Custom Build",
        "build": {
            "dockerfile": "Dockerfile",
            "context": "..",
            "args": {
                "VARIANT": "bullseye"
            }
        }
    }"#;

    let devcontainer = DevContainer::decode_text(strict(), json).unwrap();
    assert!(devcontainer.build.is_some());
    let build = devcontainer.build.unwrap();
    assert_eq!(build.dockerfile, Some("Dockerfile".to_string()));
    assert_eq!(build.context, Some("..".to_string()));
}

#[test]
fn test_with_features_and_extensions() {
    let json = r#"{
        "name": "Feature Test",
        "image": "ubuntu:latest",
        "features": {
            "ghcr.io/devcontainers/features/docker-in-docker:2": {}
        },
        "extensions": [
            "dbaeumer.vscode-eslint",
            "esbenp.prettier-vscode"
        ]
    }"#;

    let devcontainer = DevContainer::decode_text(strict(), json).unwrap();
    assert!(devcontainer.features.is_some());
    assert!(devcontainer.extensions.is_some());
    assert_eq!(devcontainer.extensions.unwrap().len(), 2);
}

#[test]
fn test_with_features_no_vscode() {
    let json = r#"{
        "name": "Feature Test",
        "image": "ubuntu:latest",
        "features": {
            "ghcr.io/devcontainers/features/docker-in-docker:2": {}
        }
    }"#;

    let policy = CodecPolicy { vscode: false, ..CodecPolicy::default() };
    let devcontainer = DevContainer::decode_text(policy, json).unwrap();
    assert!(devcontainer.features.is_some());
}

#[test]
fn test_port_forwarding() {
    let json = r#"{
        "name": "Port Test",
        "image": "node:18",
        "forwardPorts": [3000, "db:5432"],
        "portsAttributes": {
            "3000": {
                "label": "Application",
                "onAutoForward": "notify"
            }
        }
    }"#;

    let devcontainer = DevContainer::decode_text(strict(), json).unwrap();
    assert!(devcontainer.forward_ports.is_some());
    assert!(devcontainer.ports_attributes.is_some());
}

#[test]
fn test_lifecycle_commands() {
    let json = r#"{
        "name": "Lifecycle Test",
        "image": "node:18",
        "postCreateCommand": "npm install",
        "postStartCommand": ["npm", "run", "dev"]
    }"#;

    let devcontainer = DevContainer::decode_text(strict(), json).unwrap();
    assert!(devcontainer.post_create_command.is_some());
    assert!(devcontainer.post_start_command.is_some());
}

#[test]
fn test_environment_variables() {
    let json = r#"{
        "name": "Env Test",
        "image": "python:3.9",
        "containerEnv": {
            "MY_VAR": "value",
            "ANOTHER_VAR": "another_value"
        },
        "remoteUser": "vscode"
    }"#;

    let devcontainer = DevContainer::decode_text(strict(), json).unwrap();
    assert!(devcontainer.container_env.is_some());
    assert_eq!(devcontainer.remote_user, Some("vscode".to_string()));
}

#[test]
fn test_serialization_roundtrip() {
    let mut devcontainer = DevContainer::default();
    devcontainer.name = Some("Test".to_string());
    devcontainer.image = Some("ubuntu:latest".to_string());
    devcontainer.extensions = Some(vec!["test.extension".to_string()]);

    let json = devcontainer.clone().encode_text();
    let parsed = DevContainer::decode_text(strict(), &json).unwrap();
    assert_eq!(devcontainer, parsed);
}

#[test]
fn test_unknown_fields_rejected_by_default() {
    let json = r#"{
        "name": "Test",
        "image": "ubuntu:latest",
        "unknownField": "should fail"
    }"#;

    let result = DevContainer::decode_text(strict(), json);
    assert!(result.is_err());
}

#[test]
fn test_unknown_fields_captured_with_feature() {
    let json = r#"{
        "name": "Test",
        "image": "ubuntu:latest",
        "unknownField": "should be captured",
        "anotherUnknown": 42
    }"#;

    let result = DevContainer::decode_text(lax(), json).unwrap();
    assert_eq!(result.name, Some("Test".to_string()));
    assert_eq!(result.additional_fields.len(), 2);
    assert!(result.additional_fields.iter().any(|kv| kv.0 == "unknownField"));
    assert!(result.additional_fields.iter().any(|kv| kv.0 == "anotherUnknown"));
}

#[test]
fn test_default_implementations() {
    let devcontainer = DevContainer::default();
    assert_eq!(devcontainer.name, None);
    assert_eq!(devcontainer.image, None);

    let build_config = BuildConfig::default();
    assert_eq!(build_config.dockerfile, None);
    assert_eq!(build_config.context, None);

    let port_attrs = PortAttributes::default();
    assert_eq!(port_attrs.label, None);

    let mount = MountSpec::default();
    assert_eq!(mount.source, None);
}

#[test]
fn test_default_with_modifications() {
    let mut devcontainer = DevContainer::default();
    devcontainer.name = Some("Test Container".to_string());
    devcontainer.image = Some("ubuntu:latest".to_string());

    let json = devcontainer.encode_text();
    let parsed = DevContainer::decode_text(strict(), &json).unwrap();
    assert_eq!(parsed.name, Some("Test Container".to_string()));
    assert_eq!(parsed.image, Some("ubuntu:latest".to_string()));
}
