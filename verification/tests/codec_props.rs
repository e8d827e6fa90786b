use devcontainers::{
    CodecPolicy, CommandSpec, DecodeError, DevContainer, DockerComposeFile, JsonValue,
    LifecycleCommand, MountSpec, PortSpec, ServicePort, ShutdownAction,
};

fn strict() -> CodecPolicy {
    CodecPolicy::default()
}

fn lax() -> CodecPolicy {
    CodecPolicy { allow_unknown_fields: true, ..CodecPolicy::default() }
}

#[test]
fn service_port_parse_and_format() {
    let sp = ServicePort::parse("db:5432").unwrap();
    assert_eq!(sp.service, "db".to_string());
    assert_eq!(sp.port, 5432);
    assert_eq!(sp.format(), "db:5432".to_string());

    assert!(ServicePort::parse("db:99999").is_none());
    assert!(ServicePort::parse(":5432").is_none());
    assert!(ServicePort::parse("noport").is_none());
}

#[test]
fn service_port_leading_zeros_and_plus() {
    let sp = ServicePort::parse("db:05432").unwrap();
    assert_eq!(sp.port, 5432);
    assert_eq!(sp.format(), "db:5432".to_string());

    let sp = ServicePort::parse("web:+80").unwrap();
    assert_eq!(sp.port, 80);

    assert!(ServicePort::parse("db:").is_none());
    assert!(ServicePort::parse("db:+").is_none());
    assert!(ServicePort::parse("db:-1").is_none());
    assert!(ServicePort::parse("a:b:5").is_none());
}

#[test]
fn name_and_image_only_leaves_the_rest_absent() {
    let json = r#"{"name": "Test Container", "image": "mcr.microsoft.com/devcontainers/rust:latest"}"#;
    let c = DevContainer::decode_text(strict(), json).unwrap();
    assert_eq!(c.name, Some("Test Container".to_string()));
    assert_eq!(c.image, Some("mcr.microsoft.com/devcontainers/rust:latest".to_string()));
    let mut rest = c.clone();
    rest.name = None;
    rest.image = None;
    assert_eq!(rest, DevContainer::default());
}

#[test]
fn forward_ports_resolve_by_kind() {
    let json = r#"{"forwardPorts": [3000, "db:5432"]}"#;
    let c = DevContainer::decode_text(strict(), json).unwrap();
    let ports = c.forward_ports.unwrap();
    assert_eq!(ports.len(), 2);
    assert_eq!(ports[0], PortSpec::Number(3000));
    assert_eq!(
        ports[1],
        PortSpec::Service(ServicePort { service: "db".to_string(), port: 5432 })
    );

    let bad = DevContainer::decode_text(strict(), r#"{"forwardPorts": ["bad"]}"#);
    assert!(matches!(bad, Err(DecodeError::InvalidScalar { .. })));

    let bad = DevContainer::decode_text(strict(), r#"{"forwardPorts": ["db:notanumber"]}"#);
    assert!(matches!(bad, Err(DecodeError::InvalidScalar { .. })));

    let bad = DevContainer::decode_text(strict(), r#"{"forwardPorts": [99999]}"#);
    assert!(matches!(bad, Err(DecodeError::InvalidScalar { .. })));

    let bad = DevContainer::decode_text(strict(), r#"{"forwardPorts": [null]}"#);
    assert!(matches!(bad, Err(DecodeError::StructuralMismatch { .. })));
}

#[test]
fn lifecycle_commands_resolve_by_kind() {
    let json = r#"{"postCreateCommand": "npm install", "postStartCommand": ["npm", "run", "dev"]}"#;
    let c = DevContainer::decode_text(strict(), json).unwrap();
    assert_eq!(
        c.post_create_command,
        Some(LifecycleCommand::Command(CommandSpec::Shell("npm install".to_string())))
    );
    assert_eq!(
        c.post_start_command,
        Some(LifecycleCommand::Command(CommandSpec::Args(vec![
            "npm".to_string(),
            "run".to_string(),
            "dev".to_string(),
        ])))
    );

    let json = r#"{"postAttachCommand": {"server": "npm start", "tail": ["tail", "-f", "log"]}}"#;
    let c = DevContainer::decode_text(strict(), json).unwrap();
    assert_eq!(
        c.post_attach_command,
        Some(LifecycleCommand::Object(vec![
            ("server".to_string(), CommandSpec::Shell("npm start".to_string())),
            (
                "tail".to_string(),
                CommandSpec::Args(vec![
                    "tail".to_string(),
                    "-f".to_string(),
                    "log".to_string(),
                ])
            ),
        ]))
    );
}

#[test]
fn empty_configuration_encodes_to_empty_object() {
    let v = DevContainer::default().encode();
    assert_eq!(v, JsonValue::Obj(vec![]));
    assert_eq!(DevContainer::default().encode_text(), "{}".to_string());
}

#[test]
fn encoding_emits_schema_order() {
    let mut c = DevContainer::default();
    c.image = Some("ubuntu:latest".to_string());
    c.name = Some("Ordered".to_string());
    c.init = Some(true);
    assert_eq!(
        c.encode_text(),
        r#"{"name":"Ordered","image":"ubuntu:latest","init":true}"#.to_string()
    );
}

#[test]
fn value_round_trip_with_many_fields() {
    let mut c = DevContainer::default();
    c.name = Some("Everything".to_string());
    c.build = Some(devcontainers::BuildConfig {
        dockerfile: Some("Dockerfile".to_string()),
        args: Some(vec![("VARIANT".to_string(), "bullseye".to_string())]),
        ..devcontainers::BuildConfig::default()
    });
    c.forward_ports = Some(vec![
        PortSpec::Number(3000),
        PortSpec::Service(ServicePort { service: "db".to_string(), port: 5432 }),
    ]);
    c.container_env = Some(vec![("A".to_string(), "1".to_string())]);
    c.post_create_command =
        Some(LifecycleCommand::Command(CommandSpec::Shell("make".to_string())));
    c.shutdown_action = Some(ShutdownAction::StopContainer);
    c.mounts = Some(vec![MountSpec {
        source: Some("/src".to_string()),
        target: Some("/workspace".to_string()),
        mount_type: Some("bind".to_string()),
        ..MountSpec::default()
    }]);
    c.docker_compose_file = Some(DockerComposeFile::Paths(vec![
        "docker-compose.yml".to_string(),
        "docker-compose.dev.yml".to_string(),
    ]));
    c.features = Some(vec![(
        "ghcr.io/devcontainers/features/node:1".to_string(),
        JsonValue::Obj(vec![("version".to_string(), JsonValue::Str("18".to_string()))]),
    )]);

    let encoded = c.clone().encode();
    let decoded = DevContainer::decode(strict(), encoded).unwrap();
    assert_eq!(decoded, c);

    let text = c.clone().encode_text();
    let reparsed = DevContainer::decode_text(strict(), &text).unwrap();
    assert_eq!(reparsed, c);
}

#[test]
fn shutdown_action_wire_names() {
    let c = DevContainer::decode_text(strict(), r#"{"shutdownAction": "stopCompose"}"#).unwrap();
    assert_eq!(c.shutdown_action, Some(ShutdownAction::StopCompose));

    let mut out = DevContainer::default();
    out.shutdown_action = Some(ShutdownAction::StopContainer);
    assert_eq!(out.encode_text(), r#"{"shutdownAction":"stopContainer"}"#.to_string());

    let bad = DevContainer::decode_text(strict(), r#"{"shutdownAction": "explode"}"#);
    assert!(matches!(bad, Err(DecodeError::InvalidScalar { .. })));

    let bad = DevContainer::decode_text(strict(), r#"{"shutdownAction": 3}"#);
    assert!(matches!(bad, Err(DecodeError::StructuralMismatch { .. })));
}

#[test]
fn errors_name_the_field_at_fault() {
    match DevContainer::decode_text(strict(), r#"{"name": 5}"#) {
        Err(DecodeError::StructuralMismatch { field, expected }) => {
            assert_eq!(field, "name".to_string());
            assert_eq!(expected, "string".to_string());
        },
        other => panic!("expected a structural mismatch, got {:?}", other),
    }

    match DevContainer::decode_text(strict(), r#"{"zzz": 1}"#) {
        Err(DecodeError::UnrecognizedField { field }) => {
            assert_eq!(field, "zzz".to_string());
        },
        other => panic!("expected an unrecognized field, got {:?}", other),
    }

    match DevContainer::decode_text(strict(), r#"{"forwardPorts": ["db:xy"]}"#) {
        Err(DecodeError::InvalidScalar { field, value }) => {
            assert_eq!(field, "forwardPorts".to_string());
            assert_eq!(value, "db:xy".to_string());
        },
        other => panic!("expected an invalid scalar, got {:?}", other),
    }

    let bad = DevContainer::decode_text(strict(), "not json at all");
    assert!(matches!(bad, Err(DecodeError::MalformedDocument)));

    let bad = DevContainer::decode_text(strict(), r#"[1, 2, 3]"#);
    assert!(matches!(bad, Err(DecodeError::StructuralMismatch { .. })));
}

#[test]
fn toggled_off_names_are_unrecognized() {
    let no_compose = CodecPolicy { docker_compose: false, ..CodecPolicy::default() };
    let bad = DevContainer::decode_text(no_compose, r#"{"service": "web"}"#);
    assert!(matches!(bad, Err(DecodeError::UnrecognizedField { .. })));

    let ok = DevContainer::decode_text(strict(), r#"{"service": "web"}"#).unwrap();
    assert_eq!(ok.service, Some("web".to_string()));

    let no_vscode = CodecPolicy { vscode: false, ..CodecPolicy::default() };
    let bad = DevContainer::decode_text(no_vscode, r#"{"extensions": []}"#);
    assert!(matches!(bad, Err(DecodeError::UnrecognizedField { .. })));
}

#[test]
fn lax_policy_captures_exactly_the_unknown_members() {
    let json = r#"{"name": "Test", "zebra": {"a": 1}, "image": "ubuntu", "extra": [true]}"#;
    let c = DevContainer::decode_text(lax(), json).unwrap();
    assert_eq!(c.name, Some("Test".to_string()));
    assert_eq!(c.image, Some("ubuntu".to_string()));
    assert_eq!(
        c.additional_fields,
        vec![
            (
                "zebra".to_string(),
                JsonValue::Obj(vec![("a".to_string(), JsonValue::Int(1))])
            ),
            ("extra".to_string(), JsonValue::Arr(vec![JsonValue::Bool(true)])),
        ]
    );

    let back = c.encode_text();
    let again = DevContainer::decode_text(lax(), &back).unwrap();
    assert_eq!(again.additional_fields.len(), 2);
}

#[test]
fn nested_objects_follow_the_unknown_policy() {
    let json = r#"{"build": {"dockerfile": "Dockerfile", "zzz": 1}}"#;
    let bad = DevContainer::decode_text(strict(), json);
    assert!(matches!(bad, Err(DecodeError::UnrecognizedField { .. })));

    let c = DevContainer::decode_text(lax(), json).unwrap();
    let b = c.build.unwrap();
    assert_eq!(b.dockerfile, Some("Dockerfile".to_string()));
    assert_eq!(b.additional_fields, vec![("zzz".to_string(), JsonValue::Int(1))]);
}

#[test]
fn ports_attributes_members_decode() {
    let json = r#"{"portsAttributes": {"3000": {"label": "App", "requireLocalPort": true}},
        "otherPortsAttributes": {"onAutoForward": "silent"}}"#;
    let c = DevContainer::decode_text(strict(), json).unwrap();
    let m = c.ports_attributes.unwrap();
    assert_eq!(m.len(), 1);
    assert_eq!(m[0].0, "3000".to_string());
    assert_eq!(m[0].1.label, Some("App".to_string()));
    assert_eq!(m[0].1.require_local_port, Some(true));
    let o = c.other_ports_attributes.unwrap();
    assert_eq!(o.on_auto_forward, Some("silent".to_string()));
}
