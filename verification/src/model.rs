use vstd::prelude::*;
use crate::json::{JsonValue, JsonView};

verus! {

// ---------------------------------------------------------------------------
// Typed configuration model.
//
// Every field is optional: absence of a field in a document leaves the field
// `None`, and only present fields are emitted when a configuration is turned
// back into a document. Maps are held as ordered key/value pair lists, in the
// order the document gave them.
// ---------------------------------------------------------------------------

/// A service name paired with a port number: the typed form of a
/// `"service:port"` string.
#[derive(Debug, Clone, PartialEq)]
pub struct ServicePort {
    /// Name of the service; never empty when produced by `parse`.
    pub service: String,
    /// Port number in the unsigned 16-bit range.
    pub port: u16,
}

#[verifier::ext_equal]
pub struct ServicePortView {
    pub service: Seq<char>,
    pub port: u16,
}

impl DeepView for ServicePort {
    type V = ServicePortView;

    open spec fn deep_view(&self) -> ServicePortView {
        ServicePortView { service: self.service@, port: self.port }
    }
}

/// One entry of the port-forwarding list: a bare port number, or a
/// service-qualified port.
#[derive(Debug, Clone, PartialEq)]
pub enum PortSpec {
    /// Numeric port.
    Number(u16),
    /// Service name with port, written `"service:port"` in a document.
    Service(ServicePort),
}

#[verifier::ext_equal]
pub enum PortSpecView {
    Number(u16),
    Service(ServicePortView),
}

impl DeepView for PortSpec {
    type V = PortSpecView;

    open spec fn deep_view(&self) -> PortSpecView {
        match self {
            PortSpec::Number(n) => PortSpecView::Number(*n),
            PortSpec::Service(sp) => PortSpecView::Service(sp.deep_view()),
        }
    }
}

/// A command, either as one shell string or as a list of argument tokens.
#[derive(Debug, Clone, PartialEq)]
pub enum CommandSpec {
    /// Shell command string.
    Shell(String),
    /// Argument tokens.
    Args(Vec<String>),
}

#[verifier::ext_equal]
pub enum CommandSpecView {
    Shell(Seq<char>),
    Args(Seq<Seq<char>>),
}

impl DeepView for CommandSpec {
    type V = CommandSpecView;

    open spec fn deep_view(&self) -> CommandSpecView {
        match self {
            CommandSpec::Shell(s) => CommandSpecView::Shell(s@),
            CommandSpec::Args(a) => CommandSpecView::Args(a.deep_view()),
        }
    }
}

/// A command to run at one lifecycle point: a single command, or a mapping
/// from a name to a command.
#[derive(Debug, Clone, PartialEq)]
pub enum LifecycleCommand {
    /// Single command.
    Command(CommandSpec),
    /// Named commands, in document order.
    Object(Vec<(String, CommandSpec)>),
}

#[verifier::ext_equal]
pub enum LifecycleCommandView {
    Command(CommandSpecView),
    Object(Seq<(Seq<char>, CommandSpecView)>),
}

impl DeepView for LifecycleCommand {
    type V = LifecycleCommandView;

    open spec fn deep_view(&self) -> LifecycleCommandView {
        match self {
            LifecycleCommand::Command(c) => LifecycleCommandView::Command(c.deep_view()),
            LifecycleCommand::Object(m) => LifecycleCommandView::Object(m.deep_view()),
        }
    }
}

/// What to do with the container when the connection ends.
#[derive(Debug, Clone, Copy, PartialEq, Eq, Structural)]
pub enum ShutdownAction {
    /// Take no action; written `none`.
    NoAction,
    /// Stop the container; written `stopContainer`.
    StopContainer,
    /// Stop the compose project; written `stopCompose`.
    StopCompose,
}

impl DeepView for ShutdownAction {
    type V = ShutdownAction;

    open spec fn deep_view(&self) -> ShutdownAction {
        *self
    }
}

/// A compose-file reference: one path, or an ordered list of paths.
#[derive(Debug, Clone, PartialEq)]
pub enum DockerComposeFile {
    /// A single file path.
    Path(String),
    /// An ordered list of file paths.
    Paths(Vec<String>),
}

#[verifier::ext_equal]
pub enum DockerComposeFileView {
    Path(Seq<char>),
    Paths(Seq<Seq<char>>),
}

impl DeepView for DockerComposeFile {
    type V = DockerComposeFileView;

    open spec fn deep_view(&self) -> DockerComposeFileView {
        match self {
            DockerComposeFile::Path(s) => DockerComposeFileView::Path(s@),
            DockerComposeFile::Paths(a) => DockerComposeFileView::Paths(a.deep_view()),
        }
    }
}

/// Attributes of one forwarded port.
#[derive(Debug, Clone, PartialEq)]
pub struct PortAttributes {
    /// Label shown for the port.
    pub label: Option<String>,
    /// Protocol name.
    pub protocol: Option<String>,
    /// Action when the port is auto-forwarded; written `onAutoForward`.
    pub on_auto_forward: Option<String>,
    /// Whether a local port is required; written `requireLocalPort`.
    pub require_local_port: Option<bool>,
    /// Whether to elevate if needed; written `elevateIfNeeded`.
    pub elevate_if_needed: Option<bool>,
    /// Unrecognized members, captured only under the permissive policy.
    pub additional_fields: Vec<(String, JsonValue)>,
}

#[verifier::ext_equal]
pub struct PortAttributesView {
    pub label: Option<Seq<char>>,
    pub protocol: Option<Seq<char>>,
    pub on_auto_forward: Option<Seq<char>>,
    pub require_local_port: Option<bool>,
    pub elevate_if_needed: Option<bool>,
    pub additional_fields: Seq<(Seq<char>, JsonView)>,
}

impl DeepView for PortAttributes {
    type V = PortAttributesView;

    open spec fn deep_view(&self) -> PortAttributesView {
        PortAttributesView {
            label: self.label.deep_view(),
            protocol: self.protocol.deep_view(),
            on_auto_forward: self.on_auto_forward.deep_view(),
            require_local_port: self.require_local_port,
            elevate_if_needed: self.elevate_if_needed,
            additional_fields: self.additional_fields.deep_view(),
        }
    }
}

impl PortAttributesView {
    /// The all-absent attributes value.
    pub open spec fn empty() -> PortAttributesView {
        PortAttributesView {
            label: None,
            protocol: None,
            on_auto_forward: None,
            require_local_port: None,
            elevate_if_needed: None,
            additional_fields: Seq::empty(),
        }
    }
}

impl Default for PortAttributes {
    /// The all-absent attributes value.
    fn default() -> (r: PortAttributes)
        ensures
            r.deep_view() == PortAttributesView::empty(),
    {
        let r = PortAttributes {
            label: None,
            protocol: None,
            on_auto_forward: None,
            require_local_port: None,
            elevate_if_needed: None,
            additional_fields: Vec::new(),
        };
        proof {
            assert(r.deep_view() =~= PortAttributesView::empty());
        }
        r
    }
}

/// One mount descriptor.
#[derive(Debug, Clone, PartialEq)]
pub struct MountSpec {
    /// Source path.
    pub source: Option<String>,
    /// Target path in the container.
    pub target: Option<String>,
    /// Mount type; written `type`.
    pub mount_type: Option<String>,
    /// Unrecognized members, captured only under the permissive policy.
    pub additional_fields: Vec<(String, JsonValue)>,
}

#[verifier::ext_equal]
pub struct MountSpecView {
    pub source: Option<Seq<char>>,
    pub target: Option<Seq<char>>,
    pub mount_type: Option<Seq<char>>,
    pub additional_fields: Seq<(Seq<char>, JsonView)>,
}

impl DeepView for MountSpec {
    type V = MountSpecView;

    open spec fn deep_view(&self) -> MountSpecView {
        MountSpecView {
            source: self.source.deep_view(),
            target: self.target.deep_view(),
            mount_type: self.mount_type.deep_view(),
            additional_fields: self.additional_fields.deep_view(),
        }
    }
}

impl MountSpecView {
    /// The all-absent mount value.
    pub open spec fn empty() -> MountSpecView {
        MountSpecView {
            source: None,
            target: None,
            mount_type: None,
            additional_fields: Seq::empty(),
        }
    }
}

impl Default for MountSpec {
    /// The all-absent mount value.
    fn default() -> (r: MountSpec)
        ensures
            r.deep_view() == MountSpecView::empty(),
    {
        let r = MountSpec {
            source: None,
            target: None,
            mount_type: None,
            additional_fields: Vec::new(),
        };
        proof {
            assert(r.deep_view() =~= MountSpecView::empty());
        }
        r
    }
}

/// Instructions for building the base image.
#[derive(Debug, Clone, PartialEq)]
pub struct BuildConfig {
    /// Path to the Dockerfile.
    pub dockerfile: Option<String>,
    /// Build context path.
    pub context: Option<String>,
    /// Build arguments, name to value, in document order.
    pub args: Option<Vec<(String, String)>>,
    /// Target stage of a multi-stage build.
    pub target: Option<String>,
    /// Cache sources; written `cacheFrom`.
    pub cache_from: Option<Vec<String>>,
    /// Unrecognized members, captured only under the permissive policy.
    pub additional_fields: Vec<(String, JsonValue)>,
}

#[verifier::ext_equal]
pub struct BuildConfigView {
    pub dockerfile: Option<Seq<char>>,
    pub context: Option<Seq<char>>,
    pub args: Option<Seq<(Seq<char>, Seq<char>)>>,
    pub target: Option<Seq<char>>,
    pub cache_from: Option<Seq<Seq<char>>>,
    pub additional_fields: Seq<(Seq<char>, JsonView)>,
}

impl DeepView for BuildConfig {
    type V = BuildConfigView;

    open spec fn deep_view(&self) -> BuildConfigView {
        BuildConfigView {
            dockerfile: self.dockerfile.deep_view(),
            context: self.context.deep_view(),
            args: self.args.deep_view(),
            target: self.target.deep_view(),
            cache_from: self.cache_from.deep_view(),
            additional_fields: self.additional_fields.deep_view(),
        }
    }
}

impl BuildConfigView {
    /// The all-absent build value.
    pub open spec fn empty() -> BuildConfigView {
        BuildConfigView {
            dockerfile: None,
            context: None,
            args: None,
            target: None,
            cache_from: None,
            additional_fields: Seq::empty(),
        }
    }
}

impl Default for BuildConfig {
    /// The all-absent build value.
    fn default() -> (r: BuildConfig)
        ensures
            r.deep_view() == BuildConfigView::empty(),
    {
        let r = BuildConfig {
            dockerfile: None,
            context: None,
            args: None,
            target: None,
            cache_from: None,
            additional_fields: Vec::new(),
        };
        proof {
            assert(r.deep_view() =~= BuildConfigView::empty());
        }
        r
    }
}

/// The root configuration: every recognized setting of one environment.
#[derive(Debug, Clone, PartialEq)]
pub struct DevContainer {
    /// Display name.
    pub name: Option<String>,
    /// Base image reference.
    pub image: Option<String>,
    /// Dockerfile path; written `dockerFile`.
    pub docker_file: Option<String>,
    /// Build instructions.
    pub build: Option<BuildConfig>,
    /// Named feature configurations, passed through uninterpreted.
    pub features: Option<Vec<(String, JsonValue)>>,
    /// Editor extensions to install.
    pub extensions: Option<Vec<String>>,
    /// Editor settings, passed through uninterpreted.
    pub settings: Option<Vec<(String, JsonValue)>>,
    /// Ports to forward; written `forwardPorts`.
    pub forward_ports: Option<Vec<PortSpec>>,
    /// Attributes per port identifier; written `portsAttributes`.
    pub ports_attributes: Option<Vec<(String, PortAttributes)>>,
    /// Default attributes for unlisted ports; written `otherPortsAttributes`.
    pub other_ports_attributes: Option<PortAttributes>,
    /// Container-scope environment variables; written `containerEnv`.
    pub container_env: Option<Vec<(String, String)>>,
    /// Remote-process environment variables; written `remoteEnv`.
    pub remote_env: Option<Vec<(String, String)>>,
    /// User for remote processes; written `remoteUser`.
    pub remote_user: Option<String>,
    /// User for container processes; written `containerUser`.
    pub container_user: Option<String>,
    /// Workspace folder path; written `workspaceFolder`.
    pub workspace_folder: Option<String>,
    /// Command after creation; written `postCreateCommand`.
    pub post_create_command: Option<LifecycleCommand>,
    /// Command after start; written `postStartCommand`.
    pub post_start_command: Option<LifecycleCommand>,
    /// Command after attach; written `postAttachCommand`.
    pub post_attach_command: Option<LifecycleCommand>,
    /// Named customization blocks, passed through uninterpreted.
    pub customizations: Option<Vec<(String, JsonValue)>>,
    /// Whether to use an init process.
    pub init: Option<bool>,
    /// Whether to run privileged.
    pub privileged: Option<bool>,
    /// Whether to override the default command; written `overrideCommand`.
    pub override_command: Option<bool>,
    /// Action on shutdown; written `shutdownAction`.
    pub shutdown_action: Option<ShutdownAction>,
    /// Mount descriptors.
    pub mounts: Option<Vec<MountSpec>>,
    /// Raw run arguments; written `runArgs`.
    pub run_args: Option<Vec<String>>,
    /// Compose file reference; written `dockerComposeFile`.
    pub docker_compose_file: Option<DockerComposeFile>,
    /// Compose service name.
    pub service: Option<String>,
    /// Workspace mount descriptor; written `workspaceMount`.
    pub workspace_mount: Option<String>,
    /// Unrecognized document fields, captured only under the permissive
    /// policy, in document order.
    pub additional_fields: Vec<(String, JsonValue)>,
}

#[verifier::ext_equal]
pub struct DevContainerView {
    pub name: Option<Seq<char>>,
    pub image: Option<Seq<char>>,
    pub docker_file: Option<Seq<char>>,
    pub build: Option<BuildConfigView>,
    pub features: Option<Seq<(Seq<char>, JsonView)>>,
    pub extensions: Option<Seq<Seq<char>>>,
    pub settings: Option<Seq<(Seq<char>, JsonView)>>,
    pub forward_ports: Option<Seq<PortSpecView>>,
    pub ports_attributes: Option<Seq<(Seq<char>, PortAttributesView)>>,
    pub other_ports_attributes: Option<PortAttributesView>,
    pub container_env: Option<Seq<(Seq<char>, Seq<char>)>>,
    pub remote_env: Option<Seq<(Seq<char>, Seq<char>)>>,
    pub remote_user: Option<Seq<char>>,
    pub container_user: Option<Seq<char>>,
    pub workspace_folder: Option<Seq<char>>,
    pub post_create_command: Option<LifecycleCommandView>,
    pub post_start_command: Option<LifecycleCommandView>,
    pub post_attach_command: Option<LifecycleCommandView>,
    pub customizations: Option<Seq<(Seq<char>, JsonView)>>,
    pub init: Option<bool>,
    pub privileged: Option<bool>,
    pub override_command: Option<bool>,
    pub shutdown_action: Option<ShutdownAction>,
    pub mounts: Option<Seq<MountSpecView>>,
    pub run_args: Option<Seq<Seq<char>>>,
    pub docker_compose_file: Option<DockerComposeFileView>,
    pub service: Option<Seq<char>>,
    pub workspace_mount: Option<Seq<char>>,
    pub additional_fields: Seq<(Seq<char>, JsonView)>,
}

impl DeepView for DevContainer {
    type V = DevContainerView;

    open spec fn deep_view(&self) -> DevContainerView {
        DevContainerView {
            name: self.name.deep_view(),
            image: self.image.deep_view(),
            docker_file: self.docker_file.deep_view(),
            build: self.build.deep_view(),
            features: self.features.deep_view(),
            extensions: self.extensions.deep_view(),
            settings: self.settings.deep_view(),
            forward_ports: self.forward_ports.deep_view(),
            ports_attributes: self.ports_attributes.deep_view(),
            other_ports_attributes: self.other_ports_attributes.deep_view(),
            container_env: self.container_env.deep_view(),
            remote_env: self.remote_env.deep_view(),
            remote_user: self.remote_user.deep_view(),
            container_user: self.container_user.deep_view(),
            workspace_folder: self.workspace_folder.deep_view(),
            post_create_command: self.post_create_command.deep_view(),
            post_start_command: self.post_start_command.deep_view(),
            post_attach_command: self.post_attach_command.deep_view(),
            customizations: self.customizations.deep_view(),
            init: self.init,
            privileged: self.privileged,
            override_command: self.override_command,
            shutdown_action: self.shutdown_action.deep_view(),
            mounts: self.mounts.deep_view(),
            run_args: self.run_args.deep_view(),
            docker_compose_file: self.docker_compose_file.deep_view(),
            service: self.service.deep_view(),
            workspace_mount: self.workspace_mount.deep_view(),
            additional_fields: self.additional_fields.deep_view(),
        }
    }
}

impl DevContainerView {
    /// The all-absent configuration.
    pub open spec fn empty() -> DevContainerView {
        DevContainerView {
            name: None,
            image: None,
            docker_file: None,
            build: None,
            features: None,
            extensions: None,
            settings: None,
            forward_ports: None,
            ports_attributes: None,
            other_ports_attributes: None,
            container_env: None,
            remote_env: None,
            remote_user: None,
            container_user: None,
            workspace_folder: None,
            post_create_command: None,
            post_start_command: None,
            post_attach_command: None,
            customizations: None,
            init: None,
            privileged: None,
            override_command: None,
            shutdown_action: None,
            mounts: None,
            run_args: None,
            docker_compose_file: None,
            service: None,
            workspace_mount: None,
            additional_fields: Seq::empty(),
        }
    }
}

impl Default for DevContainer {
    /// The all-absent configuration.
    fn default() -> (r: DevContainer)
        ensures
            r.deep_view() == DevContainerView::empty(),
    {
        let r = DevContainer {
            name: None,
            image: None,
            docker_file: None,
            build: None,
            features: None,
            extensions: None,
            settings: None,
            forward_ports: None,
            ports_attributes: None,
            other_ports_attributes: None,
            container_env: None,
            remote_env: None,
            remote_user: None,
            container_user: None,
            workspace_folder: None,
            post_create_command: None,
            post_start_command: None,
            post_attach_command: None,
            customizations: None,
            init: None,
            privileged: None,
            override_command: None,
            shutdown_action: None,
            mounts: None,
            run_args: None,
            docker_compose_file: None,
            service: None,
            workspace_mount: None,
            additional_fields: Vec::new(),
        };
        proof {
            assert(r.deep_view() =~= DevContainerView::empty());
        }
        r
    }
}

/// How one build of the codec reads a document: whether unrecognized fields
/// are captured rather than rejected, and whether the editor-specific and the
/// compose-specific field names are part of the recognized schema.
#[derive(Debug, Clone, Copy, PartialEq, Eq, Structural)]
pub struct CodecPolicy {
    /// When set, unrecognized fields are captured in `additional_fields`;
    /// when clear, any unrecognized field fails the decode.
    pub allow_unknown_fields: bool,
    /// When set, `extensions` and `settings` are recognized field names.
    pub vscode: bool,
    /// When set, `dockerComposeFile` and `service` are recognized field
    /// names.
    pub docker_compose: bool,
}

impl Default for CodecPolicy {
    /// The default build: unrecognized fields are rejected, and the whole
    /// schema is recognized.
    fn default() -> (r: CodecPolicy)
        ensures
            r == (CodecPolicy { allow_unknown_fields: false, vscode: true, docker_compose: true }),
    {
        CodecPolicy { allow_unknown_fields: false, vscode: true, docker_compose: true }
    }
}

/// A reason a document was rejected. Each variant names the innermost field
/// at fault.
#[derive(Debug, Clone, PartialEq)]
pub enum DecodeError {
    /// A value's JSON kind matches no alternative expected at its position.
    StructuralMismatch { field: String, expected: String },
    /// A field name outside the recognized schema, under the strict policy.
    UnrecognizedField { field: String },
    /// A value of the right kind whose content fails validation.
    InvalidScalar { field: String, value: String },
    /// The input is not valid JSON text at all.
    MalformedDocument,
}

#[verifier::ext_equal]
pub enum DecodeErrorView {
    StructuralMismatch { field: Seq<char>, expected: Seq<char> },
    UnrecognizedField { field: Seq<char> },
    InvalidScalar { field: Seq<char>, value: Seq<char> },
    MalformedDocument,
}

impl DeepView for DecodeError {
    type V = DecodeErrorView;

    open spec fn deep_view(&self) -> DecodeErrorView {
        match self {
            DecodeError::StructuralMismatch { field, expected } => {
                DecodeErrorView::StructuralMismatch { field: field@, expected: expected@ }
            },
            DecodeError::UnrecognizedField { field } => {
                DecodeErrorView::UnrecognizedField { field: field@ }
            },
            DecodeError::InvalidScalar { field, value } => {
                DecodeErrorView::InvalidScalar { field: field@, value: value@ }
            },
            DecodeError::MalformedDocument => DecodeErrorView::MalformedDocument,
        }
    }
}

} // verus!
