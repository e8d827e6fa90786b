//! A typed model of a developer-container configuration document, with a
//! verified codec between JSON values and the typed form.

pub mod json;
pub mod laws;
pub mod decode;
pub mod decode_root;
pub mod decode_values;
pub mod encode;
pub mod model;
pub mod service_port;
pub mod text;
pub mod util;

pub use json::JsonValue;
pub use model::{
    BuildConfig, BuildConfigView, CodecPolicy, CommandSpec, CommandSpecView, DecodeError,
    DecodeErrorView, DevContainer, DevContainerView, DockerComposeFile, DockerComposeFileView,
    LifecycleCommand, LifecycleCommandView, MountSpec, MountSpecView, PortAttributes,
    PortAttributesView, PortSpec, PortSpecView, ServicePort, ServicePortView, ShutdownAction,
};
