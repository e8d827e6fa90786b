use vstd::prelude::*;
use crate::json::{JsonValue, JsonView, lemma_view_obj};
use crate::decode::{
    decode_attrs, decode_attrs_map_obj, decode_build, decode_mounts_arr, spec_attrs,
    spec_attrs_map_obj, spec_build, spec_mounts_arr,
};
use crate::decode_values::{
    decode_bool, decode_compose, decode_json_map, decode_lifecycle, decode_ports_arr,
    decode_shutdown, decode_str, decode_str_arr, decode_str_map_obj, mismatch, mk_mismatch,
    spec_bool, spec_compose, spec_json_map, spec_lifecycle, spec_ports_arr, spec_shutdown,
    spec_str, spec_str_arr, spec_str_map_obj,
};
use crate::model::{CodecPolicy, DecodeError, DecodeErrorView, DevContainer, DevContainerView};
use crate::util::{res_view, str_eq};

verus! {

// ---------------------------------------------------------------------------
// Decoding of the root document object: the recognized field names, the
// per-member dispatch, and the member-by-member fold over the document.
// ---------------------------------------------------------------------------

/// Whether `name` is a field name of the recognized schema under the
/// policy `p`.
pub open spec fn recognized(name: Seq<char>, p: CodecPolicy) -> bool {
    ||| name == "name"@
    ||| name == "image"@
    ||| name == "dockerFile"@
    ||| name == "build"@
    ||| name == "features"@
    ||| (p.vscode && name == "extensions"@)
    ||| (p.vscode && name == "settings"@)
    ||| name == "forwardPorts"@
    ||| name == "portsAttributes"@
    ||| name == "otherPortsAttributes"@
    ||| name == "containerEnv"@
    ||| name == "remoteEnv"@
    ||| name == "remoteUser"@
    ||| name == "containerUser"@
    ||| name == "workspaceFolder"@
    ||| name == "postCreateCommand"@
    ||| name == "postStartCommand"@
    ||| name == "postAttachCommand"@
    ||| name == "customizations"@
    ||| name == "init"@
    ||| name == "privileged"@
    ||| name == "overrideCommand"@
    ||| name == "shutdownAction"@
    ||| name == "mounts"@
    ||| name == "runArgs"@
    ||| (p.docker_compose && name == "dockerComposeFile"@)
    ||| (p.docker_compose && name == "service"@)
    ||| name == "workspaceMount"@
}

/// Whether `name` is a field name of the recognized schema under the
/// policy `p`.
pub(crate) fn is_recognized(name: &str, p: CodecPolicy) -> (r: bool)
    ensures
        r == recognized(name@, p),
{
    str_eq(name, "name")
        || str_eq(name, "image")
        || str_eq(name, "dockerFile")
        || str_eq(name, "build")
        || str_eq(name, "features")
        || (p.vscode && str_eq(name, "extensions"))
        || (p.vscode && str_eq(name, "settings"))
        || str_eq(name, "forwardPorts")
        || str_eq(name, "portsAttributes")
        || str_eq(name, "otherPortsAttributes")
        || str_eq(name, "containerEnv")
        || str_eq(name, "remoteEnv")
        || str_eq(name, "remoteUser")
        || str_eq(name, "containerUser")
        || str_eq(name, "workspaceFolder")
        || str_eq(name, "postCreateCommand")
        || str_eq(name, "postStartCommand")
        || str_eq(name, "postAttachCommand")
        || str_eq(name, "customizations")
        || str_eq(name, "init")
        || str_eq(name, "privileged")
        || str_eq(name, "overrideCommand")
        || str_eq(name, "shutdownAction")
        || str_eq(name, "mounts")
        || str_eq(name, "runArgs")
        || (p.docker_compose && str_eq(name, "dockerComposeFile"))
        || (p.docker_compose && str_eq(name, "service"))
        || str_eq(name, "workspaceMount")
}

/// One member applied to a configuration under construction: an
/// unrecognized name is captured or refused by the policy; a recognized
/// name sets its field from its decoded value.
pub open spec fn spec_field(
    p: CodecPolicy,
    acc: DevContainerView,
    name: Seq<char>,
    v: JsonView,
) -> Result<DevContainerView, DecodeErrorView> {
    if !recognized(name, p) {
        if p.allow_unknown_fields {
            Ok(
                DevContainerView {
                    additional_fields: acc.additional_fields.push((name, v)),
                    ..acc
                },
            )
        } else {
            Err(DecodeErrorView::UnrecognizedField { field: name })
        }
    } else if name == "name"@ {
        match spec_str("name"@, v) {
            Ok(x) => Ok(DevContainerView { name: Some(x), ..acc }),
            Err(e) => Err(e),
        }
    } else if name == "image"@ {
        match spec_str("image"@, v) {
            Ok(x) => Ok(DevContainerView { image: Some(x), ..acc }),
            Err(e) => Err(e),
        }
    } else if name == "dockerFile"@ {
        match spec_str("dockerFile"@, v) {
            Ok(x) => Ok(DevContainerView { docker_file: Some(x), ..acc }),
            Err(e) => Err(e),
        }
    } else if name == "build"@ {
        match spec_build(p, v) {
            Ok(x) => Ok(DevContainerView { build: Some(x), ..acc }),
            Err(e) => Err(e),
        }
    } else if name == "features"@ {
        match spec_json_map("features"@, v) {
            Ok(x) => Ok(DevContainerView { features: Some(x), ..acc }),
            Err(e) => Err(e),
        }
    } else if name == "extensions"@ {
        match spec_str_arr("extensions"@, v) {
            Ok(x) => Ok(DevContainerView { extensions: Some(x), ..acc }),
            Err(e) => Err(e),
        }
    } else if name == "settings"@ {
        match spec_json_map("settings"@, v) {
            Ok(x) => Ok(DevContainerView { settings: Some(x), ..acc }),
            Err(e) => Err(e),
        }
    } else if name == "forwardPorts"@ {
        match spec_ports_arr(v) {
            Ok(x) => Ok(DevContainerView { forward_ports: Some(x), ..acc }),
            Err(e) => Err(e),
        }
    } else if name == "portsAttributes"@ {
        match spec_attrs_map_obj(p, v) {
            Ok(x) => Ok(DevContainerView { ports_attributes: Some(x), ..acc }),
            Err(e) => Err(e),
        }
    } else if name == "otherPortsAttributes"@ {
        match spec_attrs(p, "otherPortsAttributes"@, v) {
            Ok(x) => Ok(DevContainerView { other_ports_attributes: Some(x), ..acc }),
            Err(e) => Err(e),
        }
    } else if name == "containerEnv"@ {
        match spec_str_map_obj("containerEnv"@, v) {
            Ok(x) => Ok(DevContainerView { container_env: Some(x), ..acc }),
            Err(e) => Err(e),
        }
    } else if name == "remoteEnv"@ {
        match spec_str_map_obj("remoteEnv"@, v) {
            Ok(x) => Ok(DevContainerView { remote_env: Some(x), ..acc }),
            Err(e) => Err(e),
        }
    } else if name == "remoteUser"@ {
        match spec_str("remoteUser"@, v) {
            Ok(x) => Ok(DevContainerView { remote_user: Some(x), ..acc }),
            Err(e) => Err(e),
        }
    } else if name == "containerUser"@ {
        match spec_str("containerUser"@, v) {
            Ok(x) => Ok(DevContainerView { container_user: Some(x), ..acc }),
            Err(e) => Err(e),
        }
    } else if name == "workspaceFolder"@ {
        match spec_str("workspaceFolder"@, v) {
            Ok(x) => Ok(DevContainerView { workspace_folder: Some(x), ..acc }),
            Err(e) => Err(e),
        }
    } else if name == "postCreateCommand"@ {
        match spec_lifecycle("postCreateCommand"@, v) {
            Ok(x) => Ok(DevContainerView { post_create_command: Some(x), ..acc }),
            Err(e) => Err(e),
        }
    } else if name == "postStartCommand"@ {
        match spec_lifecycle("postStartCommand"@, v) {
            Ok(x) => Ok(DevContainerView { post_start_command: Some(x), ..acc }),
            Err(e) => Err(e),
        }
    } else if name == "postAttachCommand"@ {
        match spec_lifecycle("postAttachCommand"@, v) {
            Ok(x) => Ok(DevContainerView { post_attach_command: Some(x), ..acc }),
            Err(e) => Err(e),
        }
    } else if name == "customizations"@ {
        match spec_json_map("customizations"@, v) {
            Ok(x) => Ok(DevContainerView { customizations: Some(x), ..acc }),
            Err(e) => Err(e),
        }
    } else if name == "init"@ {
        match spec_bool("init"@, v) {
            Ok(x) => Ok(DevContainerView { init: Some(x), ..acc }),
            Err(e) => Err(e),
        }
    } else if name == "privileged"@ {
        match spec_bool("privileged"@, v) {
            Ok(x) => Ok(DevContainerView { privileged: Some(x), ..acc }),
            Err(e) => Err(e),
        }
    } else if name == "overrideCommand"@ {
        match spec_bool("overrideCommand"@, v) {
            Ok(x) => Ok(DevContainerView { override_command: Some(x), ..acc }),
            Err(e) => Err(e),
        }
    } else if name == "shutdownAction"@ {
        match spec_shutdown(v) {
            Ok(x) => Ok(DevContainerView { shutdown_action: Some(x), ..acc }),
            Err(e) => Err(e),
        }
    } else if name == "mounts"@ {
        match spec_mounts_arr(p, v) {
            Ok(x) => Ok(DevContainerView { mounts: Some(x), ..acc }),
            Err(e) => Err(e),
        }
    } else if name == "runArgs"@ {
        match spec_str_arr("runArgs"@, v) {
            Ok(x) => Ok(DevContainerView { run_args: Some(x), ..acc }),
            Err(e) => Err(e),
        }
    } else if name == "dockerComposeFile"@ {
        match spec_compose("dockerComposeFile"@, v) {
            Ok(x) => Ok(DevContainerView { docker_compose_file: Some(x), ..acc }),
            Err(e) => Err(e),
        }
    } else if name == "service"@ {
        match spec_str("service"@, v) {
            Ok(x) => Ok(DevContainerView { service: Some(x), ..acc }),
            Err(e) => Err(e),
        }
    } else {
        match spec_str("workspaceMount"@, v) {
            Ok(x) => Ok(DevContainerView { workspace_mount: Some(x), ..acc }),
            Err(e) => Err(e),
        }
    }
}

/// Applies one member to a configuration under construction.
fn apply_field(p: CodecPolicy, acc: DevContainer, name: String, v: JsonValue) -> (r: Result<
    DevContainer,
    DecodeError,
>)
    ensures
        res_view(r) == spec_field(p, acc.deep_view(), name@, v.deep_view()),
{
    let mut a = acc;
    if !is_recognized(name.as_str(), p) {
        if p.allow_unknown_fields {
            let ghost pre = a.deep_view().additional_fields;
            a.additional_fields.push((name, v));
            proof {
                assert(a.deep_view().additional_fields =~= pre.push((name@, v.deep_view())));
            }
            Ok(a)
        } else {
            Err(DecodeError::UnrecognizedField { field: name })
        }
    } else if str_eq(name.as_str(), "name") {
        match decode_str("name", v) {
            Ok(x) => {
                a.name = Some(x);
                Ok(a)
            },
            Err(e) => Err(e),
        }
    } else if str_eq(name.as_str(), "image") {
        match decode_str("image", v) {
            Ok(x) => {
                a.image = Some(x);
                Ok(a)
            },
            Err(e) => Err(e),
        }
    } else if str_eq(name.as_str(), "dockerFile") {
        match decode_str("dockerFile", v) {
            Ok(x) => {
                a.docker_file = Some(x);
                Ok(a)
            },
            Err(e) => Err(e),
        }
    } else if str_eq(name.as_str(), "build") {
        match decode_build(p, v) {
            Ok(x) => {
                a.build = Some(x);
                Ok(a)
            },
            Err(e) => Err(e),
        }
    } else if str_eq(name.as_str(), "features") {
        match decode_json_map("features", v) {
            Ok(x) => {
                a.features = Some(x);
                Ok(a)
            },
            Err(e) => Err(e),
        }
    } else if str_eq(name.as_str(), "extensions") {
        match decode_str_arr("extensions", v) {
            Ok(x) => {
                a.extensions = Some(x);
                Ok(a)
            },
            Err(e) => Err(e),
        }
    } else if str_eq(name.as_str(), "settings") {
        match decode_json_map("settings", v) {
            Ok(x) => {
                a.settings = Some(x);
                Ok(a)
            },
            Err(e) => Err(e),
        }
    } else if str_eq(name.as_str(), "forwardPorts") {
        match decode_ports_arr(v) {
            Ok(x) => {
                a.forward_ports = Some(x);
                Ok(a)
            },
            Err(e) => Err(e),
        }
    } else if str_eq(name.as_str(), "portsAttributes") {
        match decode_attrs_map_obj(p, v) {
            Ok(x) => {
                a.ports_attributes = Some(x);
                Ok(a)
            },
            Err(e) => Err(e),
        }
    } else if str_eq(name.as_str(), "otherPortsAttributes") {
        match decode_attrs(p, "otherPortsAttributes", v) {
            Ok(x) => {
                a.other_ports_attributes = Some(x);
                Ok(a)
            },
            Err(e) => Err(e),
        }
    } else if str_eq(name.as_str(), "containerEnv") {
        match decode_str_map_obj("containerEnv", v) {
            Ok(x) => {
                a.container_env = Some(x);
                Ok(a)
            },
            Err(e) => Err(e),
        }
    } else if str_eq(name.as_str(), "remoteEnv") {
        match decode_str_map_obj("remoteEnv", v) {
            Ok(x) => {
                a.remote_env = Some(x);
                Ok(a)
            },
            Err(e) => Err(e),
        }
    } else if str_eq(name.as_str(), "remoteUser") {
        match decode_str("remoteUser", v) {
            Ok(x) => {
                a.remote_user = Some(x);
                Ok(a)
            },
            Err(e) => Err(e),
        }
    } else if str_eq(name.as_str(), "containerUser") {
        match decode_str("containerUser", v) {
            Ok(x) => {
                a.container_user = Some(x);
                Ok(a)
            },
            Err(e) => Err(e),
        }
    } else if str_eq(name.as_str(), "workspaceFolder") {
        match decode_str("workspaceFolder", v) {
            Ok(x) => {
                a.workspace_folder = Some(x);
                Ok(a)
            },
            Err(e) => Err(e),
        }
    } else if str_eq(name.as_str(), "postCreateCommand") {
        match decode_lifecycle("postCreateCommand", v) {
            Ok(x) => {
                a.post_create_command = Some(x);
                Ok(a)
            },
            Err(e) => Err(e),
        }
    } else if str_eq(name.as_str(), "postStartCommand") {
        match decode_lifecycle("postStartCommand", v) {
            Ok(x) => {
                a.post_start_command = Some(x);
                Ok(a)
            },
            Err(e) => Err(e),
        }
    } else if str_eq(name.as_str(), "postAttachCommand") {
        match decode_lifecycle("postAttachCommand", v) {
            Ok(x) => {
                a.post_attach_command = Some(x);
                Ok(a)
            },
            Err(e) => Err(e),
        }
    } else if str_eq(name.as_str(), "customizations") {
        match decode_json_map("customizations", v) {
            Ok(x) => {
                a.customizations = Some(x);
                Ok(a)
            },
            Err(e) => Err(e),
        }
    } else if str_eq(name.as_str(), "init") {
        match decode_bool("init", v) {
            Ok(x) => {
                a.init = Some(x);
                Ok(a)
            },
            Err(e) => Err(e),
        }
    } else if str_eq(name.as_str(), "privileged") {
        match decode_bool("privileged", v) {
            Ok(x) => {
                a.privileged = Some(x);
                Ok(a)
            },
            Err(e) => Err(e),
        }
    } else if str_eq(name.as_str(), "overrideCommand") {
        match decode_bool("overrideCommand", v) {
            Ok(x) => {
                a.override_command = Some(x);
                Ok(a)
            },
            Err(e) => Err(e),
        }
    } else if str_eq(name.as_str(), "shutdownAction") {
        match decode_shutdown(v) {
            Ok(x) => {
                a.shutdown_action = Some(x);
                Ok(a)
            },
            Err(e) => Err(e),
        }
    } else if str_eq(name.as_str(), "mounts") {
        match decode_mounts_arr(p, v) {
            Ok(x) => {
                a.mounts = Some(x);
                Ok(a)
            },
            Err(e) => Err(e),
        }
    } else if str_eq(name.as_str(), "runArgs") {
        match decode_str_arr("runArgs", v) {
            Ok(x) => {
                a.run_args = Some(x);
                Ok(a)
            },
            Err(e) => Err(e),
        }
    } else if str_eq(name.as_str(), "dockerComposeFile") {
        match decode_compose("dockerComposeFile", v) {
            Ok(x) => {
                a.docker_compose_file = Some(x);
                Ok(a)
            },
            Err(e) => Err(e),
        }
    } else if str_eq(name.as_str(), "service") {
        match decode_str("service", v) {
            Ok(x) => {
                a.service = Some(x);
                Ok(a)
            },
            Err(e) => Err(e),
        }
    } else {
        match decode_str("workspaceMount", v) {
            Ok(x) => {
                a.workspace_mount = Some(x);
                Ok(a)
            },
            Err(e) => Err(e),
        }
    }
}

/// The members of the document object applied in order.
pub open spec fn spec_fields(
    p: CodecPolicy,
    acc: DevContainerView,
    es: Seq<(Seq<char>, JsonView)>,
) -> Result<DevContainerView, DecodeErrorView>
    decreases es.len(),
{
    if es.len() == 0 {
        Ok(acc)
    } else {
        match spec_field(p, acc, es[0].0, es[0].1) {
            Ok(a) => spec_fields(p, a, es.drop_first()),
            Err(e) => Err(e),
        }
    }
}

/// What a whole document decodes to under the policy `p`: an object read
/// member by member from the all-absent configuration; any other kind of
/// root value is a mismatch.
pub open spec fn spec_decode(p: CodecPolicy, v: JsonView) -> Result<
    DevContainerView,
    DecodeErrorView,
> {
    match v {
        JsonView::Obj(es) => spec_fields(p, DevContainerView::empty(), es),
        _ => Err(mismatch(""@, "object"@)),
    }
}

impl DevContainer {
    /// Decodes a JSON document value into a configuration under the policy
    /// `p`.
    ///
    /// Fields absent from the document stay absent; a recognized field is
    /// set from its decoded value; an unrecognized field fails the decode
    /// under the strict policy and is captured into `additional_fields`
    /// under the permissive one. The first offending member in document
    /// order decides the error.
    #[verifier::loop_isolation(false)]
    pub fn decode(p: CodecPolicy, v: JsonValue) -> (r: Result<DevContainer, DecodeError>)
        ensures
            res_view(r) == spec_decode(p, v.deep_view()),
    {
        match v {
            JsonValue::Obj(m) => {
                proof {
                    lemma_view_obj(m);
                }
                let mut acc = DevContainer::default();
                let mut rest = m;
                let ghost target = spec_fields(p, acc.deep_view(), rest.deep_view());
                while rest.len() > 0
                    invariant
                        spec_fields(p, acc.deep_view(), rest.deep_view()) == target,
                    decreases rest.len(),
                {
                    let ghost pre = rest.deep_view();
                    let e = rest.remove(0);
                    proof {
                        assert(e.deep_view() == pre[0]);
                        assert(rest.deep_view() =~= pre.drop_first());
                    }
                    let (k, val) = e;
                    match apply_field(p, acc, k, val) {
                        Ok(a) => {
                            acc = a;
                        },
                        Err(err) => {
                            return Err(err);
                        },
                    }
                }
                Ok(acc)
            },
            _ => Err(mk_mismatch("", "object")),
        }
    }
}

} // verus!
