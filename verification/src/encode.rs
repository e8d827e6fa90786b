use vstd::prelude::*;
use crate::json::{JsonValue, JsonView, lemma_view_arr, lemma_view_obj};
use crate::model::{
    BuildConfig, BuildConfigView, CommandSpec, CommandSpecView, DevContainer, DevContainerView,
    DockerComposeFile, DockerComposeFileView, LifecycleCommand, LifecycleCommandView, MountSpec,
    MountSpecView, PortAttributes, PortAttributesView, PortSpec, PortSpecView, ShutdownAction,
};
use crate::service_port::format_service_port;

verus! {

// ---------------------------------------------------------------------------
// Encoding of a configuration into a JSON document value. Exactly the
// present fields are emitted, in the declaration order of the schema, each
// in its canonical form; captured unrecognized fields come last, in the
// order they are held.
// ---------------------------------------------------------------------------

/// The members an optional field contributes: one when it is present,
/// none when it is absent.
pub open spec fn opt_entry<T>(name: Seq<char>, o: Option<T>, f: spec_fn(T) -> JsonView) -> Seq<
    (Seq<char>, JsonView),
> {
    match o {
        Some(x) => seq![(name, f(x))],
        None => Seq::empty(),
    }
}

/// A list of strings as a JSON array of strings.
pub open spec fn enc_str_list(ts: Seq<Seq<char>>) -> JsonView {
    JsonView::Arr(ts.map_values(|t: Seq<char>| JsonView::Str(t)))
}

/// A map of strings as a JSON object of string members.
pub open spec fn enc_str_map(m: Seq<(Seq<char>, Seq<char>)>) -> JsonView {
    JsonView::Obj(m.map_values(|kv: (Seq<char>, Seq<char>)| (kv.0, JsonView::Str(kv.1))))
}

/// One port-forwarding entry: a bare number, or the canonical
/// `"service:port"` string.
pub open spec fn enc_port(x: PortSpecView) -> JsonView {
    match x {
        PortSpecView::Number(n) => JsonView::Int(n as i64),
        PortSpecView::Service(sp) => JsonView::Str(format_service_port(sp)),
    }
}

/// The port-forwarding list as a JSON array.
pub open spec fn enc_ports(ps: Seq<PortSpecView>) -> JsonView {
    JsonView::Arr(ps.map_values(|x: PortSpecView| enc_port(x)))
}

/// A command: its shell string, or its argument array.
pub open spec fn enc_command(c: CommandSpecView) -> JsonView {
    match c {
        CommandSpecView::Shell(s) => JsonView::Str(s),
        CommandSpecView::Args(ts) => enc_str_list(ts),
    }
}

/// A lifecycle command: a single command, or an object of named commands.
pub open spec fn enc_lifecycle(l: LifecycleCommandView) -> JsonView {
    match l {
        LifecycleCommandView::Command(c) => enc_command(c),
        LifecycleCommandView::Object(m) => JsonView::Obj(
            m.map_values(|kv: (Seq<char>, CommandSpecView)| (kv.0, enc_command(kv.1))),
        ),
    }
}

/// The shutdown action under its declared wire name.
pub open spec fn enc_shutdown(a: ShutdownAction) -> JsonView {
    match a {
        ShutdownAction::NoAction => JsonView::Str("none"@),
        ShutdownAction::StopContainer => JsonView::Str("stopContainer"@),
        ShutdownAction::StopCompose => JsonView::Str("stopCompose"@),
    }
}

/// A compose-file reference: one path, or an array of paths.
pub open spec fn enc_compose(d: DockerComposeFileView) -> JsonView {
    match d {
        DockerComposeFileView::Path(s) => JsonView::Str(s),
        DockerComposeFileView::Paths(ts) => enc_str_list(ts),
    }
}

/// The members of a port-attributes object, present fields first in
/// declaration order, captured fields last.
pub open spec fn enc_attr_fields(a: PortAttributesView) -> Seq<(Seq<char>, JsonView)> {
    opt_entry("label"@, a.label, |s: Seq<char>| JsonView::Str(s)) + opt_entry(
        "protocol"@,
        a.protocol,
        |s: Seq<char>| JsonView::Str(s),
    ) + opt_entry("onAutoForward"@, a.on_auto_forward, |s: Seq<char>| JsonView::Str(s)) + opt_entry(
        "requireLocalPort"@,
        a.require_local_port,
        |b: bool| JsonView::Bool(b),
    ) + opt_entry("elevateIfNeeded"@, a.elevate_if_needed, |b: bool| JsonView::Bool(b))
        + a.additional_fields
}

/// A port-attributes value as a JSON object.
pub open spec fn enc_attrs(a: PortAttributesView) -> JsonView {
    JsonView::Obj(enc_attr_fields(a))
}

/// The per-port attributes map as a JSON object of objects.
pub open spec fn enc_attrs_map(m: Seq<(Seq<char>, PortAttributesView)>) -> JsonView {
    JsonView::Obj(m.map_values(|kv: (Seq<char>, PortAttributesView)| (kv.0, enc_attrs(kv.1))))
}

/// The members of a mount object, present fields first in declaration
/// order, captured fields last.
pub open spec fn enc_mount_fields(a: MountSpecView) -> Seq<(Seq<char>, JsonView)> {
    opt_entry("source"@, a.source, |s: Seq<char>| JsonView::Str(s)) + opt_entry(
        "target"@,
        a.target,
        |s: Seq<char>| JsonView::Str(s),
    ) + opt_entry("type"@, a.mount_type, |s: Seq<char>| JsonView::Str(s)) + a.additional_fields
}

/// A mount as a JSON object.
pub open spec fn enc_mount(a: MountSpecView) -> JsonView {
    JsonView::Obj(enc_mount_fields(a))
}

/// The mounts list as a JSON array of objects.
pub open spec fn enc_mounts(ms: Seq<MountSpecView>) -> JsonView {
    JsonView::Arr(ms.map_values(|x: MountSpecView| enc_mount(x)))
}

/// The members of a build object, present fields first in declaration
/// order, captured fields last.
pub open spec fn enc_build_fields(b: BuildConfigView) -> Seq<(Seq<char>, JsonView)> {
    opt_entry("dockerfile"@, b.dockerfile, |s: Seq<char>| JsonView::Str(s)) + opt_entry(
        "context"@,
        b.context,
        |s: Seq<char>| JsonView::Str(s),
    ) + opt_entry("args"@, b.args, |m: Seq<(Seq<char>, Seq<char>)>| enc_str_map(m)) + opt_entry(
        "target"@,
        b.target,
        |s: Seq<char>| JsonView::Str(s),
    ) + opt_entry("cacheFrom"@, b.cache_from, |ts: Seq<Seq<char>>| enc_str_list(ts))
        + b.additional_fields
}

/// The build instructions as a JSON object.
pub open spec fn enc_build(b: BuildConfigView) -> JsonView {
    JsonView::Obj(enc_build_fields(b))
}

/// One quarter of the document members, in declaration order.
pub open spec fn spec_encode_fields_a(c: DevContainerView) -> Seq<(Seq<char>, JsonView)> {
    opt_entry("name"@, c.name, |s: Seq<char>| JsonView::Str(s))
        + opt_entry("image"@, c.image, |s: Seq<char>| JsonView::Str(s))
        + opt_entry("dockerFile"@, c.docker_file, |s: Seq<char>| JsonView::Str(s))
        + opt_entry("build"@, c.build, |b: BuildConfigView| enc_build(b))
        + opt_entry("features"@, c.features, |m: Seq<(Seq<char>, JsonView)>| JsonView::Obj(m))
        + opt_entry("extensions"@, c.extensions, |ts: Seq<Seq<char>>| enc_str_list(ts))
        + opt_entry("settings"@, c.settings, |m: Seq<(Seq<char>, JsonView)>| JsonView::Obj(m))
}

/// One quarter of the document members, in declaration order.
pub open spec fn spec_encode_fields_b(c: DevContainerView) -> Seq<(Seq<char>, JsonView)> {
    opt_entry("forwardPorts"@, c.forward_ports, |ps: Seq<PortSpecView>| enc_ports(ps))
        + opt_entry("portsAttributes"@, c.ports_attributes, |m: Seq<(Seq<char>, PortAttributesView)>| enc_attrs_map(m))
        + opt_entry("otherPortsAttributes"@, c.other_ports_attributes, |a: PortAttributesView| enc_attrs(a))
        + opt_entry("containerEnv"@, c.container_env, |m: Seq<(Seq<char>, Seq<char>)>| enc_str_map(m))
        + opt_entry("remoteEnv"@, c.remote_env, |m: Seq<(Seq<char>, Seq<char>)>| enc_str_map(m))
        + opt_entry("remoteUser"@, c.remote_user, |s: Seq<char>| JsonView::Str(s))
        + opt_entry("containerUser"@, c.container_user, |s: Seq<char>| JsonView::Str(s))
}

/// One quarter of the document members, in declaration order.
pub open spec fn spec_encode_fields_c(c: DevContainerView) -> Seq<(Seq<char>, JsonView)> {
    opt_entry("workspaceFolder"@, c.workspace_folder, |s: Seq<char>| JsonView::Str(s))
        + opt_entry("postCreateCommand"@, c.post_create_command, |l: LifecycleCommandView| enc_lifecycle(l))
        + opt_entry("postStartCommand"@, c.post_start_command, |l: LifecycleCommandView| enc_lifecycle(l))
        + opt_entry("postAttachCommand"@, c.post_attach_command, |l: LifecycleCommandView| enc_lifecycle(l))
        + opt_entry("customizations"@, c.customizations, |m: Seq<(Seq<char>, JsonView)>| JsonView::Obj(m))
        + opt_entry("init"@, c.init, |b: bool| JsonView::Bool(b))
        + opt_entry("privileged"@, c.privileged, |b: bool| JsonView::Bool(b))
}

/// One quarter of the document members, in declaration order.
pub open spec fn spec_encode_fields_d(c: DevContainerView) -> Seq<(Seq<char>, JsonView)> {
    opt_entry("overrideCommand"@, c.override_command, |b: bool| JsonView::Bool(b))
        + opt_entry("shutdownAction"@, c.shutdown_action, |a: ShutdownAction| enc_shutdown(a))
        + opt_entry("mounts"@, c.mounts, |ms: Seq<MountSpecView>| enc_mounts(ms))
        + opt_entry("runArgs"@, c.run_args, |ts: Seq<Seq<char>>| enc_str_list(ts))
        + opt_entry("dockerComposeFile"@, c.docker_compose_file, |d: DockerComposeFileView| enc_compose(d))
        + opt_entry("service"@, c.service, |s: Seq<char>| JsonView::Str(s))
        + opt_entry("workspaceMount"@, c.workspace_mount, |s: Seq<char>| JsonView::Str(s))
}

/// The members of the whole document: exactly the present fields, in the
/// declaration order of the schema, then the captured unrecognized fields
/// in the order they are held.
pub open spec fn spec_encode_fields(c: DevContainerView) -> Seq<(Seq<char>, JsonView)> {
    spec_encode_fields_a(c) + spec_encode_fields_b(c) + spec_encode_fields_c(c)
        + spec_encode_fields_d(c) + c.additional_fields
}

/// A whole configuration as a JSON document value.
pub open spec fn spec_encode(c: DevContainerView) -> JsonView {
    JsonView::Obj(spec_encode_fields(c))
}



/// The members of a named-command object.
pub open spec fn enc_command_obj(m: Seq<(Seq<char>, CommandSpecView)>) -> JsonView {
    JsonView::Obj(m.map_values(|kv: (Seq<char>, CommandSpecView)| (kv.0, enc_command(kv.1))))
}

/// Encodes a list as a JSON array.
#[verifier::loop_isolation(false)]
fn encode_str_vec(xs: Vec<String>) -> (r: JsonValue)
    ensures
        r.deep_view() == enc_str_list(xs.deep_view()),
{
    let ghost xv = xs.deep_view();
    let mut out: Vec<JsonValue> = Vec::new();
    let mut rest = xs;
    let ghost mut k: int = 0;
    while rest.len() > 0
        invariant
            0 <= k <= xv.len(),
            rest.deep_view() =~= xv.skip(k),
            out.deep_view() =~= xv.take(k).map_values(|t: Seq<char>| JsonView::Str(t)),
        decreases rest.len(),
    {
        let ghost pre = rest.deep_view();
        let e = rest.remove(0);
        proof {
            assert(xv.skip(k)[0] == xv[k]);
            assert(e.deep_view() == xv[k]);
            assert(rest.deep_view() =~= pre.drop_first());
        }
        let ghost preout = out.deep_view();
        let enc = JsonValue::Str(e);
        out.push(enc);
        proof {
            k = k + 1;
            assert(out.deep_view() =~= preout.push(enc.deep_view()));
            assert(xv.take(k) =~= xv.take(k - 1).push(xv[k - 1]));
            assert(rest.deep_view() =~= xv.skip(k));
            assert(out.deep_view() =~= xv.take(k).map_values(|t: Seq<char>| JsonView::Str(t)));
        }
    }
    proof {
        assert(xv.take(k) =~= xv);
        lemma_view_arr(out);
        assert(out.deep_view() =~= xv.map_values(|t: Seq<char>| JsonView::Str(t)));
    }
    JsonValue::Arr(out)
}

/// Encodes a map as a JSON object.
#[verifier::loop_isolation(false)]
fn encode_str_map_v(xs: Vec<(String, String)>) -> (r: JsonValue)
    ensures
        r.deep_view() == enc_str_map(xs.deep_view()),
{
    let ghost xv = xs.deep_view();
    let mut out: Vec<(String, JsonValue)> = Vec::new();
    let mut rest = xs;
    let ghost mut k: int = 0;
    while rest.len() > 0
        invariant
            0 <= k <= xv.len(),
            rest.deep_view() =~= xv.skip(k),
            out.deep_view() =~= xv.take(k).map_values(|kv: (Seq<char>, Seq<char>)| (kv.0, JsonView::Str(kv.1))),
        decreases rest.len(),
    {
        let ghost pre = rest.deep_view();
        let e = rest.remove(0);
        proof {
            assert(xv.skip(k)[0] == xv[k]);
            assert(e.deep_view() == xv[k]);
            assert(rest.deep_view() =~= pre.drop_first());
        }
        let ghost preout = out.deep_view();
        let (key, v) = e;
        let enc = JsonValue::Str(v);
        out.push((key, enc));
        proof {
            k = k + 1;
            assert(out.deep_view() =~= preout.push((key@, enc.deep_view())));
            assert(xv.take(k) =~= xv.take(k - 1).push(xv[k - 1]));
            assert(rest.deep_view() =~= xv.skip(k));
            assert(out.deep_view() =~= xv.take(k).map_values(|kv: (Seq<char>, Seq<char>)| (kv.0, JsonView::Str(kv.1))));
        }
    }
    proof {
        assert(xv.take(k) =~= xv);
        lemma_view_obj(out);
        assert(out.deep_view() =~= xv.map_values(|kv: (Seq<char>, Seq<char>)| (kv.0, JsonView::Str(kv.1))));
    }
    JsonValue::Obj(out)
}

/// Encodes a list as a JSON array.
#[verifier::loop_isolation(false)]
fn encode_ports_v(xs: Vec<PortSpec>) -> (r: JsonValue)
    ensures
        r.deep_view() == enc_ports(xs.deep_view()),
{
    let ghost xv = xs.deep_view();
    let mut out: Vec<JsonValue> = Vec::new();
    let mut rest = xs;
    let ghost mut k: int = 0;
    while rest.len() > 0
        invariant
            0 <= k <= xv.len(),
            rest.deep_view() =~= xv.skip(k),
            out.deep_view() =~= xv.take(k).map_values(|x: PortSpecView| enc_port(x)),
        decreases rest.len(),
    {
        let ghost pre = rest.deep_view();
        let e = rest.remove(0);
        proof {
            assert(xv.skip(k)[0] == xv[k]);
            assert(e.deep_view() == xv[k]);
            assert(rest.deep_view() =~= pre.drop_first());
        }
        let ghost preout = out.deep_view();
        let enc = match e {
            PortSpec::Number(n) => JsonValue::Int(n as i64),
            PortSpec::Service(sp) => JsonValue::Str(sp.format()),
        };
        out.push(enc);
        proof {
            k = k + 1;
            assert(out.deep_view() =~= preout.push(enc.deep_view()));
            assert(xv.take(k) =~= xv.take(k - 1).push(xv[k - 1]));
            assert(rest.deep_view() =~= xv.skip(k));
            assert(out.deep_view() =~= xv.take(k).map_values(|x: PortSpecView| enc_port(x)));
        }
    }
    proof {
        assert(xv.take(k) =~= xv);
        lemma_view_arr(out);
        assert(out.deep_view() =~= xv.map_values(|x: PortSpecView| enc_port(x)));
    }
    JsonValue::Arr(out)
}

/// Encodes a command: its shell string, or its argument array.
fn encode_command_v(c: CommandSpec) -> (r: JsonValue)
    ensures
        r.deep_view() == enc_command(c.deep_view()),
{
    match c {
        CommandSpec::Shell(s) => JsonValue::Str(s),
        CommandSpec::Args(ts) => encode_str_vec(ts),
    }
}

/// Encodes a map as a JSON object.
#[verifier::loop_isolation(false)]
fn encode_command_map_v(xs: Vec<(String, CommandSpec)>) -> (r: JsonValue)
    ensures
        r.deep_view() == enc_command_obj(xs.deep_view()),
{
    let ghost xv = xs.deep_view();
    let mut out: Vec<(String, JsonValue)> = Vec::new();
    let mut rest = xs;
    let ghost mut k: int = 0;
    while rest.len() > 0
        invariant
            0 <= k <= xv.len(),
            rest.deep_view() =~= xv.skip(k),
            out.deep_view() =~= xv.take(k).map_values(|kv: (Seq<char>, CommandSpecView)| (kv.0, enc_command(kv.1))),
        decreases rest.len(),
    {
        let ghost pre = rest.deep_view();
        let e = rest.remove(0);
        proof {
            assert(xv.skip(k)[0] == xv[k]);
            assert(e.deep_view() == xv[k]);
            assert(rest.deep_view() =~= pre.drop_first());
        }
        let ghost preout = out.deep_view();
        let (key, v) = e;
        let enc = encode_command_v(v);
        out.push((key, enc));
        proof {
            k = k + 1;
            assert(out.deep_view() =~= preout.push((key@, enc.deep_view())));
            assert(xv.take(k) =~= xv.take(k - 1).push(xv[k - 1]));
            assert(rest.deep_view() =~= xv.skip(k));
            assert(out.deep_view() =~= xv.take(k).map_values(|kv: (Seq<char>, CommandSpecView)| (kv.0, enc_command(kv.1))));
        }
    }
    proof {
        assert(xv.take(k) =~= xv);
        lemma_view_obj(out);
        assert(out.deep_view() =~= xv.map_values(|kv: (Seq<char>, CommandSpecView)| (kv.0, enc_command(kv.1))));
    }
    JsonValue::Obj(out)
}

/// Encodes a lifecycle command.
fn encode_lifecycle_v(l: LifecycleCommand) -> (r: JsonValue)
    ensures
        r.deep_view() == enc_lifecycle(l.deep_view()),
{
    match l {
        LifecycleCommand::Command(c) => encode_command_v(c),
        LifecycleCommand::Object(m) => encode_command_map_v(m),
    }
}

/// Encodes the shutdown action under its declared wire name.
fn encode_shutdown_v(a: ShutdownAction) -> (r: JsonValue)
    ensures
        r.deep_view() == enc_shutdown(a),
{
    match a {
        ShutdownAction::NoAction => JsonValue::Str(String::from_str("none")),
        ShutdownAction::StopContainer => JsonValue::Str(String::from_str("stopContainer")),
        ShutdownAction::StopCompose => JsonValue::Str(String::from_str("stopCompose")),
    }
}

/// Encodes a compose-file reference.
fn encode_compose_v(d: DockerComposeFile) -> (r: JsonValue)
    ensures
        r.deep_view() == enc_compose(d.deep_view()),
{
    match d {
        DockerComposeFile::Path(s) => JsonValue::Str(s),
        DockerComposeFile::Paths(ts) => encode_str_vec(ts),
    }
}

/// Encodes one value as a JSON object: present fields first, in
/// declaration order, captured fields last.
fn encode_attrs_v(a: PortAttributes) -> (r: JsonValue)
    ensures
        r.deep_view() == enc_attrs(a.deep_view()),
{
    let ghost av = a.deep_view();
    let PortAttributes { label, protocol, on_auto_forward, require_local_port, elevate_if_needed, additional_fields } = a;
    let mut es: Vec<(String, JsonValue)> = Vec::new();
    let ghost mut built: Seq<(Seq<char>, JsonView)> = Seq::empty();
    proof {
        assert(es.deep_view() =~= built);
    }
    match label {
        Some(x) => {
            es.push((String::from_str("label"), JsonValue::Str(x)));
        },
        None => {},
    }
    proof {
        built = built + opt_entry("label"@, av.label, |s: Seq<char>| JsonView::Str(s));
        assert(es.deep_view() =~= built);
    }
    match protocol {
        Some(x) => {
            es.push((String::from_str("protocol"), JsonValue::Str(x)));
        },
        None => {},
    }
    proof {
        built = built + opt_entry("protocol"@, av.protocol, |s: Seq<char>| JsonView::Str(s));
        assert(es.deep_view() =~= built);
    }
    match on_auto_forward {
        Some(x) => {
            es.push((String::from_str("onAutoForward"), JsonValue::Str(x)));
        },
        None => {},
    }
    proof {
        built = built + opt_entry("onAutoForward"@, av.on_auto_forward, |s: Seq<char>| JsonView::Str(s));
        assert(es.deep_view() =~= built);
    }
    match require_local_port {
        Some(x) => {
            es.push((String::from_str("requireLocalPort"), JsonValue::Bool(x)));
        },
        None => {},
    }
    proof {
        built = built + opt_entry("requireLocalPort"@, av.require_local_port, |b: bool| JsonView::Bool(b));
        assert(es.deep_view() =~= built);
    }
    match elevate_if_needed {
        Some(x) => {
            es.push((String::from_str("elevateIfNeeded"), JsonValue::Bool(x)));
        },
        None => {},
    }
    proof {
        built = built + opt_entry("elevateIfNeeded"@, av.elevate_if_needed, |b: bool| JsonView::Bool(b));
        assert(es.deep_view() =~= built);
    }
    let mut add = additional_fields;
    es.append(&mut add);
    proof {
        built = built + av.additional_fields;
        assert(es.deep_view() =~= built);
        assert(built =~= enc_attr_fields(av));
        lemma_view_obj(es);
    }
    JsonValue::Obj(es)
}

/// Encodes a map as a JSON object.
#[verifier::loop_isolation(false)]
fn encode_attrs_map_v(xs: Vec<(String, PortAttributes)>) -> (r: JsonValue)
    ensures
        r.deep_view() == enc_attrs_map(xs.deep_view()),
{
    let ghost xv = xs.deep_view();
    let mut out: Vec<(String, JsonValue)> = Vec::new();
    let mut rest = xs;
    let ghost mut k: int = 0;
    while rest.len() > 0
        invariant
            0 <= k <= xv.len(),
            rest.deep_view() =~= xv.skip(k),
            out.deep_view() =~= xv.take(k).map_values(|kv: (Seq<char>, PortAttributesView)| (kv.0, enc_attrs(kv.1))),
        decreases rest.len(),
    {
        let ghost pre = rest.deep_view();
        let e = rest.remove(0);
        proof {
            assert(xv.skip(k)[0] == xv[k]);
            assert(e.deep_view() == xv[k]);
            assert(rest.deep_view() =~= pre.drop_first());
        }
        let ghost preout = out.deep_view();
        let (key, v) = e;
        let enc = encode_attrs_v(v);
        out.push((key, enc));
        proof {
            k = k + 1;
            assert(out.deep_view() =~= preout.push((key@, enc.deep_view())));
            assert(xv.take(k) =~= xv.take(k - 1).push(xv[k - 1]));
            assert(rest.deep_view() =~= xv.skip(k));
            assert(out.deep_view() =~= xv.take(k).map_values(|kv: (Seq<char>, PortAttributesView)| (kv.0, enc_attrs(kv.1))));
        }
    }
    proof {
        assert(xv.take(k) =~= xv);
        lemma_view_obj(out);
        assert(out.deep_view() =~= xv.map_values(|kv: (Seq<char>, PortAttributesView)| (kv.0, enc_attrs(kv.1))));
    }
    JsonValue::Obj(out)
}

/// Encodes one value as a JSON object: present fields first, in
/// declaration order, captured fields last.
fn encode_mount_v(a: MountSpec) -> (r: JsonValue)
    ensures
        r.deep_view() == enc_mount(a.deep_view()),
{
    let ghost av = a.deep_view();
    let MountSpec { source, target, mount_type, additional_fields } = a;
    let mut es: Vec<(String, JsonValue)> = Vec::new();
    let ghost mut built: Seq<(Seq<char>, JsonView)> = Seq::empty();
    proof {
        assert(es.deep_view() =~= built);
    }
    match source {
        Some(x) => {
            es.push((String::from_str("source"), JsonValue::Str(x)));
        },
        None => {},
    }
    proof {
        built = built + opt_entry("source"@, av.source, |s: Seq<char>| JsonView::Str(s));
        assert(es.deep_view() =~= built);
    }
    match target {
        Some(x) => {
            es.push((String::from_str("target"), JsonValue::Str(x)));
        },
        None => {},
    }
    proof {
        built = built + opt_entry("target"@, av.target, |s: Seq<char>| JsonView::Str(s));
        assert(es.deep_view() =~= built);
    }
    match mount_type {
        Some(x) => {
            es.push((String::from_str("type"), JsonValue::Str(x)));
        },
        None => {},
    }
    proof {
        built = built + opt_entry("type"@, av.mount_type, |s: Seq<char>| JsonView::Str(s));
        assert(es.deep_view() =~= built);
    }
    let mut add = additional_fields;
    es.append(&mut add);
    proof {
        built = built + av.additional_fields;
        assert(es.deep_view() =~= built);
        assert(built =~= enc_mount_fields(av));
        lemma_view_obj(es);
    }
    JsonValue::Obj(es)
}

/// Encodes a list as a JSON array.
#[verifier::loop_isolation(false)]
fn encode_mounts_v(xs: Vec<MountSpec>) -> (r: JsonValue)
    ensures
        r.deep_view() == enc_mounts(xs.deep_view()),
{
    let ghost xv = xs.deep_view();
    let mut out: Vec<JsonValue> = Vec::new();
    let mut rest = xs;
    let ghost mut k: int = 0;
    while rest.len() > 0
        invariant
            0 <= k <= xv.len(),
            rest.deep_view() =~= xv.skip(k),
            out.deep_view() =~= xv.take(k).map_values(|x: MountSpecView| enc_mount(x)),
        decreases rest.len(),
    {
        let ghost pre = rest.deep_view();
        let e = rest.remove(0);
        proof {
            assert(xv.skip(k)[0] == xv[k]);
            assert(e.deep_view() == xv[k]);
            assert(rest.deep_view() =~= pre.drop_first());
        }
        let ghost preout = out.deep_view();
        let enc = encode_mount_v(e);
        out.push(enc);
        proof {
            k = k + 1;
            assert(out.deep_view() =~= preout.push(enc.deep_view()));
            assert(xv.take(k) =~= xv.take(k - 1).push(xv[k - 1]));
            assert(rest.deep_view() =~= xv.skip(k));
            assert(out.deep_view() =~= xv.take(k).map_values(|x: MountSpecView| enc_mount(x)));
        }
    }
    proof {
        assert(xv.take(k) =~= xv);
        lemma_view_arr(out);
        assert(out.deep_view() =~= xv.map_values(|x: MountSpecView| enc_mount(x)));
    }
    JsonValue::Arr(out)
}

/// Encodes one value as a JSON object: present fields first, in
/// declaration order, captured fields last.
fn encode_build_v(a: BuildConfig) -> (r: JsonValue)
    ensures
        r.deep_view() == enc_build(a.deep_view()),
{
    let ghost av = a.deep_view();
    let BuildConfig { dockerfile, context, args, target, cache_from, additional_fields } = a;
    let mut es: Vec<(String, JsonValue)> = Vec::new();
    let ghost mut built: Seq<(Seq<char>, JsonView)> = Seq::empty();
    proof {
        assert(es.deep_view() =~= built);
    }
    match dockerfile {
        Some(x) => {
            es.push((String::from_str("dockerfile"), JsonValue::Str(x)));
        },
        None => {},
    }
    proof {
        built = built + opt_entry("dockerfile"@, av.dockerfile, |s: Seq<char>| JsonView::Str(s));
        assert(es.deep_view() =~= built);
    }
    match context {
        Some(x) => {
            es.push((String::from_str("context"), JsonValue::Str(x)));
        },
        None => {},
    }
    proof {
        built = built + opt_entry("context"@, av.context, |s: Seq<char>| JsonView::Str(s));
        assert(es.deep_view() =~= built);
    }
    match args {
        Some(x) => {
            es.push((String::from_str("args"), encode_str_map_v(x)));
        },
        None => {},
    }
    proof {
        built = built + opt_entry("args"@, av.args, |m: Seq<(Seq<char>, Seq<char>)>| enc_str_map(m));
        assert(es.deep_view() =~= built);
    }
    match target {
        Some(x) => {
            es.push((String::from_str("target"), JsonValue::Str(x)));
        },
        None => {},
    }
    proof {
        built = built + opt_entry("target"@, av.target, |s: Seq<char>| JsonView::Str(s));
        assert(es.deep_view() =~= built);
    }
    match cache_from {
        Some(x) => {
            es.push((String::from_str("cacheFrom"), encode_str_vec(x)));
        },
        None => {},
    }
    proof {
        built = built + opt_entry("cacheFrom"@, av.cache_from, |ts: Seq<Seq<char>>| enc_str_list(ts));
        assert(es.deep_view() =~= built);
    }
    let mut add = additional_fields;
    es.append(&mut add);
    proof {
        built = built + av.additional_fields;
        assert(es.deep_view() =~= built);
        assert(built =~= enc_build_fields(av));
        lemma_view_obj(es);
    }
    JsonValue::Obj(es)
}


/// Emits one quarter of the document members, in declaration order.
#[verifier::rlimit(60)]
fn encode_fields_a(name: Option<String>, image: Option<String>, docker_file: Option<String>, build: Option<BuildConfig>, features: Option<Vec<(String, JsonValue)>>, extensions: Option<Vec<String>>, settings: Option<Vec<(String, JsonValue)>>) -> (es: Vec<(String, JsonValue)>)
    ensures
        es.deep_view() == opt_entry("name"@, name.deep_view(), |s: Seq<char>| JsonView::Str(s))
            + opt_entry("image"@, image.deep_view(), |s: Seq<char>| JsonView::Str(s))
            + opt_entry("dockerFile"@, docker_file.deep_view(), |s: Seq<char>| JsonView::Str(s))
            + opt_entry("build"@, build.deep_view(), |b: BuildConfigView| enc_build(b))
            + opt_entry("features"@, features.deep_view(), |m: Seq<(Seq<char>, JsonView)>| JsonView::Obj(m))
            + opt_entry("extensions"@, extensions.deep_view(), |ts: Seq<Seq<char>>| enc_str_list(ts))
            + opt_entry("settings"@, settings.deep_view(), |m: Seq<(Seq<char>, JsonView)>| JsonView::Obj(m)),
{
    let ghost og_name = name.deep_view();
    let ghost og_image = image.deep_view();
    let ghost og_docker_file = docker_file.deep_view();
    let ghost og_build = build.deep_view();
    let ghost og_features = features.deep_view();
    let ghost og_extensions = extensions.deep_view();
    let ghost og_settings = settings.deep_view();
    let mut es: Vec<(String, JsonValue)> = Vec::new();
    let ghost mut built: Seq<(Seq<char>, JsonView)> = Seq::empty();
    proof {
        assert(es.deep_view() =~= built);
    }
    match name {
        Some(x) => {
            es.push((String::from_str("name"), JsonValue::Str(x)));
        },
        None => {},
    }
    proof {
        built = built + opt_entry("name"@, og_name, |s: Seq<char>| JsonView::Str(s));
        assert(es.deep_view() =~= built);
    }
    match image {
        Some(x) => {
            es.push((String::from_str("image"), JsonValue::Str(x)));
        },
        None => {},
    }
    proof {
        built = built + opt_entry("image"@, og_image, |s: Seq<char>| JsonView::Str(s));
        assert(es.deep_view() =~= built);
    }
    match docker_file {
        Some(x) => {
            es.push((String::from_str("dockerFile"), JsonValue::Str(x)));
        },
        None => {},
    }
    proof {
        built = built + opt_entry("dockerFile"@, og_docker_file, |s: Seq<char>| JsonView::Str(s));
        assert(es.deep_view() =~= built);
    }
    match build {
        Some(x) => {
            es.push((String::from_str("build"), encode_build_v(x)));
        },
        None => {},
    }
    proof {
        built = built + opt_entry("build"@, og_build, |b: BuildConfigView| enc_build(b));
        assert(es.deep_view() =~= built);
    }
    match features {
        Some(x) => {
                proof {
                    lemma_view_obj(x);
                }
            es.push((String::from_str("features"), JsonValue::Obj(x)));
        },
        None => {},
    }
    proof {
        built = built + opt_entry("features"@, og_features, |m: Seq<(Seq<char>, JsonView)>| JsonView::Obj(m));
        assert(es.deep_view() =~= built);
    }
    match extensions {
        Some(x) => {
            es.push((String::from_str("extensions"), encode_str_vec(x)));
        },
        None => {},
    }
    proof {
        built = built + opt_entry("extensions"@, og_extensions, |ts: Seq<Seq<char>>| enc_str_list(ts));
        assert(es.deep_view() =~= built);
    }
    match settings {
        Some(x) => {
                proof {
                    lemma_view_obj(x);
                }
            es.push((String::from_str("settings"), JsonValue::Obj(x)));
        },
        None => {},
    }
    proof {
        built = built + opt_entry("settings"@, og_settings, |m: Seq<(Seq<char>, JsonView)>| JsonView::Obj(m));
        assert(es.deep_view() =~= built);
    }
    es
}

/// Emits one quarter of the document members, in declaration order.
#[verifier::rlimit(60)]
fn encode_fields_b(forward_ports: Option<Vec<PortSpec>>, ports_attributes: Option<Vec<(String, PortAttributes)>>, other_ports_attributes: Option<PortAttributes>, container_env: Option<Vec<(String, String)>>, remote_env: Option<Vec<(String, String)>>, remote_user: Option<String>, container_user: Option<String>) -> (es: Vec<(String, JsonValue)>)
    ensures
        es.deep_view() == opt_entry("forwardPorts"@, forward_ports.deep_view(), |ps: Seq<PortSpecView>| enc_ports(ps))
            + opt_entry("portsAttributes"@, ports_attributes.deep_view(), |m: Seq<(Seq<char>, PortAttributesView)>| enc_attrs_map(m))
            + opt_entry("otherPortsAttributes"@, other_ports_attributes.deep_view(), |a: PortAttributesView| enc_attrs(a))
            + opt_entry("containerEnv"@, container_env.deep_view(), |m: Seq<(Seq<char>, Seq<char>)>| enc_str_map(m))
            + opt_entry("remoteEnv"@, remote_env.deep_view(), |m: Seq<(Seq<char>, Seq<char>)>| enc_str_map(m))
            + opt_entry("remoteUser"@, remote_user.deep_view(), |s: Seq<char>| JsonView::Str(s))
            + opt_entry("containerUser"@, container_user.deep_view(), |s: Seq<char>| JsonView::Str(s)),
{
    let ghost og_forward_ports = forward_ports.deep_view();
    let ghost og_ports_attributes = ports_attributes.deep_view();
    let ghost og_other_ports_attributes = other_ports_attributes.deep_view();
    let ghost og_container_env = container_env.deep_view();
    let ghost og_remote_env = remote_env.deep_view();
    let ghost og_remote_user = remote_user.deep_view();
    let ghost og_container_user = container_user.deep_view();
    let mut es: Vec<(String, JsonValue)> = Vec::new();
    let ghost mut built: Seq<(Seq<char>, JsonView)> = Seq::empty();
    proof {
        assert(es.deep_view() =~= built);
    }
    match forward_ports {
        Some(x) => {
            es.push((String::from_str("forwardPorts"), encode_ports_v(x)));
        },
        None => {},
    }
    proof {
        built = built + opt_entry("forwardPorts"@, og_forward_ports, |ps: Seq<PortSpecView>| enc_ports(ps));
        assert(es.deep_view() =~= built);
    }
    match ports_attributes {
        Some(x) => {
            es.push((String::from_str("portsAttributes"), encode_attrs_map_v(x)));
        },
        None => {},
    }
    proof {
        built = built + opt_entry("portsAttributes"@, og_ports_attributes, |m: Seq<(Seq<char>, PortAttributesView)>| enc_attrs_map(m));
        assert(es.deep_view() =~= built);
    }
    match other_ports_attributes {
        Some(x) => {
            es.push((String::from_str("otherPortsAttributes"), encode_attrs_v(x)));
        },
        None => {},
    }
    proof {
        built = built + opt_entry("otherPortsAttributes"@, og_other_ports_attributes, |a: PortAttributesView| enc_attrs(a));
        assert(es.deep_view() =~= built);
    }
    match container_env {
        Some(x) => {
            es.push((String::from_str("containerEnv"), encode_str_map_v(x)));
        },
        None => {},
    }
    proof {
        built = built + opt_entry("containerEnv"@, og_container_env, |m: Seq<(Seq<char>, Seq<char>)>| enc_str_map(m));
        assert(es.deep_view() =~= built);
    }
    match remote_env {
        Some(x) => {
            es.push((String::from_str("remoteEnv"), encode_str_map_v(x)));
        },
        None => {},
    }
    proof {
        built = built + opt_entry("remoteEnv"@, og_remote_env, |m: Seq<(Seq<char>, Seq<char>)>| enc_str_map(m));
        assert(es.deep_view() =~= built);
    }
    match remote_user {
        Some(x) => {
            es.push((String::from_str("remoteUser"), JsonValue::Str(x)));
        },
        None => {},
    }
    proof {
        built = built + opt_entry("remoteUser"@, og_remote_user, |s: Seq<char>| JsonView::Str(s));
        assert(es.deep_view() =~= built);
    }
    match container_user {
        Some(x) => {
            es.push((String::from_str("containerUser"), JsonValue::Str(x)));
        },
        None => {},
    }
    proof {
        built = built + opt_entry("containerUser"@, og_container_user, |s: Seq<char>| JsonView::Str(s));
        assert(es.deep_view() =~= built);
    }
    es
}

/// Emits one quarter of the document members, in declaration order.
#[verifier::rlimit(60)]
fn encode_fields_c(workspace_folder: Option<String>, post_create_command: Option<LifecycleCommand>, post_start_command: Option<LifecycleCommand>, post_attach_command: Option<LifecycleCommand>, customizations: Option<Vec<(String, JsonValue)>>, init: Option<bool>, privileged: Option<bool>) -> (es: Vec<(String, JsonValue)>)
    ensures
        es.deep_view() == opt_entry("workspaceFolder"@, workspace_folder.deep_view(), |s: Seq<char>| JsonView::Str(s))
            + opt_entry("postCreateCommand"@, post_create_command.deep_view(), |l: LifecycleCommandView| enc_lifecycle(l))
            + opt_entry("postStartCommand"@, post_start_command.deep_view(), |l: LifecycleCommandView| enc_lifecycle(l))
            + opt_entry("postAttachCommand"@, post_attach_command.deep_view(), |l: LifecycleCommandView| enc_lifecycle(l))
            + opt_entry("customizations"@, customizations.deep_view(), |m: Seq<(Seq<char>, JsonView)>| JsonView::Obj(m))
            + opt_entry("init"@, init.deep_view(), |b: bool| JsonView::Bool(b))
            + opt_entry("privileged"@, privileged.deep_view(), |b: bool| JsonView::Bool(b)),
{
    let ghost og_workspace_folder = workspace_folder.deep_view();
    let ghost og_post_create_command = post_create_command.deep_view();
    let ghost og_post_start_command = post_start_command.deep_view();
    let ghost og_post_attach_command = post_attach_command.deep_view();
    let ghost og_customizations = customizations.deep_view();
    let ghost og_init = init.deep_view();
    let ghost og_privileged = privileged.deep_view();
    let mut es: Vec<(String, JsonValue)> = Vec::new();
    let ghost mut built: Seq<(Seq<char>, JsonView)> = Seq::empty();
    proof {
        assert(es.deep_view() =~= built);
    }
    match workspace_folder {
        Some(x) => {
            es.push((String::from_str("workspaceFolder"), JsonValue::Str(x)));
        },
        None => {},
    }
    proof {
        built = built + opt_entry("workspaceFolder"@, og_workspace_folder, |s: Seq<char>| JsonView::Str(s));
        assert(es.deep_view() =~= built);
    }
    match post_create_command {
        Some(x) => {
            es.push((String::from_str("postCreateCommand"), encode_lifecycle_v(x)));
        },
        None => {},
    }
    proof {
        built = built + opt_entry("postCreateCommand"@, og_post_create_command, |l: LifecycleCommandView| enc_lifecycle(l));
        assert(es.deep_view() =~= built);
    }
    match post_start_command {
        Some(x) => {
            es.push((String::from_str("postStartCommand"), encode_lifecycle_v(x)));
        },
        None => {},
    }
    proof {
        built = built + opt_entry("postStartCommand"@, og_post_start_command, |l: LifecycleCommandView| enc_lifecycle(l));
        assert(es.deep_view() =~= built);
    }
    match post_attach_command {
        Some(x) => {
            es.push((String::from_str("postAttachCommand"), encode_lifecycle_v(x)));
        },
        None => {},
    }
    proof {
        built = built + opt_entry("postAttachCommand"@, og_post_attach_command, |l: LifecycleCommandView| enc_lifecycle(l));
        assert(es.deep_view() =~= built);
    }
    match customizations {
        Some(x) => {
                proof {
                    lemma_view_obj(x);
                }
            es.push((String::from_str("customizations"), JsonValue::Obj(x)));
        },
        None => {},
    }
    proof {
        built = built + opt_entry("customizations"@, og_customizations, |m: Seq<(Seq<char>, JsonView)>| JsonView::Obj(m));
        assert(es.deep_view() =~= built);
    }
    match init {
        Some(x) => {
            es.push((String::from_str("init"), JsonValue::Bool(x)));
        },
        None => {},
    }
    proof {
        built = built + opt_entry("init"@, og_init, |b: bool| JsonView::Bool(b));
        assert(es.deep_view() =~= built);
    }
    match privileged {
        Some(x) => {
            es.push((String::from_str("privileged"), JsonValue::Bool(x)));
        },
        None => {},
    }
    proof {
        built = built + opt_entry("privileged"@, og_privileged, |b: bool| JsonView::Bool(b));
        assert(es.deep_view() =~= built);
    }
    es
}

/// Emits one quarter of the document members, in declaration order.
#[verifier::rlimit(60)]
fn encode_fields_d(override_command: Option<bool>, shutdown_action: Option<ShutdownAction>, mounts: Option<Vec<MountSpec>>, run_args: Option<Vec<String>>, docker_compose_file: Option<DockerComposeFile>, service: Option<String>, workspace_mount: Option<String>) -> (es: Vec<(String, JsonValue)>)
    ensures
        es.deep_view() == opt_entry("overrideCommand"@, override_command.deep_view(), |b: bool| JsonView::Bool(b))
            + opt_entry("shutdownAction"@, shutdown_action.deep_view(), |a: ShutdownAction| enc_shutdown(a))
            + opt_entry("mounts"@, mounts.deep_view(), |ms: Seq<MountSpecView>| enc_mounts(ms))
            + opt_entry("runArgs"@, run_args.deep_view(), |ts: Seq<Seq<char>>| enc_str_list(ts))
            + opt_entry("dockerComposeFile"@, docker_compose_file.deep_view(), |d: DockerComposeFileView| enc_compose(d))
            + opt_entry("service"@, service.deep_view(), |s: Seq<char>| JsonView::Str(s))
            + opt_entry("workspaceMount"@, workspace_mount.deep_view(), |s: Seq<char>| JsonView::Str(s)),
{
    let ghost og_override_command = override_command.deep_view();
    let ghost og_shutdown_action = shutdown_action.deep_view();
    let ghost og_mounts = mounts.deep_view();
    let ghost og_run_args = run_args.deep_view();
    let ghost og_docker_compose_file = docker_compose_file.deep_view();
    let ghost og_service = service.deep_view();
    let ghost og_workspace_mount = workspace_mount.deep_view();
    let mut es: Vec<(String, JsonValue)> = Vec::new();
    let ghost mut built: Seq<(Seq<char>, JsonView)> = Seq::empty();
    proof {
        assert(es.deep_view() =~= built);
    }
    match override_command {
        Some(x) => {
            es.push((String::from_str("overrideCommand"), JsonValue::Bool(x)));
        },
        None => {},
    }
    proof {
        built = built + opt_entry("overrideCommand"@, og_override_command, |b: bool| JsonView::Bool(b));
        assert(es.deep_view() =~= built);
    }
    match shutdown_action {
        Some(x) => {
            es.push((String::from_str("shutdownAction"), encode_shutdown_v(x)));
        },
        None => {},
    }
    proof {
        built = built + opt_entry("shutdownAction"@, og_shutdown_action, |a: ShutdownAction| enc_shutdown(a));
        assert(es.deep_view() =~= built);
    }
    match mounts {
        Some(x) => {
            es.push((String::from_str("mounts"), encode_mounts_v(x)));
        },
        None => {},
    }
    proof {
        built = built + opt_entry("mounts"@, og_mounts, |ms: Seq<MountSpecView>| enc_mounts(ms));
        assert(es.deep_view() =~= built);
    }
    match run_args {
        Some(x) => {
            es.push((String::from_str("runArgs"), encode_str_vec(x)));
        },
        None => {},
    }
    proof {
        built = built + opt_entry("runArgs"@, og_run_args, |ts: Seq<Seq<char>>| enc_str_list(ts));
        assert(es.deep_view() =~= built);
    }
    match docker_compose_file {
        Some(x) => {
            es.push((String::from_str("dockerComposeFile"), encode_compose_v(x)));
        },
        None => {},
    }
    proof {
        built = built + opt_entry("dockerComposeFile"@, og_docker_compose_file, |d: DockerComposeFileView| enc_compose(d));
        assert(es.deep_view() =~= built);
    }
    match service {
        Some(x) => {
            es.push((String::from_str("service"), JsonValue::Str(x)));
        },
        None => {},
    }
    proof {
        built = built + opt_entry("service"@, og_service, |s: Seq<char>| JsonView::Str(s));
        assert(es.deep_view() =~= built);
    }
    match workspace_mount {
        Some(x) => {
            es.push((String::from_str("workspaceMount"), JsonValue::Str(x)));
        },
        None => {},
    }
    proof {
        built = built + opt_entry("workspaceMount"@, og_workspace_mount, |s: Seq<char>| JsonView::Str(s));
        assert(es.deep_view() =~= built);
    }
    es
}

impl DevContainer {
    /// Encodes this configuration as a JSON document value: exactly the
    /// present fields, in the declaration order of the schema, each in its
    /// canonical form; captured unrecognized fields come last, in the order
    /// they are held. A configuration with every field absent encodes to an
    /// object with no members.
    #[verifier::rlimit(60)]
    pub fn encode(self) -> (r: JsonValue)
        ensures
            r.deep_view() == spec_encode(self.deep_view()),
    {
        let ghost av = self.deep_view();
        let DevContainer { name, image, docker_file, build, features, extensions, settings, forward_ports, ports_attributes, other_ports_attributes, container_env, remote_env, remote_user, container_user, workspace_folder, post_create_command, post_start_command, post_attach_command, customizations, init, privileged, override_command, shutdown_action, mounts, run_args, docker_compose_file, service, workspace_mount, additional_fields } = self;
        let mut es = encode_fields_a(name, image, docker_file, build, features, extensions, settings);
        let mut es_b = encode_fields_b(forward_ports, ports_attributes, other_ports_attributes, container_env, remote_env, remote_user, container_user);
        let mut es_c = encode_fields_c(workspace_folder, post_create_command, post_start_command, post_attach_command, customizations, init, privileged);
        let mut es_d = encode_fields_d(override_command, shutdown_action, mounts, run_args, docker_compose_file, service, workspace_mount);
        let mut add = additional_fields;
        proof {
            assert(es.deep_view() == spec_encode_fields_a(av));
            assert(es_b.deep_view() == spec_encode_fields_b(av));
            assert(es_c.deep_view() == spec_encode_fields_c(av));
            assert(es_d.deep_view() == spec_encode_fields_d(av));
        }
        let ghost d1 = es.deep_view();
        es.append(&mut es_b);
        proof {
            assert(es.deep_view() =~= d1 + spec_encode_fields_b(av));
        }
        let ghost d2 = es.deep_view();
        es.append(&mut es_c);
        proof {
            assert(es.deep_view() =~= d2 + spec_encode_fields_c(av));
        }
        let ghost d3 = es.deep_view();
        es.append(&mut es_d);
        proof {
            assert(es.deep_view() =~= d3 + spec_encode_fields_d(av));
        }
        let ghost d4 = es.deep_view();
        es.append(&mut add);
        proof {
            assert(es.deep_view() =~= d4 + av.additional_fields);
            assert(es.deep_view() =~= spec_encode_fields(av));
            lemma_view_obj(es);
        }
        JsonValue::Obj(es)
    }
}

} // verus!
