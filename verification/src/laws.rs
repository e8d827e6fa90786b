use vstd::prelude::*;
use vstd::seq_lib::*;
use crate::json::JsonView;
use crate::decode::{
    spec_attr_field, spec_attr_fields, spec_attrs, spec_attrs_map, spec_build, spec_build_field,
    spec_build_fields, spec_mount, spec_mount_field, spec_mount_fields, spec_mounts,
};
use crate::decode_root::{recognized, spec_decode, spec_field, spec_fields};
use crate::decode_values::{
    spec_command, spec_command_map, spec_port_item, spec_ports, spec_str_list, spec_str_map,
};
use crate::encode::{
    enc_attr_fields, enc_attrs, enc_attrs_map, enc_build, enc_build_fields, enc_command,
    enc_compose, enc_lifecycle, enc_mount, enc_mount_fields, enc_mounts,
    enc_port, enc_ports, enc_shutdown, enc_str_list, enc_str_map, opt_entry, spec_encode,
    spec_encode_fields, spec_encode_fields_a, spec_encode_fields_b, spec_encode_fields_c,
    spec_encode_fields_d,
};
use crate::model::{
    BuildConfigView, CodecPolicy, CommandSpecView, DevContainerView, DockerComposeFileView,
    LifecycleCommandView, MountSpecView, PortAttributesView, PortSpecView, ShutdownAction,
};
use crate::service_port::{lemma_service_port_round_trip, service_port_wf};

verus! {

// ---------------------------------------------------------------------------
// The laws of the codec. A configuration is well formed when it could have
// come out of a decode under the same policy: toggled-off fields are absent,
// captured names are unrecognized and captured only under the permissive
// policy, and every service port is a value that parsing can yield. For
// every such configuration, decoding its encoding gives it back.
// ---------------------------------------------------------------------------

/// Whether `n` is a recognized member name of a port-attributes object.
pub open spec fn attr_field_name(n: Seq<char>) -> bool {
    ||| n == "label"@
    ||| n == "protocol"@
    ||| n == "onAutoForward"@
    ||| n == "requireLocalPort"@
    ||| n == "elevateIfNeeded"@
}

/// Whether `n` is a recognized member name of a mount object.
pub open spec fn mount_field_name(n: Seq<char>) -> bool {
    ||| n == "source"@
    ||| n == "target"@
    ||| n == "type"@
}

/// Whether `n` is a recognized member name of a build object.
pub open spec fn build_field_name(n: Seq<char>) -> bool {
    ||| n == "dockerfile"@
    ||| n == "context"@
    ||| n == "args"@
    ||| n == "target"@
    ||| n == "cacheFrom"@
}

/// A port-attributes value that a decode under `p` could yield.
pub open spec fn wf_attrs(p: CodecPolicy, a: PortAttributesView) -> bool {
    &&& !p.allow_unknown_fields ==> a.additional_fields.len() == 0
    &&& forall|i: int|
        0 <= i < a.additional_fields.len() ==> !attr_field_name(
            #[trigger] a.additional_fields[i].0,
        )
}

/// A mount value that a decode under `p` could yield.
pub open spec fn wf_mount(p: CodecPolicy, a: MountSpecView) -> bool {
    &&& !p.allow_unknown_fields ==> a.additional_fields.len() == 0
    &&& forall|i: int|
        0 <= i < a.additional_fields.len() ==> !mount_field_name(
            #[trigger] a.additional_fields[i].0,
        )
}

/// A build value that a decode under `p` could yield.
pub open spec fn wf_build(p: CodecPolicy, b: BuildConfigView) -> bool {
    &&& !p.allow_unknown_fields ==> b.additional_fields.len() == 0
    &&& forall|i: int|
        0 <= i < b.additional_fields.len() ==> !build_field_name(
            #[trigger] b.additional_fields[i].0,
        )
}

/// A port-forwarding entry that a decode could yield: a service port came
/// out of parsing, so its service name is non-empty and has no `:`.
pub open spec fn wf_port(x: PortSpecView) -> bool {
    match x {
        PortSpecView::Number(_) => true,
        PortSpecView::Service(sp) => service_port_wf(sp),
    }
}

/// A configuration that a decode under `p` could yield.
pub open spec fn wf_config(p: CodecPolicy, c: DevContainerView) -> bool {
    &&& !p.vscode ==> c.extensions is None && c.settings is None
    &&& !p.docker_compose ==> c.docker_compose_file is None && c.service is None
    &&& c.build matches Some(b) ==> wf_build(p, b)
    &&& c.forward_ports matches Some(ps) ==> forall|i: int|
        0 <= i < ps.len() ==> wf_port(#[trigger] ps[i])
    &&& c.ports_attributes matches Some(m) ==> forall|i: int|
        0 <= i < m.len() ==> wf_attrs(p, (#[trigger] m[i]).1)
    &&& c.other_ports_attributes matches Some(a) ==> wf_attrs(p, a)
    &&& c.mounts matches Some(ms) ==> forall|i: int|
        0 <= i < ms.len() ==> wf_mount(p, #[trigger] ms[i])
    &&& !p.allow_unknown_fields ==> c.additional_fields.len() == 0
    &&& forall|i: int|
        0 <= i < c.additional_fields.len() ==> !recognized(
            (#[trigger] c.additional_fields[i]).0,
            p,
        )
}

/// Reading a concatenation of members reads the first part, then the rest.
proof fn lemma_fields_append(
    p: CodecPolicy,
    acc: DevContainerView,
    x: Seq<(Seq<char>, JsonView)>,
    y: Seq<(Seq<char>, JsonView)>,
)
    ensures
        spec_fields(p, acc, x + y) == (match spec_fields(p, acc, x) {
            Ok(m) => spec_fields(p, m, y),
            Err(e) => Err(e),
        }),
    decreases x.len(),
{
    if x.len() == 0 {
        assert(x + y =~= y);
    } else {
        assert((x + y)[0] == x[0]);
        assert((x + y).drop_first() =~= x.drop_first() + y);
        match spec_field(p, acc, x[0].0, x[0].1) {
            Ok(m) => {
                lemma_fields_append(p, m, x.drop_first(), y);
            },
            Err(_) => {},
        }
    }
}

/// Reading a concatenation of members reads the first part, then the rest.
proof fn lemma_attr_fields_append(
    p: CodecPolicy,
    acc: PortAttributesView,
    x: Seq<(Seq<char>, JsonView)>,
    y: Seq<(Seq<char>, JsonView)>,
)
    ensures
        spec_attr_fields(p, acc, x + y) == (match spec_attr_fields(p, acc, x) {
            Ok(m) => spec_attr_fields(p, m, y),
            Err(e) => Err(e),
        }),
    decreases x.len(),
{
    if x.len() == 0 {
        assert(x + y =~= y);
    } else {
        assert((x + y)[0] == x[0]);
        assert((x + y).drop_first() =~= x.drop_first() + y);
        match spec_attr_field(p, acc, x[0].0, x[0].1) {
            Ok(m) => {
                lemma_attr_fields_append(p, m, x.drop_first(), y);
            },
            Err(_) => {},
        }
    }
}

/// Reading a concatenation of members reads the first part, then the rest.
proof fn lemma_mount_fields_append(
    p: CodecPolicy,
    acc: MountSpecView,
    x: Seq<(Seq<char>, JsonView)>,
    y: Seq<(Seq<char>, JsonView)>,
)
    ensures
        spec_mount_fields(p, acc, x + y) == (match spec_mount_fields(p, acc, x) {
            Ok(m) => spec_mount_fields(p, m, y),
            Err(e) => Err(e),
        }),
    decreases x.len(),
{
    if x.len() == 0 {
        assert(x + y =~= y);
    } else {
        assert((x + y)[0] == x[0]);
        assert((x + y).drop_first() =~= x.drop_first() + y);
        match spec_mount_field(p, acc, x[0].0, x[0].1) {
            Ok(m) => {
                lemma_mount_fields_append(p, m, x.drop_first(), y);
            },
            Err(_) => {},
        }
    }
}

/// Reading a concatenation of members reads the first part, then the rest.
proof fn lemma_build_fields_append(
    p: CodecPolicy,
    acc: BuildConfigView,
    x: Seq<(Seq<char>, JsonView)>,
    y: Seq<(Seq<char>, JsonView)>,
)
    ensures
        spec_build_fields(p, acc, x + y) == (match spec_build_fields(p, acc, x) {
            Ok(m) => spec_build_fields(p, m, y),
            Err(e) => Err(e),
        }),
    decreases x.len(),
{
    if x.len() == 0 {
        assert(x + y =~= y);
    } else {
        assert((x + y)[0] == x[0]);
        assert((x + y).drop_first() =~= x.drop_first() + y);
        match spec_build_field(p, acc, x[0].0, x[0].1) {
            Ok(m) => {
                lemma_build_fields_append(p, m, x.drop_first(), y);
            },
            Err(_) => {},
        }
    }
}

/// Members whose names nothing recognizes are all captured, in order.
proof fn lemma_attr_fields_capture(
    p: CodecPolicy,
    acc: PortAttributesView,
    es: Seq<(Seq<char>, JsonView)>,
)
    requires
        p.allow_unknown_fields || es.len() == 0,
        forall|i: int| 0 <= i < es.len() ==> !attr_field_name((#[trigger] es[i]).0),
    ensures
        spec_attr_fields(p, acc, es) == Ok::<_, crate::model::DecodeErrorView>(
            PortAttributesView { additional_fields: acc.additional_fields + es, ..acc },
        ),
    decreases es.len(),
{
    if es.len() == 0 {
        assert(PortAttributesView {
            additional_fields: acc.additional_fields + es,
            ..acc
        } =~= acc);
    } else {
        let a2 = PortAttributesView {
            additional_fields: acc.additional_fields.push(es[0]),
            ..acc
        };
        assert(spec_attr_field(p, acc, es[0].0, es[0].1) == Ok::<
            _,
            crate::model::DecodeErrorView,
        >(a2));
        lemma_attr_fields_capture(p, a2, es.drop_first());
        assert(acc.additional_fields.push(es[0]) + es.drop_first() =~= acc.additional_fields + es);
    }
}

/// Members whose names nothing recognizes are all captured, in order.
proof fn lemma_mount_fields_capture(
    p: CodecPolicy,
    acc: MountSpecView,
    es: Seq<(Seq<char>, JsonView)>,
)
    requires
        p.allow_unknown_fields || es.len() == 0,
        forall|i: int| 0 <= i < es.len() ==> !mount_field_name((#[trigger] es[i]).0),
    ensures
        spec_mount_fields(p, acc, es) == Ok::<_, crate::model::DecodeErrorView>(
            MountSpecView { additional_fields: acc.additional_fields + es, ..acc },
        ),
    decreases es.len(),
{
    if es.len() == 0 {
        assert(MountSpecView { additional_fields: acc.additional_fields + es, ..acc } =~= acc);
    } else {
        let a2 = MountSpecView { additional_fields: acc.additional_fields.push(es[0]), ..acc };
        assert(spec_mount_field(p, acc, es[0].0, es[0].1) == Ok::<
            _,
            crate::model::DecodeErrorView,
        >(a2));
        lemma_mount_fields_capture(p, a2, es.drop_first());
        assert(acc.additional_fields.push(es[0]) + es.drop_first() =~= acc.additional_fields + es);
    }
}

/// Members whose names nothing recognizes are all captured, in order.
proof fn lemma_build_fields_capture(
    p: CodecPolicy,
    acc: BuildConfigView,
    es: Seq<(Seq<char>, JsonView)>,
)
    requires
        p.allow_unknown_fields || es.len() == 0,
        forall|i: int| 0 <= i < es.len() ==> !build_field_name((#[trigger] es[i]).0),
    ensures
        spec_build_fields(p, acc, es) == Ok::<_, crate::model::DecodeErrorView>(
            BuildConfigView { additional_fields: acc.additional_fields + es, ..acc },
        ),
    decreases es.len(),
{
    if es.len() == 0 {
        assert(BuildConfigView { additional_fields: acc.additional_fields + es, ..acc } =~= acc);
    } else {
        let a2 = BuildConfigView { additional_fields: acc.additional_fields.push(es[0]), ..acc };
        assert(spec_build_field(p, acc, es[0].0, es[0].1) == Ok::<
            _,
            crate::model::DecodeErrorView,
        >(a2));
        lemma_build_fields_capture(p, a2, es.drop_first());
        assert(acc.additional_fields.push(es[0]) + es.drop_first() =~= acc.additional_fields + es);
    }
}

/// Members whose names nothing recognizes are all captured, in order.
proof fn lemma_fields_capture(
    p: CodecPolicy,
    acc: DevContainerView,
    es: Seq<(Seq<char>, JsonView)>,
)
    requires
        p.allow_unknown_fields || es.len() == 0,
        forall|i: int| 0 <= i < es.len() ==> !recognized((#[trigger] es[i]).0, p),
    ensures
        spec_fields(p, acc, es) == Ok::<_, crate::model::DecodeErrorView>(
            DevContainerView { additional_fields: acc.additional_fields + es, ..acc },
        ),
    decreases es.len(),
{
    if es.len() == 0 {
        assert(DevContainerView { additional_fields: acc.additional_fields + es, ..acc } =~= acc);
    } else {
        let a2 = DevContainerView { additional_fields: acc.additional_fields.push(es[0]), ..acc };
        assert(spec_field(p, acc, es[0].0, es[0].1) == Ok::<_, crate::model::DecodeErrorView>(a2));
        lemma_fields_capture(p, a2, es.drop_first());
        assert(acc.additional_fields.push(es[0]) + es.drop_first() =~= acc.additional_fields + es);
    }
}

/// A string list reads back from its encoding.
proof fn lemma_str_list_rt(f: Seq<char>, acc: Seq<Seq<char>>, ts: Seq<Seq<char>>)
    ensures
        spec_str_list(f, acc, ts.map_values(|t: Seq<char>| JsonView::Str(t))) == Ok::<
            _,
            crate::model::DecodeErrorView,
        >(acc + ts),
    decreases ts.len(),
{
    let m = ts.map_values(|t: Seq<char>| JsonView::Str(t));
    if ts.len() == 0 {
        assert(acc + ts =~= acc);
    } else {
        assert(m[0] == JsonView::Str(ts[0]));
        assert(m.drop_first() =~= ts.drop_first().map_values(|t: Seq<char>| JsonView::Str(t)));
        lemma_str_list_rt(f, acc.push(ts[0]), ts.drop_first());
        assert(acc.push(ts[0]) + ts.drop_first() =~= acc + ts);
    }
}

/// A string map reads back from its encoding.
proof fn lemma_str_map_rt(
    f: Seq<char>,
    acc: Seq<(Seq<char>, Seq<char>)>,
    m: Seq<(Seq<char>, Seq<char>)>,
)
    ensures
        spec_str_map(
            f,
            acc,
            m.map_values(|kv: (Seq<char>, Seq<char>)| (kv.0, JsonView::Str(kv.1))),
        ) == Ok::<_, crate::model::DecodeErrorView>(acc + m),
    decreases m.len(),
{
    let e = m.map_values(|kv: (Seq<char>, Seq<char>)| (kv.0, JsonView::Str(kv.1)));
    if m.len() == 0 {
        assert(acc + m =~= acc);
    } else {
        assert(e[0] == (m[0].0, JsonView::Str(m[0].1)));
        assert(e.drop_first() =~= m.drop_first().map_values(
            |kv: (Seq<char>, Seq<char>)| (kv.0, JsonView::Str(kv.1)),
        ));
        lemma_str_map_rt(f, acc.push(m[0]), m.drop_first());
        assert(acc.push(m[0]) + m.drop_first() =~= acc + m);
        assert(acc.push((m[0].0, m[0].1)) == acc.push(m[0]));
    }
}

/// A port-forwarding list reads back from its encoding.
proof fn lemma_ports_rt(acc: Seq<PortSpecView>, ps: Seq<PortSpecView>)
    requires
        forall|i: int| 0 <= i < ps.len() ==> wf_port(#[trigger] ps[i]),
    ensures
        spec_ports(acc, ps.map_values(|x: PortSpecView| enc_port(x))) == Ok::<
            _,
            crate::model::DecodeErrorView,
        >(acc + ps),
    decreases ps.len(),
{
    let e = ps.map_values(|x: PortSpecView| enc_port(x));
    if ps.len() == 0 {
        assert(acc + ps =~= acc);
    } else {
        assert(e[0] == enc_port(ps[0]));
        match ps[0] {
            PortSpecView::Number(n) => {
                assert(spec_port_item(e[0]) == Ok::<_, crate::model::DecodeErrorView>(ps[0]));
            },
            PortSpecView::Service(sp) => {
                lemma_service_port_round_trip(sp);
                assert(spec_port_item(e[0]) == Ok::<_, crate::model::DecodeErrorView>(ps[0]));
            },
        }
        assert(e.drop_first() =~= ps.drop_first().map_values(|x: PortSpecView| enc_port(x)));
        lemma_ports_rt(acc.push(ps[0]), ps.drop_first());
        assert(acc.push(ps[0]) + ps.drop_first() =~= acc + ps);
    }
}

/// A command reads back from its encoding.
proof fn lemma_command_rt(f: Seq<char>, c: CommandSpecView)
    ensures
        spec_command(f, enc_command(c)) == Ok::<_, crate::model::DecodeErrorView>(c),
{
    match c {
        CommandSpecView::Shell(_) => {},
        CommandSpecView::Args(ts) => {
            lemma_str_list_rt(f, Seq::empty(), ts);
            assert(Seq::<Seq<char>>::empty() + ts =~= ts);
        },
    }
}

/// A named-command map reads back from its encoding.
proof fn lemma_command_map_rt(
    f: Seq<char>,
    acc: Seq<(Seq<char>, CommandSpecView)>,
    m: Seq<(Seq<char>, CommandSpecView)>,
)
    ensures
        spec_command_map(
            f,
            acc,
            m.map_values(|kv: (Seq<char>, CommandSpecView)| (kv.0, enc_command(kv.1))),
        ) == Ok::<_, crate::model::DecodeErrorView>(acc + m),
    decreases m.len(),
{
    let e = m.map_values(|kv: (Seq<char>, CommandSpecView)| (kv.0, enc_command(kv.1)));
    if m.len() == 0 {
        assert(acc + m =~= acc);
    } else {
        assert(e[0] == (m[0].0, enc_command(m[0].1)));
        lemma_command_rt(f, m[0].1);
        assert(e.drop_first() =~= m.drop_first().map_values(
            |kv: (Seq<char>, CommandSpecView)| (kv.0, enc_command(kv.1)),
        ));
        lemma_command_map_rt(f, acc.push(m[0]), m.drop_first());
        assert(acc.push((m[0].0, m[0].1)) == acc.push(m[0]));
        assert(acc.push(m[0]) + m.drop_first() =~= acc + m);
    }
}

/// A lifecycle command reads back from its encoding.
proof fn lemma_lifecycle_rt(f: Seq<char>, l: LifecycleCommandView)
    ensures
        crate::decode_values::spec_lifecycle(f, enc_lifecycle(l)) == Ok::<
            _,
            crate::model::DecodeErrorView,
        >(l),
{
    match l {
        LifecycleCommandView::Command(c) => {
            lemma_command_rt(f, c);
        },
        LifecycleCommandView::Object(m) => {
            lemma_command_map_rt(f, Seq::empty(), m);
            assert(Seq::<(Seq<char>, CommandSpecView)>::empty() + m =~= m);
        },
    }
}

/// The shutdown action reads back from its wire name.
proof fn lemma_shutdown_rt(a: ShutdownAction)
    ensures
        crate::decode_values::spec_shutdown(enc_shutdown(a)) == Ok::<
            _,
            crate::model::DecodeErrorView,
        >(a),
{
    reveal_strlit("none");
    reveal_strlit("stopContainer");
    reveal_strlit("stopCompose");
    assert("none"@.len() == 4);
    assert("stopContainer"@.len() == 13);
    assert("stopCompose"@.len() == 11);
}

/// A compose-file reference reads back from its encoding.
proof fn lemma_compose_rt(f: Seq<char>, d: DockerComposeFileView)
    ensures
        crate::decode_values::spec_compose(f, enc_compose(d)) == Ok::<
            _,
            crate::model::DecodeErrorView,
        >(d),
{
    match d {
        DockerComposeFileView::Path(_) => {},
        DockerComposeFileView::Paths(ts) => {
            lemma_str_list_rt(f, Seq::empty(), ts);
            assert(Seq::<Seq<char>>::empty() + ts =~= ts);
        },
    }
}

/// A port-attributes value reads back from its encoding.
proof fn lemma_attrs_rt(p: CodecPolicy, f: Seq<char>, a: PortAttributesView)
    requires
        wf_attrs(p, a),
    ensures
        spec_attrs(p, f, enc_attrs(a)) == Ok::<_, crate::model::DecodeErrorView>(a),
{
    reveal_strlit("label");
    reveal_strlit("protocol");
    reveal_strlit("onAutoForward");
    reveal_strlit("requireLocalPort");
    reveal_strlit("elevateIfNeeded");
    reveal_with_fuel(spec_attr_fields, 3);
    assert("label"@.len() == 5);
    assert("protocol"@.len() == 8);
    assert("onAutoForward"@.len() == 13);
    assert("requireLocalPort"@.len() == 16);
    assert("elevateIfNeeded"@.len() == 15);
    let acc0 = PortAttributesView::empty();
    let s1 = opt_entry("label"@, a.label, |s: Seq<char>| JsonView::Str(s));
    let s2 = opt_entry("protocol"@, a.protocol, |s: Seq<char>| JsonView::Str(s));
    let s3 = opt_entry("onAutoForward"@, a.on_auto_forward, |s: Seq<char>| JsonView::Str(s));
    let s4 = opt_entry("requireLocalPort"@, a.require_local_port, |b: bool| JsonView::Bool(b));
    let s5 = opt_entry("elevateIfNeeded"@, a.elevate_if_needed, |b: bool| JsonView::Bool(b));
    let acc1 = PortAttributesView { label: a.label, ..acc0 };
    let acc2 = PortAttributesView { protocol: a.protocol, ..acc1 };
    let acc3 = PortAttributesView { on_auto_forward: a.on_auto_forward, ..acc2 };
    let acc4 = PortAttributesView { require_local_port: a.require_local_port, ..acc3 };
    let acc5 = PortAttributesView { elevate_if_needed: a.elevate_if_needed, ..acc4 };
    assert(spec_attr_fields(p, acc0, s1) == Ok::<_, crate::model::DecodeErrorView>(acc1)) by {
        if a.label is Some {
            assert(s1.drop_first() =~= Seq::<(Seq<char>, JsonView)>::empty());
        } else {
            assert(acc1 =~= acc0);
        }
    }
    assert(spec_attr_fields(p, acc1, s2) == Ok::<_, crate::model::DecodeErrorView>(acc2)) by {
        if a.protocol is Some {
            assert(s2.drop_first() =~= Seq::<(Seq<char>, JsonView)>::empty());
        } else {
            assert(acc2 =~= acc1);
        }
    }
    assert(spec_attr_fields(p, acc2, s3) == Ok::<_, crate::model::DecodeErrorView>(acc3)) by {
        if a.on_auto_forward is Some {
            assert(s3.drop_first() =~= Seq::<(Seq<char>, JsonView)>::empty());
        } else {
            assert(acc3 =~= acc2);
        }
    }
    assert(spec_attr_fields(p, acc3, s4) == Ok::<_, crate::model::DecodeErrorView>(acc4)) by {
        if a.require_local_port is Some {
            assert(s4.drop_first() =~= Seq::<(Seq<char>, JsonView)>::empty());
        } else {
            assert(acc4 =~= acc3);
        }
    }
    assert(spec_attr_fields(p, acc4, s5) == Ok::<_, crate::model::DecodeErrorView>(acc5)) by {
        if a.elevate_if_needed is Some {
            assert(s5.drop_first() =~= Seq::<(Seq<char>, JsonView)>::empty());
        } else {
            assert(acc5 =~= acc4);
        }
    }
    lemma_attr_fields_append(p, acc0, s1, s2);
    lemma_attr_fields_append(p, acc0, s1 + s2, s3);
    lemma_attr_fields_append(p, acc0, s1 + s2 + s3, s4);
    lemma_attr_fields_append(p, acc0, s1 + s2 + s3 + s4, s5);
    lemma_attr_fields_append(p, acc0, s1 + s2 + s3 + s4 + s5, a.additional_fields);
    lemma_attr_fields_capture(p, acc5, a.additional_fields);
    assert(PortAttributesView {
        additional_fields: acc5.additional_fields + a.additional_fields,
        ..acc5
    } =~= a);
    assert(enc_attr_fields(a) == s1 + s2 + s3 + s4 + s5 + a.additional_fields);
}

/// The per-port attributes map reads back from its encoding.
proof fn lemma_attrs_map_rt(
    p: CodecPolicy,
    acc: Seq<(Seq<char>, PortAttributesView)>,
    m: Seq<(Seq<char>, PortAttributesView)>,
)
    requires
        forall|i: int| 0 <= i < m.len() ==> wf_attrs(p, (#[trigger] m[i]).1),
    ensures
        spec_attrs_map(
            p,
            acc,
            m.map_values(|kv: (Seq<char>, PortAttributesView)| (kv.0, enc_attrs(kv.1))),
        ) == Ok::<_, crate::model::DecodeErrorView>(acc + m),
    decreases m.len(),
{
    let e = m.map_values(|kv: (Seq<char>, PortAttributesView)| (kv.0, enc_attrs(kv.1)));
    if m.len() == 0 {
        assert(acc + m =~= acc);
    } else {
        assert(e[0] == (m[0].0, enc_attrs(m[0].1)));
        lemma_attrs_rt(p, "portsAttributes"@, m[0].1);
        assert(e.drop_first() =~= m.drop_first().map_values(
            |kv: (Seq<char>, PortAttributesView)| (kv.0, enc_attrs(kv.1)),
        ));
        lemma_attrs_map_rt(p, acc.push(m[0]), m.drop_first());
        assert(acc.push((m[0].0, m[0].1)) == acc.push(m[0]));
        assert(acc.push(m[0]) + m.drop_first() =~= acc + m);
    }
}

/// A mount reads back from its encoding.
proof fn lemma_mount_rt(p: CodecPolicy, a: MountSpecView)
    requires
        wf_mount(p, a),
    ensures
        spec_mount(p, enc_mount(a)) == Ok::<_, crate::model::DecodeErrorView>(a),
{
    reveal_strlit("source");
    reveal_strlit("target");
    reveal_strlit("type");
    reveal_with_fuel(spec_mount_fields, 3);
    assert("source"@.len() == 6);
    assert("target"@.len() == 6);
    assert("type"@.len() == 4);
    assert("source"@[0] == 's');
    assert("target"@[0] == 't');
    let acc0 = MountSpecView::empty();
    let s1 = opt_entry("source"@, a.source, |s: Seq<char>| JsonView::Str(s));
    let s2 = opt_entry("target"@, a.target, |s: Seq<char>| JsonView::Str(s));
    let s3 = opt_entry("type"@, a.mount_type, |s: Seq<char>| JsonView::Str(s));
    let acc1 = MountSpecView { source: a.source, ..acc0 };
    let acc2 = MountSpecView { target: a.target, ..acc1 };
    let acc3 = MountSpecView { mount_type: a.mount_type, ..acc2 };
    assert(spec_mount_fields(p, acc0, s1) == Ok::<_, crate::model::DecodeErrorView>(acc1)) by {
        if a.source is Some {
            assert(s1.drop_first() =~= Seq::<(Seq<char>, JsonView)>::empty());
        } else {
            assert(acc1 =~= acc0);
        }
    }
    assert(spec_mount_fields(p, acc1, s2) == Ok::<_, crate::model::DecodeErrorView>(acc2)) by {
        if a.target is Some {
            assert(s2.drop_first() =~= Seq::<(Seq<char>, JsonView)>::empty());
        } else {
            assert(acc2 =~= acc1);
        }
    }
    assert(spec_mount_fields(p, acc2, s3) == Ok::<_, crate::model::DecodeErrorView>(acc3)) by {
        if a.mount_type is Some {
            assert(s3.drop_first() =~= Seq::<(Seq<char>, JsonView)>::empty());
        } else {
            assert(acc3 =~= acc2);
        }
    }
    lemma_mount_fields_append(p, acc0, s1, s2);
    lemma_mount_fields_append(p, acc0, s1 + s2, s3);
    lemma_mount_fields_append(p, acc0, s1 + s2 + s3, a.additional_fields);
    lemma_mount_fields_capture(p, acc3, a.additional_fields);
    assert(MountSpecView {
        additional_fields: acc3.additional_fields + a.additional_fields,
        ..acc3
    } =~= a);
    assert(enc_mount_fields(a) == s1 + s2 + s3 + a.additional_fields);
}

/// The mounts list reads back from its encoding.
proof fn lemma_mounts_rt(p: CodecPolicy, acc: Seq<MountSpecView>, ms: Seq<MountSpecView>)
    requires
        forall|i: int| 0 <= i < ms.len() ==> wf_mount(p, #[trigger] ms[i]),
    ensures
        spec_mounts(p, acc, ms.map_values(|x: MountSpecView| enc_mount(x))) == Ok::<
            _,
            crate::model::DecodeErrorView,
        >(acc + ms),
    decreases ms.len(),
{
    let e = ms.map_values(|x: MountSpecView| enc_mount(x));
    if ms.len() == 0 {
        assert(acc + ms =~= acc);
    } else {
        assert(e[0] == enc_mount(ms[0]));
        lemma_mount_rt(p, ms[0]);
        assert(e.drop_first() =~= ms.drop_first().map_values(|x: MountSpecView| enc_mount(x)));
        lemma_mounts_rt(p, acc.push(ms[0]), ms.drop_first());
        assert(acc.push(ms[0]) + ms.drop_first() =~= acc + ms);
    }
}

/// The build instructions read back from their encoding.
proof fn lemma_build_rt(p: CodecPolicy, b: BuildConfigView)
    requires
        wf_build(p, b),
    ensures
        spec_build(p, enc_build(b)) == Ok::<_, crate::model::DecodeErrorView>(b),
{
    reveal_strlit("dockerfile");
    reveal_strlit("context");
    reveal_strlit("args");
    reveal_strlit("target");
    reveal_strlit("cacheFrom");
    reveal_with_fuel(spec_build_fields, 3);
    assert("dockerfile"@.len() == 10);
    assert("context"@.len() == 7);
    assert("args"@.len() == 4);
    assert("target"@.len() == 6);
    assert("cacheFrom"@.len() == 9);
    let acc0 = BuildConfigView::empty();
    let s1 = opt_entry("dockerfile"@, b.dockerfile, |s: Seq<char>| JsonView::Str(s));
    let s2 = opt_entry("context"@, b.context, |s: Seq<char>| JsonView::Str(s));
    let s3 = opt_entry("args"@, b.args, |m: Seq<(Seq<char>, Seq<char>)>| enc_str_map(m));
    let s4 = opt_entry("target"@, b.target, |s: Seq<char>| JsonView::Str(s));
    let s5 = opt_entry("cacheFrom"@, b.cache_from, |ts: Seq<Seq<char>>| enc_str_list(ts));
    let acc1 = BuildConfigView { dockerfile: b.dockerfile, ..acc0 };
    let acc2 = BuildConfigView { context: b.context, ..acc1 };
    let acc3 = BuildConfigView { args: b.args, ..acc2 };
    let acc4 = BuildConfigView { target: b.target, ..acc3 };
    let acc5 = BuildConfigView { cache_from: b.cache_from, ..acc4 };
    assert(spec_build_fields(p, acc0, s1) == Ok::<_, crate::model::DecodeErrorView>(acc1)) by {
        if b.dockerfile is Some {
            assert(s1.drop_first() =~= Seq::<(Seq<char>, JsonView)>::empty());
        } else {
            assert(acc1 =~= acc0);
        }
    }
    assert(spec_build_fields(p, acc1, s2) == Ok::<_, crate::model::DecodeErrorView>(acc2)) by {
        if b.context is Some {
            assert(s2.drop_first() =~= Seq::<(Seq<char>, JsonView)>::empty());
        } else {
            assert(acc2 =~= acc1);
        }
    }
    assert(spec_build_fields(p, acc2, s3) == Ok::<_, crate::model::DecodeErrorView>(acc3)) by {
        if b.args is Some {
            let m = b.args->0;
            lemma_str_map_rt("args"@, Seq::empty(), m);
            assert(Seq::<(Seq<char>, Seq<char>)>::empty() + m =~= m);
            assert(s3.drop_first() =~= Seq::<(Seq<char>, JsonView)>::empty());
        } else {
            assert(acc3 =~= acc2);
        }
    }
    assert(spec_build_fields(p, acc3, s4) == Ok::<_, crate::model::DecodeErrorView>(acc4)) by {
        if b.target is Some {
            assert(s4.drop_first() =~= Seq::<(Seq<char>, JsonView)>::empty());
        } else {
            assert(acc4 =~= acc3);
        }
    }
    assert(spec_build_fields(p, acc4, s5) == Ok::<_, crate::model::DecodeErrorView>(acc5)) by {
        if b.cache_from is Some {
            let ts = b.cache_from->0;
            lemma_str_list_rt("cacheFrom"@, Seq::empty(), ts);
            assert(Seq::<Seq<char>>::empty() + ts =~= ts);
            assert(s5.drop_first() =~= Seq::<(Seq<char>, JsonView)>::empty());
        } else {
            assert(acc5 =~= acc4);
        }
    }
    lemma_build_fields_append(p, acc0, s1, s2);
    lemma_build_fields_append(p, acc0, s1 + s2, s3);
    lemma_build_fields_append(p, acc0, s1 + s2 + s3, s4);
    lemma_build_fields_append(p, acc0, s1 + s2 + s3 + s4, s5);
    lemma_build_fields_append(p, acc0, s1 + s2 + s3 + s4 + s5, b.additional_fields);
    lemma_build_fields_capture(p, acc5, b.additional_fields);
    assert(BuildConfigView {
        additional_fields: acc5.additional_fields + b.additional_fields,
        ..acc5
    } =~= b);
    assert(enc_build_fields(b) == s1 + s2 + s3 + s4 + s5 + b.additional_fields);
}


/// The all-absent configuration with the leading fields of the schema
/// taken from `c`.
pub open spec fn filled_a(c: DevContainerView) -> DevContainerView {
    DevContainerView {
        name: c.name,
        image: c.image,
        docker_file: c.docker_file,
        build: c.build,
        features: c.features,
        extensions: c.extensions,
        settings: c.settings,
        ..DevContainerView::empty()
    }
}

/// The all-absent configuration with the leading fields of the schema
/// taken from `c`.
pub open spec fn filled_b(c: DevContainerView) -> DevContainerView {
    DevContainerView {
        name: c.name,
        image: c.image,
        docker_file: c.docker_file,
        build: c.build,
        features: c.features,
        extensions: c.extensions,
        settings: c.settings,
        forward_ports: c.forward_ports,
        ports_attributes: c.ports_attributes,
        other_ports_attributes: c.other_ports_attributes,
        container_env: c.container_env,
        remote_env: c.remote_env,
        remote_user: c.remote_user,
        container_user: c.container_user,
        ..DevContainerView::empty()
    }
}

/// The all-absent configuration with the leading fields of the schema
/// taken from `c`.
pub open spec fn filled_c(c: DevContainerView) -> DevContainerView {
    DevContainerView {
        name: c.name,
        image: c.image,
        docker_file: c.docker_file,
        build: c.build,
        features: c.features,
        extensions: c.extensions,
        settings: c.settings,
        forward_ports: c.forward_ports,
        ports_attributes: c.ports_attributes,
        other_ports_attributes: c.other_ports_attributes,
        container_env: c.container_env,
        remote_env: c.remote_env,
        remote_user: c.remote_user,
        container_user: c.container_user,
        workspace_folder: c.workspace_folder,
        post_create_command: c.post_create_command,
        post_start_command: c.post_start_command,
        post_attach_command: c.post_attach_command,
        customizations: c.customizations,
        init: c.init,
        privileged: c.privileged,
        ..DevContainerView::empty()
    }
}

/// The all-absent configuration with the leading fields of the schema
/// taken from `c`.
pub open spec fn filled_d(c: DevContainerView) -> DevContainerView {
    DevContainerView {
        name: c.name,
        image: c.image,
        docker_file: c.docker_file,
        build: c.build,
        features: c.features,
        extensions: c.extensions,
        settings: c.settings,
        forward_ports: c.forward_ports,
        ports_attributes: c.ports_attributes,
        other_ports_attributes: c.other_ports_attributes,
        container_env: c.container_env,
        remote_env: c.remote_env,
        remote_user: c.remote_user,
        container_user: c.container_user,
        workspace_folder: c.workspace_folder,
        post_create_command: c.post_create_command,
        post_start_command: c.post_start_command,
        post_attach_command: c.post_attach_command,
        customizations: c.customizations,
        init: c.init,
        privileged: c.privileged,
        override_command: c.override_command,
        shutdown_action: c.shutdown_action,
        mounts: c.mounts,
        run_args: c.run_args,
        docker_compose_file: c.docker_compose_file,
        service: c.service,
        workspace_mount: c.workspace_mount,
        ..DevContainerView::empty()
    }
}

/// Reading one quarter of an encoded configuration fills its fields.
#[verifier::rlimit(100)]
proof fn lemma_rt_a(p: CodecPolicy, c: DevContainerView)
    requires
        wf_config(p, c),
    ensures
        spec_fields(p, DevContainerView::empty(), spec_encode_fields_a(c)) == Ok::<
            _,
            crate::model::DecodeErrorView,
        >(filled_a(c)),
{
    reveal_with_fuel(spec_fields, 3);
    reveal_strlit("name");
    reveal_strlit("image");
    reveal_strlit("dockerFile");
    reveal_strlit("build");
    reveal_strlit("features");
    reveal_strlit("extensions");
    reveal_strlit("settings");
    assert("name"@.len() == 4);
    assert("image"@.len() == 5);
    assert("dockerFile"@.len() == 10);
    assert("build"@.len() == 5);
    assert("features"@.len() == 8);
    assert("extensions"@.len() == 10);
    assert("settings"@.len() == 8);
    assert("name"@[0] == 'n');
    assert("image"@[0] == 'i');
    assert("dockerFile"@[0] == 'd');
    assert("build"@[0] == 'b');
    assert("features"@[0] == 'f');
    assert("extensions"@[0] == 'e');
    assert("settings"@[0] == 's');
    let acc0 = DevContainerView::empty();
    let s1 = opt_entry("name"@, c.name, |s: Seq<char>| JsonView::Str(s));
    let s2 = opt_entry("image"@, c.image, |s: Seq<char>| JsonView::Str(s));
    let s3 = opt_entry("dockerFile"@, c.docker_file, |s: Seq<char>| JsonView::Str(s));
    let s4 = opt_entry("build"@, c.build, |b: BuildConfigView| enc_build(b));
    let s5 = opt_entry("features"@, c.features, |m: Seq<(Seq<char>, JsonView)>| JsonView::Obj(m));
    let s6 = opt_entry("extensions"@, c.extensions, |ts: Seq<Seq<char>>| enc_str_list(ts));
    let s7 = opt_entry("settings"@, c.settings, |m: Seq<(Seq<char>, JsonView)>| JsonView::Obj(m));
    let acc1 = DevContainerView { name: c.name, ..acc0 };
    let acc2 = DevContainerView { image: c.image, ..acc1 };
    let acc3 = DevContainerView { docker_file: c.docker_file, ..acc2 };
    let acc4 = DevContainerView { build: c.build, ..acc3 };
    let acc5 = DevContainerView { features: c.features, ..acc4 };
    let acc6 = DevContainerView { extensions: c.extensions, ..acc5 };
    let acc7 = DevContainerView { settings: c.settings, ..acc6 };
    assert(spec_fields(p, acc0, s1) == Ok::<_, crate::model::DecodeErrorView>(acc1)) by {
        if c.name is Some {
            let x = c.name->0;
            assert(s1.drop_first() =~= Seq::<(Seq<char>, JsonView)>::empty());
        } else {
            assert(acc1 =~= acc0);
        }
    }
    assert(spec_fields(p, acc1, s2) == Ok::<_, crate::model::DecodeErrorView>(acc2)) by {
        if c.image is Some {
            let x = c.image->0;
            assert(s2.drop_first() =~= Seq::<(Seq<char>, JsonView)>::empty());
        } else {
            assert(acc2 =~= acc1);
        }
    }
    assert(spec_fields(p, acc2, s3) == Ok::<_, crate::model::DecodeErrorView>(acc3)) by {
        if c.docker_file is Some {
            let x = c.docker_file->0;
            assert(s3.drop_first() =~= Seq::<(Seq<char>, JsonView)>::empty());
        } else {
            assert(acc3 =~= acc2);
        }
    }
    assert(spec_fields(p, acc3, s4) == Ok::<_, crate::model::DecodeErrorView>(acc4)) by {
        if c.build is Some {
            let x = c.build->0;
            lemma_build_rt(p, x);
            assert(s4.drop_first() =~= Seq::<(Seq<char>, JsonView)>::empty());
        } else {
            assert(acc4 =~= acc3);
        }
    }
    assert(spec_fields(p, acc4, s5) == Ok::<_, crate::model::DecodeErrorView>(acc5)) by {
        if c.features is Some {
            let x = c.features->0;
            assert(s5.drop_first() =~= Seq::<(Seq<char>, JsonView)>::empty());
        } else {
            assert(acc5 =~= acc4);
        }
    }
    assert(spec_fields(p, acc5, s6) == Ok::<_, crate::model::DecodeErrorView>(acc6)) by {
        if c.extensions is Some {
            let x = c.extensions->0;
            lemma_str_list_rt("extensions"@, Seq::empty(), x);
            assert(Seq::<Seq<char>>::empty() + x =~= x);
            assert(s6.drop_first() =~= Seq::<(Seq<char>, JsonView)>::empty());
        } else {
            assert(acc6 =~= acc5);
        }
    }
    assert(spec_fields(p, acc6, s7) == Ok::<_, crate::model::DecodeErrorView>(acc7)) by {
        if c.settings is Some {
            let x = c.settings->0;
            assert(s7.drop_first() =~= Seq::<(Seq<char>, JsonView)>::empty());
        } else {
            assert(acc7 =~= acc6);
        }
    }
    lemma_fields_append(p, acc0, s1, s2);
    lemma_fields_append(p, acc0, s1 + s2, s3);
    lemma_fields_append(p, acc0, s1 + s2 + s3, s4);
    lemma_fields_append(p, acc0, s1 + s2 + s3 + s4, s5);
    lemma_fields_append(p, acc0, s1 + s2 + s3 + s4 + s5, s6);
    lemma_fields_append(p, acc0, s1 + s2 + s3 + s4 + s5 + s6, s7);
    assert(spec_encode_fields_a(c) == s1 + s2 + s3 + s4 + s5 + s6 + s7);
    assert(acc7 =~= filled_a(c));
}

/// Reading one quarter of an encoded configuration fills its fields.
#[verifier::rlimit(100)]
proof fn lemma_rt_b(p: CodecPolicy, c: DevContainerView)
    requires
        wf_config(p, c),
    ensures
        spec_fields(p, filled_a(c), spec_encode_fields_b(c)) == Ok::<
            _,
            crate::model::DecodeErrorView,
        >(filled_b(c)),
{
    reveal_with_fuel(spec_fields, 3);
    reveal_strlit("name");
    reveal_strlit("image");
    reveal_strlit("dockerFile");
    reveal_strlit("build");
    reveal_strlit("features");
    reveal_strlit("extensions");
    reveal_strlit("settings");
    reveal_strlit("forwardPorts");
    reveal_strlit("portsAttributes");
    reveal_strlit("otherPortsAttributes");
    reveal_strlit("containerEnv");
    reveal_strlit("remoteEnv");
    reveal_strlit("remoteUser");
    reveal_strlit("containerUser");
    assert("name"@.len() == 4);
    assert("image"@.len() == 5);
    assert("dockerFile"@.len() == 10);
    assert("build"@.len() == 5);
    assert("features"@.len() == 8);
    assert("extensions"@.len() == 10);
    assert("settings"@.len() == 8);
    assert("forwardPorts"@.len() == 12);
    assert("portsAttributes"@.len() == 15);
    assert("otherPortsAttributes"@.len() == 20);
    assert("containerEnv"@.len() == 12);
    assert("remoteEnv"@.len() == 9);
    assert("remoteUser"@.len() == 10);
    assert("containerUser"@.len() == 13);
    assert("name"@[0] == 'n');
    assert("image"@[0] == 'i');
    assert("dockerFile"@[0] == 'd');
    assert("build"@[0] == 'b');
    assert("features"@[0] == 'f');
    assert("extensions"@[0] == 'e');
    assert("settings"@[0] == 's');
    assert("forwardPorts"@[0] == 'f');
    assert("portsAttributes"@[0] == 'p');
    assert("otherPortsAttributes"@[0] == 'o');
    assert("containerEnv"@[0] == 'c');
    assert("remoteEnv"@[0] == 'r');
    assert("remoteUser"@[0] == 'r');
    assert("containerUser"@[0] == 'c');
    let acc0 = filled_a(c);
    let s1 = opt_entry("forwardPorts"@, c.forward_ports, |ps: Seq<PortSpecView>| enc_ports(ps));
    let s2 = opt_entry("portsAttributes"@, c.ports_attributes, |m: Seq<(Seq<char>, PortAttributesView)>| enc_attrs_map(m));
    let s3 = opt_entry("otherPortsAttributes"@, c.other_ports_attributes, |a: PortAttributesView| enc_attrs(a));
    let s4 = opt_entry("containerEnv"@, c.container_env, |m: Seq<(Seq<char>, Seq<char>)>| enc_str_map(m));
    let s5 = opt_entry("remoteEnv"@, c.remote_env, |m: Seq<(Seq<char>, Seq<char>)>| enc_str_map(m));
    let s6 = opt_entry("remoteUser"@, c.remote_user, |s: Seq<char>| JsonView::Str(s));
    let s7 = opt_entry("containerUser"@, c.container_user, |s: Seq<char>| JsonView::Str(s));
    let acc1 = DevContainerView { forward_ports: c.forward_ports, ..acc0 };
    let acc2 = DevContainerView { ports_attributes: c.ports_attributes, ..acc1 };
    let acc3 = DevContainerView { other_ports_attributes: c.other_ports_attributes, ..acc2 };
    let acc4 = DevContainerView { container_env: c.container_env, ..acc3 };
    let acc5 = DevContainerView { remote_env: c.remote_env, ..acc4 };
    let acc6 = DevContainerView { remote_user: c.remote_user, ..acc5 };
    let acc7 = DevContainerView { container_user: c.container_user, ..acc6 };
    assert(spec_fields(p, acc0, s1) == Ok::<_, crate::model::DecodeErrorView>(acc1)) by {
        if c.forward_ports is Some {
            let x = c.forward_ports->0;
            lemma_ports_rt(Seq::empty(), x);
            assert(Seq::<PortSpecView>::empty() + x =~= x);
            assert(s1.drop_first() =~= Seq::<(Seq<char>, JsonView)>::empty());
        } else {
            assert(acc1 =~= acc0);
        }
    }
    assert(spec_fields(p, acc1, s2) == Ok::<_, crate::model::DecodeErrorView>(acc2)) by {
        if c.ports_attributes is Some {
            let x = c.ports_attributes->0;
            lemma_attrs_map_rt(p, Seq::empty(), x);
            assert(Seq::<(Seq<char>, PortAttributesView)>::empty() + x =~= x);
            assert(s2.drop_first() =~= Seq::<(Seq<char>, JsonView)>::empty());
        } else {
            assert(acc2 =~= acc1);
        }
    }
    assert(spec_fields(p, acc2, s3) == Ok::<_, crate::model::DecodeErrorView>(acc3)) by {
        if c.other_ports_attributes is Some {
            let x = c.other_ports_attributes->0;
            lemma_attrs_rt(p, "otherPortsAttributes"@, x);
            assert(s3.drop_first() =~= Seq::<(Seq<char>, JsonView)>::empty());
        } else {
            assert(acc3 =~= acc2);
        }
    }
    assert(spec_fields(p, acc3, s4) == Ok::<_, crate::model::DecodeErrorView>(acc4)) by {
        if c.container_env is Some {
            let x = c.container_env->0;
            lemma_str_map_rt("containerEnv"@, Seq::empty(), x);
            assert(Seq::<(Seq<char>, Seq<char>)>::empty() + x =~= x);
            assert(s4.drop_first() =~= Seq::<(Seq<char>, JsonView)>::empty());
        } else {
            assert(acc4 =~= acc3);
        }
    }
    assert(spec_fields(p, acc4, s5) == Ok::<_, crate::model::DecodeErrorView>(acc5)) by {
        if c.remote_env is Some {
            let x = c.remote_env->0;
            lemma_str_map_rt("remoteEnv"@, Seq::empty(), x);
            assert(Seq::<(Seq<char>, Seq<char>)>::empty() + x =~= x);
            assert(s5.drop_first() =~= Seq::<(Seq<char>, JsonView)>::empty());
        } else {
            assert(acc5 =~= acc4);
        }
    }
    assert(spec_fields(p, acc5, s6) == Ok::<_, crate::model::DecodeErrorView>(acc6)) by {
        if c.remote_user is Some {
            let x = c.remote_user->0;
            assert(s6.drop_first() =~= Seq::<(Seq<char>, JsonView)>::empty());
        } else {
            assert(acc6 =~= acc5);
        }
    }
    assert(spec_fields(p, acc6, s7) == Ok::<_, crate::model::DecodeErrorView>(acc7)) by {
        if c.container_user is Some {
            let x = c.container_user->0;
            assert(s7.drop_first() =~= Seq::<(Seq<char>, JsonView)>::empty());
        } else {
            assert(acc7 =~= acc6);
        }
    }
    lemma_fields_append(p, acc0, s1, s2);
    lemma_fields_append(p, acc0, s1 + s2, s3);
    lemma_fields_append(p, acc0, s1 + s2 + s3, s4);
    lemma_fields_append(p, acc0, s1 + s2 + s3 + s4, s5);
    lemma_fields_append(p, acc0, s1 + s2 + s3 + s4 + s5, s6);
    lemma_fields_append(p, acc0, s1 + s2 + s3 + s4 + s5 + s6, s7);
    assert(spec_encode_fields_b(c) == s1 + s2 + s3 + s4 + s5 + s6 + s7);
    assert(acc7 =~= filled_b(c));
}

/// Reading one quarter of an encoded configuration fills its fields.
#[verifier::rlimit(100)]
proof fn lemma_rt_c(p: CodecPolicy, c: DevContainerView)
    requires
        wf_config(p, c),
    ensures
        spec_fields(p, filled_b(c), spec_encode_fields_c(c)) == Ok::<
            _,
            crate::model::DecodeErrorView,
        >(filled_c(c)),
{
    reveal_with_fuel(spec_fields, 3);
    reveal_strlit("name");
    reveal_strlit("image");
    reveal_strlit("dockerFile");
    reveal_strlit("build");
    reveal_strlit("features");
    reveal_strlit("extensions");
    reveal_strlit("settings");
    reveal_strlit("forwardPorts");
    reveal_strlit("portsAttributes");
    reveal_strlit("otherPortsAttributes");
    reveal_strlit("containerEnv");
    reveal_strlit("remoteEnv");
    reveal_strlit("remoteUser");
    reveal_strlit("containerUser");
    reveal_strlit("workspaceFolder");
    reveal_strlit("postCreateCommand");
    reveal_strlit("postStartCommand");
    reveal_strlit("postAttachCommand");
    reveal_strlit("customizations");
    reveal_strlit("init");
    reveal_strlit("privileged");
    assert("name"@.len() == 4);
    assert("image"@.len() == 5);
    assert("dockerFile"@.len() == 10);
    assert("build"@.len() == 5);
    assert("features"@.len() == 8);
    assert("extensions"@.len() == 10);
    assert("settings"@.len() == 8);
    assert("forwardPorts"@.len() == 12);
    assert("portsAttributes"@.len() == 15);
    assert("otherPortsAttributes"@.len() == 20);
    assert("containerEnv"@.len() == 12);
    assert("remoteEnv"@.len() == 9);
    assert("remoteUser"@.len() == 10);
    assert("containerUser"@.len() == 13);
    assert("workspaceFolder"@.len() == 15);
    assert("postCreateCommand"@.len() == 17);
    assert("postStartCommand"@.len() == 16);
    assert("postAttachCommand"@.len() == 17);
    assert("customizations"@.len() == 14);
    assert("init"@.len() == 4);
    assert("privileged"@.len() == 10);
    assert("name"@[0] == 'n');
    assert("image"@[0] == 'i');
    assert("dockerFile"@[0] == 'd');
    assert("build"@[0] == 'b');
    assert("features"@[0] == 'f');
    assert("extensions"@[0] == 'e');
    assert("settings"@[0] == 's');
    assert("forwardPorts"@[0] == 'f');
    assert("portsAttributes"@[0] == 'p');
    assert("otherPortsAttributes"@[0] == 'o');
    assert("containerEnv"@[0] == 'c');
    assert("remoteEnv"@[0] == 'r');
    assert("remoteUser"@[0] == 'r');
    assert("containerUser"@[0] == 'c');
    assert("workspaceFolder"@[0] == 'w');
    assert("postCreateCommand"@[0] == 'p');
    assert("postStartCommand"@[0] == 'p');
    assert("postAttachCommand"@[0] == 'p');
    assert("customizations"@[0] == 'c');
    assert("init"@[0] == 'i');
    assert("privileged"@[0] == 'p');
    assert("postCreateCommand"@[4] == 'C');
    assert("postAttachCommand"@[4] == 'A');
    let acc0 = filled_b(c);
    let s1 = opt_entry("workspaceFolder"@, c.workspace_folder, |s: Seq<char>| JsonView::Str(s));
    let s2 = opt_entry("postCreateCommand"@, c.post_create_command, |l: LifecycleCommandView| enc_lifecycle(l));
    let s3 = opt_entry("postStartCommand"@, c.post_start_command, |l: LifecycleCommandView| enc_lifecycle(l));
    let s4 = opt_entry("postAttachCommand"@, c.post_attach_command, |l: LifecycleCommandView| enc_lifecycle(l));
    let s5 = opt_entry("customizations"@, c.customizations, |m: Seq<(Seq<char>, JsonView)>| JsonView::Obj(m));
    let s6 = opt_entry("init"@, c.init, |b: bool| JsonView::Bool(b));
    let s7 = opt_entry("privileged"@, c.privileged, |b: bool| JsonView::Bool(b));
    let acc1 = DevContainerView { workspace_folder: c.workspace_folder, ..acc0 };
    let acc2 = DevContainerView { post_create_command: c.post_create_command, ..acc1 };
    let acc3 = DevContainerView { post_start_command: c.post_start_command, ..acc2 };
    let acc4 = DevContainerView { post_attach_command: c.post_attach_command, ..acc3 };
    let acc5 = DevContainerView { customizations: c.customizations, ..acc4 };
    let acc6 = DevContainerView { init: c.init, ..acc5 };
    let acc7 = DevContainerView { privileged: c.privileged, ..acc6 };
    assert(spec_fields(p, acc0, s1) == Ok::<_, crate::model::DecodeErrorView>(acc1)) by {
        if c.workspace_folder is Some {
            let x = c.workspace_folder->0;
            assert(s1.drop_first() =~= Seq::<(Seq<char>, JsonView)>::empty());
        } else {
            assert(acc1 =~= acc0);
        }
    }
    assert(spec_fields(p, acc1, s2) == Ok::<_, crate::model::DecodeErrorView>(acc2)) by {
        if c.post_create_command is Some {
            let x = c.post_create_command->0;
            lemma_lifecycle_rt("postCreateCommand"@, x);
            assert(s2.drop_first() =~= Seq::<(Seq<char>, JsonView)>::empty());
        } else {
            assert(acc2 =~= acc1);
        }
    }
    assert(spec_fields(p, acc2, s3) == Ok::<_, crate::model::DecodeErrorView>(acc3)) by {
        if c.post_start_command is Some {
            let x = c.post_start_command->0;
            lemma_lifecycle_rt("postStartCommand"@, x);
            assert(s3.drop_first() =~= Seq::<(Seq<char>, JsonView)>::empty());
        } else {
            assert(acc3 =~= acc2);
        }
    }
    assert(spec_fields(p, acc3, s4) == Ok::<_, crate::model::DecodeErrorView>(acc4)) by {
        if c.post_attach_command is Some {
            let x = c.post_attach_command->0;
            lemma_lifecycle_rt("postAttachCommand"@, x);
            assert(s4.drop_first() =~= Seq::<(Seq<char>, JsonView)>::empty());
        } else {
            assert(acc4 =~= acc3);
        }
    }
    assert(spec_fields(p, acc4, s5) == Ok::<_, crate::model::DecodeErrorView>(acc5)) by {
        if c.customizations is Some {
            let x = c.customizations->0;
            assert(s5.drop_first() =~= Seq::<(Seq<char>, JsonView)>::empty());
        } else {
            assert(acc5 =~= acc4);
        }
    }
    assert(spec_fields(p, acc5, s6) == Ok::<_, crate::model::DecodeErrorView>(acc6)) by {
        if c.init is Some {
            let x = c.init->0;
            assert(s6.drop_first() =~= Seq::<(Seq<char>, JsonView)>::empty());
        } else {
            assert(acc6 =~= acc5);
        }
    }
    assert(spec_fields(p, acc6, s7) == Ok::<_, crate::model::DecodeErrorView>(acc7)) by {
        if c.privileged is Some {
            let x = c.privileged->0;
            assert(s7.drop_first() =~= Seq::<(Seq<char>, JsonView)>::empty());
        } else {
            assert(acc7 =~= acc6);
        }
    }
    lemma_fields_append(p, acc0, s1, s2);
    lemma_fields_append(p, acc0, s1 + s2, s3);
    lemma_fields_append(p, acc0, s1 + s2 + s3, s4);
    lemma_fields_append(p, acc0, s1 + s2 + s3 + s4, s5);
    lemma_fields_append(p, acc0, s1 + s2 + s3 + s4 + s5, s6);
    lemma_fields_append(p, acc0, s1 + s2 + s3 + s4 + s5 + s6, s7);
    assert(spec_encode_fields_c(c) == s1 + s2 + s3 + s4 + s5 + s6 + s7);
    assert(acc7 =~= filled_c(c));
}

/// Reading one quarter of an encoded configuration fills its fields.
#[verifier::rlimit(100)]
proof fn lemma_rt_d(p: CodecPolicy, c: DevContainerView)
    requires
        wf_config(p, c),
    ensures
        spec_fields(p, filled_c(c), spec_encode_fields_d(c)) == Ok::<
            _,
            crate::model::DecodeErrorView,
        >(filled_d(c)),
{
    reveal_with_fuel(spec_fields, 3);
    reveal_strlit("name");
    reveal_strlit("image");
    reveal_strlit("dockerFile");
    reveal_strlit("build");
    reveal_strlit("features");
    reveal_strlit("extensions");
    reveal_strlit("settings");
    reveal_strlit("forwardPorts");
    reveal_strlit("portsAttributes");
    reveal_strlit("otherPortsAttributes");
    reveal_strlit("containerEnv");
    reveal_strlit("remoteEnv");
    reveal_strlit("remoteUser");
    reveal_strlit("containerUser");
    reveal_strlit("workspaceFolder");
    reveal_strlit("postCreateCommand");
    reveal_strlit("postStartCommand");
    reveal_strlit("postAttachCommand");
    reveal_strlit("customizations");
    reveal_strlit("init");
    reveal_strlit("privileged");
    reveal_strlit("overrideCommand");
    reveal_strlit("shutdownAction");
    reveal_strlit("mounts");
    reveal_strlit("runArgs");
    reveal_strlit("dockerComposeFile");
    reveal_strlit("service");
    reveal_strlit("workspaceMount");
    assert("name"@.len() == 4);
    assert("image"@.len() == 5);
    assert("dockerFile"@.len() == 10);
    assert("build"@.len() == 5);
    assert("features"@.len() == 8);
    assert("extensions"@.len() == 10);
    assert("settings"@.len() == 8);
    assert("forwardPorts"@.len() == 12);
    assert("portsAttributes"@.len() == 15);
    assert("otherPortsAttributes"@.len() == 20);
    assert("containerEnv"@.len() == 12);
    assert("remoteEnv"@.len() == 9);
    assert("remoteUser"@.len() == 10);
    assert("containerUser"@.len() == 13);
    assert("workspaceFolder"@.len() == 15);
    assert("postCreateCommand"@.len() == 17);
    assert("postStartCommand"@.len() == 16);
    assert("postAttachCommand"@.len() == 17);
    assert("customizations"@.len() == 14);
    assert("init"@.len() == 4);
    assert("privileged"@.len() == 10);
    assert("overrideCommand"@.len() == 15);
    assert("shutdownAction"@.len() == 14);
    assert("mounts"@.len() == 6);
    assert("runArgs"@.len() == 7);
    assert("dockerComposeFile"@.len() == 17);
    assert("service"@.len() == 7);
    assert("workspaceMount"@.len() == 14);
    assert("name"@[0] == 'n');
    assert("image"@[0] == 'i');
    assert("dockerFile"@[0] == 'd');
    assert("build"@[0] == 'b');
    assert("features"@[0] == 'f');
    assert("extensions"@[0] == 'e');
    assert("settings"@[0] == 's');
    assert("forwardPorts"@[0] == 'f');
    assert("portsAttributes"@[0] == 'p');
    assert("otherPortsAttributes"@[0] == 'o');
    assert("containerEnv"@[0] == 'c');
    assert("remoteEnv"@[0] == 'r');
    assert("remoteUser"@[0] == 'r');
    assert("containerUser"@[0] == 'c');
    assert("workspaceFolder"@[0] == 'w');
    assert("postCreateCommand"@[0] == 'p');
    assert("postStartCommand"@[0] == 'p');
    assert("postAttachCommand"@[0] == 'p');
    assert("customizations"@[0] == 'c');
    assert("init"@[0] == 'i');
    assert("privileged"@[0] == 'p');
    assert("overrideCommand"@[0] == 'o');
    assert("shutdownAction"@[0] == 's');
    assert("mounts"@[0] == 'm');
    assert("runArgs"@[0] == 'r');
    assert("dockerComposeFile"@[0] == 'd');
    assert("service"@[0] == 's');
    assert("workspaceMount"@[0] == 'w');
    assert("postCreateCommand"@[4] == 'C');
    assert("postAttachCommand"@[4] == 'A');
    let acc0 = filled_c(c);
    let s1 = opt_entry("overrideCommand"@, c.override_command, |b: bool| JsonView::Bool(b));
    let s2 = opt_entry("shutdownAction"@, c.shutdown_action, |a: ShutdownAction| enc_shutdown(a));
    let s3 = opt_entry("mounts"@, c.mounts, |ms: Seq<MountSpecView>| enc_mounts(ms));
    let s4 = opt_entry("runArgs"@, c.run_args, |ts: Seq<Seq<char>>| enc_str_list(ts));
    let s5 = opt_entry("dockerComposeFile"@, c.docker_compose_file, |d: DockerComposeFileView| enc_compose(d));
    let s6 = opt_entry("service"@, c.service, |s: Seq<char>| JsonView::Str(s));
    let s7 = opt_entry("workspaceMount"@, c.workspace_mount, |s: Seq<char>| JsonView::Str(s));
    let acc1 = DevContainerView { override_command: c.override_command, ..acc0 };
    let acc2 = DevContainerView { shutdown_action: c.shutdown_action, ..acc1 };
    let acc3 = DevContainerView { mounts: c.mounts, ..acc2 };
    let acc4 = DevContainerView { run_args: c.run_args, ..acc3 };
    let acc5 = DevContainerView { docker_compose_file: c.docker_compose_file, ..acc4 };
    let acc6 = DevContainerView { service: c.service, ..acc5 };
    let acc7 = DevContainerView { workspace_mount: c.workspace_mount, ..acc6 };
    assert(spec_fields(p, acc0, s1) == Ok::<_, crate::model::DecodeErrorView>(acc1)) by {
        if c.override_command is Some {
            let x = c.override_command->0;
            assert(s1.drop_first() =~= Seq::<(Seq<char>, JsonView)>::empty());
        } else {
            assert(acc1 =~= acc0);
        }
    }
    assert(spec_fields(p, acc1, s2) == Ok::<_, crate::model::DecodeErrorView>(acc2)) by {
        if c.shutdown_action is Some {
            let x = c.shutdown_action->0;
            lemma_shutdown_rt(x);
            assert(s2.drop_first() =~= Seq::<(Seq<char>, JsonView)>::empty());
        } else {
            assert(acc2 =~= acc1);
        }
    }
    assert(spec_fields(p, acc2, s3) == Ok::<_, crate::model::DecodeErrorView>(acc3)) by {
        if c.mounts is Some {
            let x = c.mounts->0;
            lemma_mounts_rt(p, Seq::empty(), x);
            assert(Seq::<MountSpecView>::empty() + x =~= x);
            assert(s3.drop_first() =~= Seq::<(Seq<char>, JsonView)>::empty());
        } else {
            assert(acc3 =~= acc2);
        }
    }
    assert(spec_fields(p, acc3, s4) == Ok::<_, crate::model::DecodeErrorView>(acc4)) by {
        if c.run_args is Some {
            let x = c.run_args->0;
            lemma_str_list_rt("runArgs"@, Seq::empty(), x);
            assert(Seq::<Seq<char>>::empty() + x =~= x);
            assert(s4.drop_first() =~= Seq::<(Seq<char>, JsonView)>::empty());
        } else {
            assert(acc4 =~= acc3);
        }
    }
    assert(spec_fields(p, acc4, s5) == Ok::<_, crate::model::DecodeErrorView>(acc5)) by {
        if c.docker_compose_file is Some {
            let x = c.docker_compose_file->0;
            lemma_compose_rt("dockerComposeFile"@, x);
            assert(s5.drop_first() =~= Seq::<(Seq<char>, JsonView)>::empty());
        } else {
            assert(acc5 =~= acc4);
        }
    }
    assert(spec_fields(p, acc5, s6) == Ok::<_, crate::model::DecodeErrorView>(acc6)) by {
        if c.service is Some {
            let x = c.service->0;
            assert(s6.drop_first() =~= Seq::<(Seq<char>, JsonView)>::empty());
        } else {
            assert(acc6 =~= acc5);
        }
    }
    assert(spec_fields(p, acc6, s7) == Ok::<_, crate::model::DecodeErrorView>(acc7)) by {
        if c.workspace_mount is Some {
            let x = c.workspace_mount->0;
            assert(s7.drop_first() =~= Seq::<(Seq<char>, JsonView)>::empty());
        } else {
            assert(acc7 =~= acc6);
        }
    }
    lemma_fields_append(p, acc0, s1, s2);
    lemma_fields_append(p, acc0, s1 + s2, s3);
    lemma_fields_append(p, acc0, s1 + s2 + s3, s4);
    lemma_fields_append(p, acc0, s1 + s2 + s3 + s4, s5);
    lemma_fields_append(p, acc0, s1 + s2 + s3 + s4 + s5, s6);
    lemma_fields_append(p, acc0, s1 + s2 + s3 + s4 + s5 + s6, s7);
    assert(spec_encode_fields_d(c) == s1 + s2 + s3 + s4 + s5 + s6 + s7);
    assert(acc7 =~= filled_d(c));
}

/// Decoding an encoding gives the configuration back: for every
/// configuration `c` that is well formed under the policy `p`,
/// `Decode(p, Encode(c))` is `Ok(c)`.
#[verifier::rlimit(50)]
pub proof fn lemma_encode_decode_round_trip(p: CodecPolicy, c: DevContainerView)
    requires
        wf_config(p, c),
    ensures
        spec_decode(p, spec_encode(c)) == Ok::<_, crate::model::DecodeErrorView>(c),
{
    let acc0 = DevContainerView::empty();
    let fa = spec_encode_fields_a(c);
    let fb = spec_encode_fields_b(c);
    let fc = spec_encode_fields_c(c);
    let fd = spec_encode_fields_d(c);
    lemma_rt_a(p, c);
    lemma_rt_b(p, c);
    lemma_rt_c(p, c);
    lemma_rt_d(p, c);
    lemma_fields_append(p, acc0, fa, fb);
    lemma_fields_append(p, acc0, fa + fb, fc);
    lemma_fields_append(p, acc0, fa + fb + fc, fd);
    lemma_fields_append(p, acc0, fa + fb + fc + fd, c.additional_fields);
    lemma_fields_capture(p, filled_d(c), c.additional_fields);
    assert(DevContainerView {
        additional_fields: filled_d(c).additional_fields + c.additional_fields,
        ..filled_d(c)
    } =~= c) by {
        assert(Seq::<(Seq<char>, JsonView)>::empty() + c.additional_fields
            =~= c.additional_fields);
    }
    assert(spec_fields(p, acc0, spec_encode_fields(c)) == Ok::<
        _,
        crate::model::DecodeErrorView,
    >(c));
}

/// The members of `es` whose names the schema under `p` does not
/// recognize, in order, with their values.
pub open spec fn unrecognized_members(p: CodecPolicy, es: Seq<(Seq<char>, JsonView)>) -> Seq<
    (Seq<char>, JsonView),
>
    decreases es.len(),
{
    if es.len() == 0 {
        Seq::empty()
    } else if !recognized(es[0].0, p) {
        seq![es[0]] + unrecognized_members(p, es.drop_first())
    } else {
        unrecognized_members(p, es.drop_first())
    }
}

/// Under the strict policy, a read that succeeds read no unrecognized
/// name.
proof fn lemma_fields_ok_all_recognized(
    p: CodecPolicy,
    acc: DevContainerView,
    es: Seq<(Seq<char>, JsonView)>,
    c: DevContainerView,
)
    requires
        !p.allow_unknown_fields,
        spec_fields(p, acc, es) == Ok::<_, crate::model::DecodeErrorView>(c),
    ensures
        forall|i: int| 0 <= i < es.len() ==> recognized((#[trigger] es[i]).0, p),
    decreases es.len(),
{
    if es.len() > 0 {
        assert(recognized(es[0].0, p));
        match spec_field(p, acc, es[0].0, es[0].1) {
            Ok(m) => {
                lemma_fields_ok_all_recognized(p, m, es.drop_first(), c);
                assert forall|i: int| 0 <= i < es.len() implies recognized(
                    (#[trigger] es[i]).0,
                    p,
                ) by {
                    if i > 0 {
                        assert(es.drop_first()[i - 1] == es[i]);
                    }
                }
            },
            Err(_) => {
                assert(false);
            },
        }
    }
}

/// Under the strict policy, a document with an unrecognized member never
/// decodes: the whole decode fails.
pub proof fn lemma_strict_unknown_field_fails(p: CodecPolicy, v: JsonView, i: int)
    requires
        !p.allow_unknown_fields,
        v is Obj,
        0 <= i < v->Obj_0.len(),
        !recognized(v->Obj_0[i].0, p),
    ensures
        spec_decode(p, v) is Err,
{
    match spec_decode(p, v) {
        Ok(c) => {
            lemma_fields_ok_all_recognized(p, DevContainerView::empty(), v->Obj_0, c);
        },
        Err(_) => {},
    }
}

/// Under the permissive policy, reading members extends the captured
/// mapping by exactly the unrecognized members, in order.
proof fn lemma_fields_ok_captures(
    p: CodecPolicy,
    acc: DevContainerView,
    es: Seq<(Seq<char>, JsonView)>,
    c: DevContainerView,
)
    requires
        p.allow_unknown_fields,
        spec_fields(p, acc, es) == Ok::<_, crate::model::DecodeErrorView>(c),
    ensures
        c.additional_fields == acc.additional_fields + unrecognized_members(p, es),
    decreases es.len(),
{
    if es.len() == 0 {
        assert(acc.additional_fields + unrecognized_members(p, es) =~= acc.additional_fields);
    } else {
        match spec_field(p, acc, es[0].0, es[0].1) {
            Ok(m) => {
                lemma_fields_ok_captures(p, m, es.drop_first(), c);
                if !recognized(es[0].0, p) {
                    assert(m.additional_fields == acc.additional_fields.push(es[0]));
                    assert(acc.additional_fields.push(es[0]) + unrecognized_members(
                        p,
                        es.drop_first(),
                    ) =~= acc.additional_fields + (seq![es[0]] + unrecognized_members(
                        p,
                        es.drop_first(),
                    )));
                } else {
                    assert(m.additional_fields == acc.additional_fields);
                }
            },
            Err(_) => {
                assert(false);
            },
        }
    }
}

/// Under the permissive policy, a decode that succeeds captures exactly
/// the unrecognized members of the document, in order, with their original
/// values.
pub proof fn lemma_lax_decode_captures_unknown(p: CodecPolicy, v: JsonView, c: DevContainerView)
    requires
        p.allow_unknown_fields,
        spec_decode(p, v) == Ok::<_, crate::model::DecodeErrorView>(c),
    ensures
        v is Obj,
        c.additional_fields == unrecognized_members(p, v->Obj_0),
    decreases v,
{
    lemma_fields_ok_captures(p, DevContainerView::empty(), v->Obj_0, c);
    assert(Seq::<(Seq<char>, JsonView)>::empty() + unrecognized_members(p, v->Obj_0)
        =~= unrecognized_members(p, v->Obj_0));
}


/// Under the strict policy, when the members before position `i` read
/// without error and the member at `i` has an unrecognized name, the whole
/// decode fails with exactly that name as an unrecognized field.
pub proof fn lemma_strict_fails_with_unrecognized_field(p: CodecPolicy, v: JsonView, i: int)
    requires
        !p.allow_unknown_fields,
        v is Obj,
        0 <= i < v->Obj_0.len(),
        !recognized(v->Obj_0[i].0, p),
        spec_fields(p, DevContainerView::empty(), v->Obj_0.take(i)) is Ok,
    ensures
        spec_decode(p, v) == Err::<DevContainerView, _>(
            crate::model::DecodeErrorView::UnrecognizedField { field: v->Obj_0[i].0 },
        ),
{
    let es = v->Obj_0;
    assert(es =~= es.take(i) + es.skip(i));
    lemma_fields_append(p, DevContainerView::empty(), es.take(i), es.skip(i));
    assert(es.skip(i)[0] == es[i]);
}

/// A configuration with every field absent encodes to an object with no
/// members.
pub proof fn lemma_encode_empty()
    ensures
        spec_encode(DevContainerView::empty()) == JsonView::Obj(
            Seq::<(Seq<char>, JsonView)>::empty(),
        ),
{
    assert(spec_encode_fields(DevContainerView::empty()) =~= Seq::<(Seq<char>, JsonView)>::empty());
}

} // verus!
