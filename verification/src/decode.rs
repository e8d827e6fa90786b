use vstd::prelude::*;
use crate::json::{JsonValue, JsonView, lemma_view_obj};
use crate::decode_values::{
    decode_bool, decode_compose, decode_json_map, decode_lifecycle, decode_ports_arr,
    decode_shutdown, decode_str, decode_str_arr, decode_str_map_obj, mismatch, mk_mismatch,
    spec_bool, spec_compose, spec_json_map, spec_lifecycle, spec_ports_arr, spec_shutdown,
    spec_str, spec_str_arr, spec_str_map_obj,
};
use crate::model::{
    BuildConfig, BuildConfigView, CodecPolicy, DecodeError, DecodeErrorView, DevContainer,
    DevContainerView, MountSpec, MountSpecView, PortAttributes, PortAttributesView,
};
use crate::util::{res_view, str_eq};

verus! {

// ---------------------------------------------------------------------------
// Decoding of the objects of the schema: port attributes, mounts, build
// instructions, and the root configuration. Each object is read member by
// member in document order; a recognized name sets its field, and an
// unrecognized name fails the decode under the strict policy or is captured
// under the permissive one.
// ---------------------------------------------------------------------------

/// One member applied to a port-attributes value under construction.
pub open spec fn spec_attr_field(
    p: CodecPolicy,
    acc: PortAttributesView,
    name: Seq<char>,
    v: JsonView,
) -> Result<PortAttributesView, DecodeErrorView> {
    if name == "label"@ {
        match spec_str("label"@, v) {
            Ok(s) => Ok(PortAttributesView { label: Some(s), ..acc }),
            Err(e) => Err(e),
        }
    } else if name == "protocol"@ {
        match spec_str("protocol"@, v) {
            Ok(s) => Ok(PortAttributesView { protocol: Some(s), ..acc }),
            Err(e) => Err(e),
        }
    } else if name == "onAutoForward"@ {
        match spec_str("onAutoForward"@, v) {
            Ok(s) => Ok(PortAttributesView { on_auto_forward: Some(s), ..acc }),
            Err(e) => Err(e),
        }
    } else if name == "requireLocalPort"@ {
        match spec_bool("requireLocalPort"@, v) {
            Ok(b) => Ok(PortAttributesView { require_local_port: Some(b), ..acc }),
            Err(e) => Err(e),
        }
    } else if name == "elevateIfNeeded"@ {
        match spec_bool("elevateIfNeeded"@, v) {
            Ok(b) => Ok(PortAttributesView { elevate_if_needed: Some(b), ..acc }),
            Err(e) => Err(e),
        }
    } else if p.allow_unknown_fields {
        Ok(
            PortAttributesView {
                additional_fields: acc.additional_fields.push((name, v)),
                ..acc
            },
        )
    } else {
        Err(DecodeErrorView::UnrecognizedField { field: name })
    }
}

/// Applies one member to a port-attributes value under construction.
fn apply_attr_field(p: CodecPolicy, acc: PortAttributes, name: String, v: JsonValue) -> (r: Result<
    PortAttributes,
    DecodeError,
>)
    ensures
        res_view(r) == spec_attr_field(p, acc.deep_view(), name@, v.deep_view()),
{
    let mut a = acc;
    if str_eq(name.as_str(), "label") {
        match decode_str("label", v) {
            Ok(s) => {
                a.label = Some(s);
                Ok(a)
            },
            Err(e) => Err(e),
        }
    } else if str_eq(name.as_str(), "protocol") {
        match decode_str("protocol", v) {
            Ok(s) => {
                a.protocol = Some(s);
                Ok(a)
            },
            Err(e) => Err(e),
        }
    } else if str_eq(name.as_str(), "onAutoForward") {
        match decode_str("onAutoForward", v) {
            Ok(s) => {
                a.on_auto_forward = Some(s);
                Ok(a)
            },
            Err(e) => Err(e),
        }
    } else if str_eq(name.as_str(), "requireLocalPort") {
        match decode_bool("requireLocalPort", v) {
            Ok(b) => {
                a.require_local_port = Some(b);
                Ok(a)
            },
            Err(e) => Err(e),
        }
    } else if str_eq(name.as_str(), "elevateIfNeeded") {
        match decode_bool("elevateIfNeeded", v) {
            Ok(b) => {
                a.elevate_if_needed = Some(b);
                Ok(a)
            },
            Err(e) => Err(e),
        }
    } else if p.allow_unknown_fields {
        let ghost pre = a.deep_view().additional_fields;
        a.additional_fields.push((name, v));
        proof {
            assert(a.deep_view().additional_fields =~= pre.push((name@, v.deep_view())));
        }
        Ok(a)
    } else {
        Err(DecodeError::UnrecognizedField { field: name })
    }
}

/// The members of a port-attributes object applied in order.
pub open spec fn spec_attr_fields(
    p: CodecPolicy,
    acc: PortAttributesView,
    es: Seq<(Seq<char>, JsonView)>,
) -> Result<PortAttributesView, DecodeErrorView>
    decreases es.len(),
{
    if es.len() == 0 {
        Ok(acc)
    } else {
        match spec_attr_field(p, acc, es[0].0, es[0].1) {
            Ok(a) => spec_attr_fields(p, a, es.drop_first()),
            Err(e) => Err(e),
        }
    }
}

/// What a port-attributes value decodes to: an object read member by member
/// from the all-absent value; any other kind is a mismatch at field `f`.
pub open spec fn spec_attrs(p: CodecPolicy, f: Seq<char>, v: JsonView) -> Result<
    PortAttributesView,
    DecodeErrorView,
> {
    match v {
        JsonView::Obj(es) => spec_attr_fields(p, PortAttributesView::empty(), es),
        _ => Err(mismatch(f, "object"@)),
    }
}

/// Decodes a port-attributes value.
#[verifier::loop_isolation(false)]
pub(crate) fn decode_attrs(p: CodecPolicy, f: &str, v: JsonValue) -> (r: Result<
    PortAttributes,
    DecodeError,
>)
    ensures
        res_view(r) == spec_attrs(p, f@, v.deep_view()),
{
    match v {
        JsonValue::Obj(m) => {
            proof {
                lemma_view_obj(m);
            }
            let mut acc = PortAttributes::default();
            let mut rest = m;
            let ghost target = spec_attr_fields(p, acc.deep_view(), rest.deep_view());
            while rest.len() > 0
                invariant
                    spec_attr_fields(p, acc.deep_view(), rest.deep_view()) == target,
                decreases rest.len(),
            {
                let ghost pre = rest.deep_view();
                let e = rest.remove(0);
                proof {
                    assert(e.deep_view() == pre[0]);
                    assert(rest.deep_view() =~= pre.drop_first());
                }
                let (k, val) = e;
                match apply_attr_field(p, acc, k, val) {
                    Ok(a) => {
                        acc = a;
                    },
                    Err(err) => {
                        return Err(err);
                    },
                }
            }
            Ok(acc)
        },
        _ => Err(mk_mismatch(f, "object")),
    }
}

/// What the per-port attributes map decodes to, entry by entry from the
/// front onto `acc`: each member value must be a port-attributes object.
pub open spec fn spec_attrs_map(
    p: CodecPolicy,
    acc: Seq<(Seq<char>, PortAttributesView)>,
    es: Seq<(Seq<char>, JsonView)>,
) -> Result<Seq<(Seq<char>, PortAttributesView)>, DecodeErrorView>
    decreases es.len(),
{
    if es.len() == 0 {
        Ok(acc)
    } else {
        match spec_attrs(p, "portsAttributes"@, es[0].1) {
            Ok(a) => spec_attrs_map(p, acc.push((es[0].0, a)), es.drop_first()),
            Err(e) => Err(e),
        }
    }
}

/// What the per-port attributes field decodes to: the value must be an
/// object of port-attributes objects.
pub open spec fn spec_attrs_map_obj(p: CodecPolicy, v: JsonView) -> Result<
    Seq<(Seq<char>, PortAttributesView)>,
    DecodeErrorView,
> {
    match v {
        JsonView::Obj(es) => spec_attrs_map(p, Seq::empty(), es),
        _ => Err(mismatch("portsAttributes"@, "object"@)),
    }
}

/// Decodes the per-port attributes field.
#[verifier::loop_isolation(false)]
pub(crate) fn decode_attrs_map_obj(p: CodecPolicy, v: JsonValue) -> (r: Result<
    Vec<(String, PortAttributes)>,
    DecodeError,
>)
    ensures
        res_view(r) == spec_attrs_map_obj(p, v.deep_view()),
{
    match v {
        JsonValue::Obj(m) => {
            proof {
                lemma_view_obj(m);
            }
            let mut out: Vec<(String, PortAttributes)> = Vec::new();
            let mut rest = m;
            let ghost target = spec_attrs_map(p, Seq::empty(), rest.deep_view());
            proof {
                assert(out.deep_view() =~= Seq::<(Seq<char>, PortAttributesView)>::empty());
            }
            while rest.len() > 0
                invariant
                    spec_attrs_map(p, out.deep_view(), rest.deep_view()) == target,
                decreases rest.len(),
            {
                let ghost pre = rest.deep_view();
                let ghost preout = out.deep_view();
                let e = rest.remove(0);
                proof {
                    assert(e.deep_view() == pre[0]);
                    assert(rest.deep_view() =~= pre.drop_first());
                }
                let (k, val) = e;
                match decode_attrs(p, "portsAttributes", val) {
                    Ok(a) => {
                        out.push((k, a));
                        proof {
                            assert(out.deep_view() =~= preout.push((k@, a.deep_view())));
                        }
                    },
                    Err(err) => {
                        return Err(err);
                    },
                }
            }
            Ok(out)
        },
        _ => Err(mk_mismatch("portsAttributes", "object")),
    }
}

/// One member applied to a mount value under construction.
pub open spec fn spec_mount_field(
    p: CodecPolicy,
    acc: MountSpecView,
    name: Seq<char>,
    v: JsonView,
) -> Result<MountSpecView, DecodeErrorView> {
    if name == "source"@ {
        match spec_str("source"@, v) {
            Ok(s) => Ok(MountSpecView { source: Some(s), ..acc }),
            Err(e) => Err(e),
        }
    } else if name == "target"@ {
        match spec_str("target"@, v) {
            Ok(s) => Ok(MountSpecView { target: Some(s), ..acc }),
            Err(e) => Err(e),
        }
    } else if name == "type"@ {
        match spec_str("type"@, v) {
            Ok(s) => Ok(MountSpecView { mount_type: Some(s), ..acc }),
            Err(e) => Err(e),
        }
    } else if p.allow_unknown_fields {
        Ok(MountSpecView { additional_fields: acc.additional_fields.push((name, v)), ..acc })
    } else {
        Err(DecodeErrorView::UnrecognizedField { field: name })
    }
}

/// Applies one member to a mount value under construction.
fn apply_mount_field(p: CodecPolicy, acc: MountSpec, name: String, v: JsonValue) -> (r: Result<
    MountSpec,
    DecodeError,
>)
    ensures
        res_view(r) == spec_mount_field(p, acc.deep_view(), name@, v.deep_view()),
{
    let mut a = acc;
    if str_eq(name.as_str(), "source") {
        match decode_str("source", v) {
            Ok(s) => {
                a.source = Some(s);
                Ok(a)
            },
            Err(e) => Err(e),
        }
    } else if str_eq(name.as_str(), "target") {
        match decode_str("target", v) {
            Ok(s) => {
                a.target = Some(s);
                Ok(a)
            },
            Err(e) => Err(e),
        }
    } else if str_eq(name.as_str(), "type") {
        match decode_str("type", v) {
            Ok(s) => {
                a.mount_type = Some(s);
                Ok(a)
            },
            Err(e) => Err(e),
        }
    } else if p.allow_unknown_fields {
        let ghost pre = a.deep_view().additional_fields;
        a.additional_fields.push((name, v));
        proof {
            assert(a.deep_view().additional_fields =~= pre.push((name@, v.deep_view())));
        }
        Ok(a)
    } else {
        Err(DecodeError::UnrecognizedField { field: name })
    }
}

/// The members of a mount object applied in order.
pub open spec fn spec_mount_fields(
    p: CodecPolicy,
    acc: MountSpecView,
    es: Seq<(Seq<char>, JsonView)>,
) -> Result<MountSpecView, DecodeErrorView>
    decreases es.len(),
{
    if es.len() == 0 {
        Ok(acc)
    } else {
        match spec_mount_field(p, acc, es[0].0, es[0].1) {
            Ok(a) => spec_mount_fields(p, a, es.drop_first()),
            Err(e) => Err(e),
        }
    }
}

/// What one mount decodes to: an object read member by member from the
/// all-absent value; any other kind is a mismatch.
pub open spec fn spec_mount(p: CodecPolicy, v: JsonView) -> Result<MountSpecView, DecodeErrorView> {
    match v {
        JsonView::Obj(es) => spec_mount_fields(p, MountSpecView::empty(), es),
        _ => Err(mismatch("mounts"@, "object"@)),
    }
}

/// Decodes one mount.
#[verifier::loop_isolation(false)]
fn decode_mount(p: CodecPolicy, v: JsonValue) -> (r: Result<MountSpec, DecodeError>)
    ensures
        res_view(r) == spec_mount(p, v.deep_view()),
{
    match v {
        JsonValue::Obj(m) => {
            proof {
                lemma_view_obj(m);
            }
            let mut acc = MountSpec::default();
            let mut rest = m;
            let ghost target = spec_mount_fields(p, acc.deep_view(), rest.deep_view());
            while rest.len() > 0
                invariant
                    spec_mount_fields(p, acc.deep_view(), rest.deep_view()) == target,
                decreases rest.len(),
            {
                let ghost pre = rest.deep_view();
                let e = rest.remove(0);
                proof {
                    assert(e.deep_view() == pre[0]);
                    assert(rest.deep_view() =~= pre.drop_first());
                }
                let (k, val) = e;
                match apply_mount_field(p, acc, k, val) {
                    Ok(a) => {
                        acc = a;
                    },
                    Err(err) => {
                        return Err(err);
                    },
                }
            }
            Ok(acc)
        },
        _ => Err(mk_mismatch("mounts", "object")),
    }
}

/// What the mounts list decodes to, element by element from the front onto
/// `acc`: every element must be a mount object.
pub open spec fn spec_mounts(
    p: CodecPolicy,
    acc: Seq<MountSpecView>,
    vs: Seq<JsonView>,
) -> Result<Seq<MountSpecView>, DecodeErrorView>
    decreases vs.len(),
{
    if vs.len() == 0 {
        Ok(acc)
    } else {
        match spec_mount(p, vs[0]) {
            Ok(a) => spec_mounts(p, acc.push(a), vs.drop_first()),
            Err(e) => Err(e),
        }
    }
}

/// What the mounts field decodes to: the value must be an array of mount
/// objects.
pub open spec fn spec_mounts_arr(p: CodecPolicy, v: JsonView) -> Result<
    Seq<MountSpecView>,
    DecodeErrorView,
> {
    match v {
        JsonView::Arr(vs) => spec_mounts(p, Seq::empty(), vs),
        _ => Err(mismatch("mounts"@, "array"@)),
    }
}

/// Decodes the mounts field.
#[verifier::loop_isolation(false)]
pub(crate) fn decode_mounts_arr(p: CodecPolicy, v: JsonValue) -> (r: Result<
    Vec<MountSpec>,
    DecodeError,
>)
    ensures
        res_view(r) == spec_mounts_arr(p, v.deep_view()),
{
    match v {
        JsonValue::Arr(a) => {
            proof {
                crate::json::lemma_view_arr(a);
            }
            let mut out: Vec<MountSpec> = Vec::new();
            let mut rest = a;
            let ghost target = spec_mounts(p, Seq::empty(), rest.deep_view());
            proof {
                assert(out.deep_view() =~= Seq::<MountSpecView>::empty());
            }
            while rest.len() > 0
                invariant
                    spec_mounts(p, out.deep_view(), rest.deep_view()) == target,
                decreases rest.len(),
            {
                let ghost pre = rest.deep_view();
                let ghost preout = out.deep_view();
                let e = rest.remove(0);
                proof {
                    assert(e.deep_view() == pre[0]);
                    assert(rest.deep_view() =~= pre.drop_first());
                }
                match decode_mount(p, e) {
                    Ok(a) => {
                        out.push(a);
                        proof {
                            assert(out.deep_view() =~= preout.push(a.deep_view()));
                        }
                    },
                    Err(err) => {
                        return Err(err);
                    },
                }
            }
            Ok(out)
        },
        _ => Err(mk_mismatch("mounts", "array")),
    }
}

/// One member applied to a build value under construction.
pub open spec fn spec_build_field(
    p: CodecPolicy,
    acc: BuildConfigView,
    name: Seq<char>,
    v: JsonView,
) -> Result<BuildConfigView, DecodeErrorView> {
    if name == "dockerfile"@ {
        match spec_str("dockerfile"@, v) {
            Ok(s) => Ok(BuildConfigView { dockerfile: Some(s), ..acc }),
            Err(e) => Err(e),
        }
    } else if name == "context"@ {
        match spec_str("context"@, v) {
            Ok(s) => Ok(BuildConfigView { context: Some(s), ..acc }),
            Err(e) => Err(e),
        }
    } else if name == "args"@ {
        match spec_str_map_obj("args"@, v) {
            Ok(m) => Ok(BuildConfigView { args: Some(m), ..acc }),
            Err(e) => Err(e),
        }
    } else if name == "target"@ {
        match spec_str("target"@, v) {
            Ok(s) => Ok(BuildConfigView { target: Some(s), ..acc }),
            Err(e) => Err(e),
        }
    } else if name == "cacheFrom"@ {
        match spec_str_arr("cacheFrom"@, v) {
            Ok(ts) => Ok(BuildConfigView { cache_from: Some(ts), ..acc }),
            Err(e) => Err(e),
        }
    } else if p.allow_unknown_fields {
        Ok(BuildConfigView { additional_fields: acc.additional_fields.push((name, v)), ..acc })
    } else {
        Err(DecodeErrorView::UnrecognizedField { field: name })
    }
}

/// Applies one member to a build value under construction.
fn apply_build_field(p: CodecPolicy, acc: BuildConfig, name: String, v: JsonValue) -> (r: Result<
    BuildConfig,
    DecodeError,
>)
    ensures
        res_view(r) == spec_build_field(p, acc.deep_view(), name@, v.deep_view()),
{
    let mut a = acc;
    if str_eq(name.as_str(), "dockerfile") {
        match decode_str("dockerfile", v) {
            Ok(s) => {
                a.dockerfile = Some(s);
                Ok(a)
            },
            Err(e) => Err(e),
        }
    } else if str_eq(name.as_str(), "context") {
        match decode_str("context", v) {
            Ok(s) => {
                a.context = Some(s);
                Ok(a)
            },
            Err(e) => Err(e),
        }
    } else if str_eq(name.as_str(), "args") {
        match decode_str_map_obj("args", v) {
            Ok(m) => {
                a.args = Some(m);
                Ok(a)
            },
            Err(e) => Err(e),
        }
    } else if str_eq(name.as_str(), "target") {
        match decode_str("target", v) {
            Ok(s) => {
                a.target = Some(s);
                Ok(a)
            },
            Err(e) => Err(e),
        }
    } else if str_eq(name.as_str(), "cacheFrom") {
        match decode_str_arr("cacheFrom", v) {
            Ok(ts) => {
                a.cache_from = Some(ts);
                Ok(a)
            },
            Err(e) => Err(e),
        }
    } else if p.allow_unknown_fields {
        let ghost pre = a.deep_view().additional_fields;
        a.additional_fields.push((name, v));
        proof {
            assert(a.deep_view().additional_fields =~= pre.push((name@, v.deep_view())));
        }
        Ok(a)
    } else {
        Err(DecodeError::UnrecognizedField { field: name })
    }
}

/// The members of a build object applied in order.
pub open spec fn spec_build_fields(
    p: CodecPolicy,
    acc: BuildConfigView,
    es: Seq<(Seq<char>, JsonView)>,
) -> Result<BuildConfigView, DecodeErrorView>
    decreases es.len(),
{
    if es.len() == 0 {
        Ok(acc)
    } else {
        match spec_build_field(p, acc, es[0].0, es[0].1) {
            Ok(a) => spec_build_fields(p, a, es.drop_first()),
            Err(e) => Err(e),
        }
    }
}

/// What the build field decodes to: an object read member by member from
/// the all-absent value; any other kind is a mismatch.
pub open spec fn spec_build(p: CodecPolicy, v: JsonView) -> Result<
    BuildConfigView,
    DecodeErrorView,
> {
    match v {
        JsonView::Obj(es) => spec_build_fields(p, BuildConfigView::empty(), es),
        _ => Err(mismatch("build"@, "object"@)),
    }
}

/// Decodes the build field.
#[verifier::loop_isolation(false)]
pub(crate) fn decode_build(p: CodecPolicy, v: JsonValue) -> (r: Result<BuildConfig, DecodeError>)
    ensures
        res_view(r) == spec_build(p, v.deep_view()),
{
    match v {
        JsonValue::Obj(m) => {
            proof {
                lemma_view_obj(m);
            }
            let mut acc = BuildConfig::default();
            let mut rest = m;
            let ghost target = spec_build_fields(p, acc.deep_view(), rest.deep_view());
            while rest.len() > 0
                invariant
                    spec_build_fields(p, acc.deep_view(), rest.deep_view()) == target,
                decreases rest.len(),
            {
                let ghost pre = rest.deep_view();
                let e = rest.remove(0);
                proof {
                    assert(e.deep_view() == pre[0]);
                    assert(rest.deep_view() =~= pre.drop_first());
                }
                let (k, val) = e;
                match apply_build_field(p, acc, k, val) {
                    Ok(a) => {
                        acc = a;
                    },
                    Err(err) => {
                        return Err(err);
                    },
                }
            }
            Ok(acc)
        },
        _ => Err(mk_mismatch("build", "object")),
    }
}

} // verus!
