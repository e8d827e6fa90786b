use vstd::prelude::*;
use crate::json::{JsonValue, JsonView, lemma_view_arr, lemma_view_obj};
use crate::model::{
    CommandSpec, CommandSpecView, DecodeError, DecodeErrorView, DockerComposeFile,
    DockerComposeFileView, PortSpec, PortSpecView, ServicePort, ShutdownAction,
};
use crate::service_port::{int_text, parse_service_port, i64_text};
use crate::util::{res_view, str_eq};

verus! {

// ---------------------------------------------------------------------------
// Decoders for scalar values and for the kind-dispatched unions. Each
// alternative of a union is tried in its declared order, on the JSON kind of
// the value alone; only a matched alternative validates content.
// ---------------------------------------------------------------------------

/// A kind mismatch at field `f`, expecting `k`.
pub open spec fn mismatch(f: Seq<char>, k: Seq<char>) -> DecodeErrorView {
    DecodeErrorView::StructuralMismatch { field: f, expected: k }
}

/// A content failure at field `f`, on the value text `v`.
pub open spec fn invalid(f: Seq<char>, v: Seq<char>) -> DecodeErrorView {
    DecodeErrorView::InvalidScalar { field: f, value: v }
}

/// A kind mismatch at field `f`, expecting `k`.
pub(crate) fn mk_mismatch(f: &str, k: &str) -> (r: DecodeError)
    ensures
        r.deep_view() == mismatch(f@, k@),
{
    DecodeError::StructuralMismatch { field: String::from_str(f), expected: String::from_str(k) }
}

/// What a string field decodes to: the text of a string value, and an error
/// on every other kind.
pub open spec fn spec_str(f: Seq<char>, v: JsonView) -> Result<Seq<char>, DecodeErrorView> {
    match v {
        JsonView::Str(s) => Ok(s),
        _ => Err(mismatch(f, "string"@)),
    }
}

/// Decodes a string field.
pub(crate) fn decode_str(f: &str, v: JsonValue) -> (r: Result<String, DecodeError>)
    ensures
        res_view(r) == spec_str(f@, v.deep_view()),
{
    match v {
        JsonValue::Str(s) => Ok(s),
        _ => Err(mk_mismatch(f, "string")),
    }
}

/// What a boolean field decodes to: the value of a boolean, and an error on
/// every other kind.
pub open spec fn spec_bool(f: Seq<char>, v: JsonView) -> Result<bool, DecodeErrorView> {
    match v {
        JsonView::Bool(b) => Ok(b),
        _ => Err(mismatch(f, "boolean"@)),
    }
}

/// Decodes a boolean field.
pub(crate) fn decode_bool(f: &str, v: JsonValue) -> (r: Result<bool, DecodeError>)
    ensures
        res_view(r) == spec_bool(f@, v.deep_view()),
{
    match v {
        JsonValue::Bool(b) => Ok(b),
        _ => Err(mk_mismatch(f, "boolean")),
    }
}

/// What a list of strings decodes to, element by element from the front onto
/// `acc`: every element must be a string.
pub open spec fn spec_str_list(f: Seq<char>, acc: Seq<Seq<char>>, vs: Seq<JsonView>) -> Result<
    Seq<Seq<char>>,
    DecodeErrorView,
>
    decreases vs.len(),
{
    if vs.len() == 0 {
        Ok(acc)
    } else {
        match vs[0] {
            JsonView::Str(s) => spec_str_list(f, acc.push(s), vs.drop_first()),
            _ => Err(mismatch(f, "string"@)),
        }
    }
}

/// Decodes the elements of a string-list field.
#[verifier::loop_isolation(false)]
pub(crate) fn decode_str_list(f: &str, a: Vec<JsonValue>) -> (r: Result<Vec<String>, DecodeError>)
    ensures
        res_view(r) == spec_str_list(f@, Seq::empty(), a.deep_view()),
{
    let mut out: Vec<String> = Vec::new();
    let mut rest = a;
    let ghost target = spec_str_list(f@, Seq::empty(), rest.deep_view());
    proof {
        assert(out.deep_view() =~= Seq::<Seq<char>>::empty());
    }
    while rest.len() > 0
        invariant
            spec_str_list(f@, out.deep_view(), rest.deep_view()) == target,
        decreases rest.len(),
    {
        let ghost pre = rest.deep_view();
        let ghost preout = out.deep_view();
        let e = rest.remove(0);
        proof {
            assert(e.deep_view() == pre[0]);
            assert(rest.deep_view() =~= pre.drop_first());
        }
        match e {
            JsonValue::Str(s) => {
                out.push(s);
                proof {
                    assert(out.deep_view() =~= preout.push(s@));
                }
            },
            _ => {
                return Err(mk_mismatch(f, "string"));
            },
        }
    }
    Ok(out)
}

/// What a map of string values decodes to, entry by entry from the front
/// onto `acc`: every member value must be a string; keys pass as given.
pub open spec fn spec_str_map(
    f: Seq<char>,
    acc: Seq<(Seq<char>, Seq<char>)>,
    es: Seq<(Seq<char>, JsonView)>,
) -> Result<Seq<(Seq<char>, Seq<char>)>, DecodeErrorView>
    decreases es.len(),
{
    if es.len() == 0 {
        Ok(acc)
    } else {
        match es[0].1 {
            JsonView::Str(s) => spec_str_map(f, acc.push((es[0].0, s)), es.drop_first()),
            _ => Err(mismatch(f, "string"@)),
        }
    }
}

/// Decodes the entries of a string-map field.
#[verifier::loop_isolation(false)]
pub(crate) fn decode_str_map(f: &str, m: Vec<(String, JsonValue)>) -> (r: Result<
    Vec<(String, String)>,
    DecodeError,
>)
    ensures
        res_view(r) == spec_str_map(f@, Seq::empty(), m.deep_view()),
{
    let mut out: Vec<(String, String)> = Vec::new();
    let mut rest = m;
    let ghost target = spec_str_map(f@, Seq::empty(), rest.deep_view());
    proof {
        assert(out.deep_view() =~= Seq::<(Seq<char>, Seq<char>)>::empty());
    }
    while rest.len() > 0
        invariant
            spec_str_map(f@, out.deep_view(), rest.deep_view()) == target,
        decreases rest.len(),
    {
        let ghost pre = rest.deep_view();
        let ghost preout = out.deep_view();
        let e = rest.remove(0);
        proof {
            assert(e.deep_view() == pre[0]);
            assert(rest.deep_view() =~= pre.drop_first());
        }
        let (k, v) = e;
        match v {
            JsonValue::Str(s) => {
                out.push((k, s));
                proof {
                    assert(out.deep_view() =~= preout.push((k@, s@)));
                }
            },
            _ => {
                return Err(mk_mismatch(f, "string"));
            },
        }
    }
    Ok(out)
}

/// What one port-forwarding entry decodes to: a number in the 16-bit
/// unsigned range, or a string of the `"service:port"` form; a number out of
/// range, a string of another shape, and a non-integral number are content
/// errors; any other kind is a mismatch.
pub open spec fn spec_port_item(v: JsonView) -> Result<PortSpecView, DecodeErrorView> {
    match v {
        JsonView::Int(i) => if 0 <= i <= 65535 {
            Ok(PortSpecView::Number(i as u16))
        } else {
            Err(invalid("forwardPorts"@, int_text(i as int)))
        },
        JsonView::NumText(s) => Err(invalid("forwardPorts"@, s)),
        JsonView::Str(s) => match parse_service_port(s) {
            Some(sp) => Ok(PortSpecView::Service(sp)),
            None => Err(invalid("forwardPorts"@, s)),
        },
        _ => Err(mismatch("forwardPorts"@, "number or string"@)),
    }
}

/// Decodes one port-forwarding entry.
pub(crate) fn decode_port_item(v: JsonValue) -> (r: Result<PortSpec, DecodeError>)
    ensures
        res_view(r) == spec_port_item(v.deep_view()),
{
    match v {
        JsonValue::Int(i) => {
            if 0 <= i && i <= 65535 {
                Ok(PortSpec::Number(i as u16))
            } else {
                Err(
                    DecodeError::InvalidScalar {
                        field: String::from_str("forwardPorts"),
                        value: i64_text(i),
                    },
                )
            }
        },
        JsonValue::NumText(s) => Err(
            DecodeError::InvalidScalar { field: String::from_str("forwardPorts"), value: s },
        ),
        JsonValue::Str(s) => {
            match ServicePort::parse(s.as_str()) {
                Some(sp) => Ok(PortSpec::Service(sp)),
                None => Err(
                    DecodeError::InvalidScalar {
                        field: String::from_str("forwardPorts"),
                        value: s,
                    },
                ),
            }
        },
        _ => Err(mk_mismatch("forwardPorts", "number or string")),
    }
}

/// What the port-forwarding list decodes to, element by element from the
/// front onto `acc`.
pub open spec fn spec_ports(acc: Seq<PortSpecView>, vs: Seq<JsonView>) -> Result<
    Seq<PortSpecView>,
    DecodeErrorView,
>
    decreases vs.len(),
{
    if vs.len() == 0 {
        Ok(acc)
    } else {
        match spec_port_item(vs[0]) {
            Ok(p) => spec_ports(acc.push(p), vs.drop_first()),
            Err(e) => Err(e),
        }
    }
}

/// Decodes the elements of the port-forwarding list.
#[verifier::loop_isolation(false)]
pub(crate) fn decode_ports(a: Vec<JsonValue>) -> (r: Result<Vec<PortSpec>, DecodeError>)
    ensures
        res_view(r) == spec_ports(Seq::empty(), a.deep_view()),
{
    let mut out: Vec<PortSpec> = Vec::new();
    let mut rest = a;
    let ghost target = spec_ports(Seq::empty(), rest.deep_view());
    proof {
        assert(out.deep_view() =~= Seq::<PortSpecView>::empty());
    }
    while rest.len() > 0
        invariant
            spec_ports(out.deep_view(), rest.deep_view()) == target,
        decreases rest.len(),
    {
        let ghost pre = rest.deep_view();
        let ghost preout = out.deep_view();
        let e = rest.remove(0);
        proof {
            assert(e.deep_view() == pre[0]);
            assert(rest.deep_view() =~= pre.drop_first());
        }
        match decode_port_item(e) {
            Ok(p) => {
                out.push(p);
                proof {
                    assert(out.deep_view() =~= preout.push(p.deep_view()));
                }
            },
            Err(err) => {
                return Err(err);
            },
        }
    }
    Ok(out)
}

/// What a command decodes to: a shell string, or a list of argument strings;
/// any other kind is a mismatch.
pub open spec fn spec_command(f: Seq<char>, v: JsonView) -> Result<
    CommandSpecView,
    DecodeErrorView,
> {
    match v {
        JsonView::Str(s) => Ok(CommandSpecView::Shell(s)),
        JsonView::Arr(vs) => match spec_str_list(f, Seq::empty(), vs) {
            Ok(ts) => Ok(CommandSpecView::Args(ts)),
            Err(e) => Err(e),
        },
        _ => Err(mismatch(f, "string or array"@)),
    }
}

/// Decodes a command.
pub(crate) fn decode_command(f: &str, v: JsonValue) -> (r: Result<CommandSpec, DecodeError>)
    ensures
        res_view(r) == spec_command(f@, v.deep_view()),
{
    match v {
        JsonValue::Str(s) => Ok(CommandSpec::Shell(s)),
        JsonValue::Arr(a) => {
            proof {
                lemma_view_arr(a);
            }
            match decode_str_list(f, a) {
                Ok(ts) => Ok(CommandSpec::Args(ts)),
                Err(e) => Err(e),
            }
        },
        _ => Err(mk_mismatch(f, "string or array")),
    }
}

/// What a map of named commands decodes to, entry by entry from the front
/// onto `acc`.
pub open spec fn spec_command_map(
    f: Seq<char>,
    acc: Seq<(Seq<char>, CommandSpecView)>,
    es: Seq<(Seq<char>, JsonView)>,
) -> Result<Seq<(Seq<char>, CommandSpecView)>, DecodeErrorView>
    decreases es.len(),
{
    if es.len() == 0 {
        Ok(acc)
    } else {
        match spec_command(f, es[0].1) {
            Ok(c) => spec_command_map(f, acc.push((es[0].0, c)), es.drop_first()),
            Err(e) => Err(e),
        }
    }
}

/// Decodes the entries of a named-command map.
#[verifier::loop_isolation(false)]
pub(crate) fn decode_command_map(f: &str, m: Vec<(String, JsonValue)>) -> (r: Result<
    Vec<(String, CommandSpec)>,
    DecodeError,
>)
    ensures
        res_view(r) == spec_command_map(f@, Seq::empty(), m.deep_view()),
{
    let mut out: Vec<(String, CommandSpec)> = Vec::new();
    let mut rest = m;
    let ghost target = spec_command_map(f@, Seq::empty(), rest.deep_view());
    proof {
        assert(out.deep_view() =~= Seq::<(Seq<char>, CommandSpecView)>::empty());
    }
    while rest.len() > 0
        invariant
            spec_command_map(f@, out.deep_view(), rest.deep_view()) == target,
        decreases rest.len(),
    {
        let ghost pre = rest.deep_view();
        let ghost preout = out.deep_view();
        let e = rest.remove(0);
        proof {
            assert(e.deep_view() == pre[0]);
            assert(rest.deep_view() =~= pre.drop_first());
        }
        let (k, v) = e;
        match decode_command(f, v) {
            Ok(c) => {
                out.push((k, c));
                proof {
                    assert(out.deep_view() =~= preout.push((k@, c.deep_view())));
                }
            },
            Err(err) => {
                return Err(err);
            },
        }
    }
    Ok(out)
}

/// What a lifecycle command decodes to: a single command for a string or an
/// array, a named-command map for an object; any other kind is a mismatch.
pub open spec fn spec_lifecycle(f: Seq<char>, v: JsonView) -> Result<
    crate::model::LifecycleCommandView,
    DecodeErrorView,
> {
    match v {
        JsonView::Str(_) => match spec_command(f, v) {
            Ok(c) => Ok(crate::model::LifecycleCommandView::Command(c)),
            Err(e) => Err(e),
        },
        JsonView::Arr(_) => match spec_command(f, v) {
            Ok(c) => Ok(crate::model::LifecycleCommandView::Command(c)),
            Err(e) => Err(e),
        },
        JsonView::Obj(es) => match spec_command_map(f, Seq::empty(), es) {
            Ok(m) => Ok(crate::model::LifecycleCommandView::Object(m)),
            Err(e) => Err(e),
        },
        _ => Err(mismatch(f, "string, array, or object"@)),
    }
}

/// Decodes a lifecycle command.
pub(crate) fn decode_lifecycle(f: &str, v: JsonValue) -> (r: Result<
    crate::model::LifecycleCommand,
    DecodeError,
>)
    ensures
        res_view(r) == spec_lifecycle(f@, v.deep_view()),
{
    match v {
        JsonValue::Str(s) => {
            match decode_command(f, JsonValue::Str(s)) {
                Ok(c) => Ok(crate::model::LifecycleCommand::Command(c)),
                Err(e) => Err(e),
            }
        },
        JsonValue::Arr(a) => {
            match decode_command(f, JsonValue::Arr(a)) {
                Ok(c) => Ok(crate::model::LifecycleCommand::Command(c)),
                Err(e) => Err(e),
            }
        },
        JsonValue::Obj(m) => {
            proof {
                lemma_view_obj(m);
            }
            match decode_command_map(f, m) {
                Ok(cm) => Ok(crate::model::LifecycleCommand::Object(cm)),
                Err(e) => Err(e),
            }
        },
        _ => Err(mk_mismatch(f, "string, array, or object")),
    }
}

/// What the shutdown action decodes to: one of the three declared wire
/// names; another string is a content error, another kind a mismatch.
pub open spec fn spec_shutdown(v: JsonView) -> Result<ShutdownAction, DecodeErrorView> {
    match v {
        JsonView::Str(s) => if s == "none"@ {
            Ok(ShutdownAction::NoAction)
        } else if s == "stopContainer"@ {
            Ok(ShutdownAction::StopContainer)
        } else if s == "stopCompose"@ {
            Ok(ShutdownAction::StopCompose)
        } else {
            Err(invalid("shutdownAction"@, s))
        },
        _ => Err(mismatch("shutdownAction"@, "string"@)),
    }
}

/// Decodes the shutdown action.
pub(crate) fn decode_shutdown(v: JsonValue) -> (r: Result<ShutdownAction, DecodeError>)
    ensures
        res_view(r) == spec_shutdown(v.deep_view()),
{
    match v {
        JsonValue::Str(s) => {
            if str_eq(s.as_str(), "none") {
                Ok(ShutdownAction::NoAction)
            } else if str_eq(s.as_str(), "stopContainer") {
                Ok(ShutdownAction::StopContainer)
            } else if str_eq(s.as_str(), "stopCompose") {
                Ok(ShutdownAction::StopCompose)
            } else {
                Err(
                    DecodeError::InvalidScalar {
                        field: String::from_str("shutdownAction"),
                        value: s,
                    },
                )
            }
        },
        _ => Err(mk_mismatch("shutdownAction", "string")),
    }
}

/// What a compose-file reference decodes to: one path string, or a list of
/// path strings; any other kind is a mismatch.
pub open spec fn spec_compose(f: Seq<char>, v: JsonView) -> Result<
    DockerComposeFileView,
    DecodeErrorView,
> {
    match v {
        JsonView::Str(s) => Ok(DockerComposeFileView::Path(s)),
        JsonView::Arr(vs) => match spec_str_list(f, Seq::empty(), vs) {
            Ok(ts) => Ok(DockerComposeFileView::Paths(ts)),
            Err(e) => Err(e),
        },
        _ => Err(mismatch(f, "string or array"@)),
    }
}

/// Decodes a compose-file reference.
pub(crate) fn decode_compose(f: &str, v: JsonValue) -> (r: Result<DockerComposeFile, DecodeError>)
    ensures
        res_view(r) == spec_compose(f@, v.deep_view()),
{
    match v {
        JsonValue::Str(s) => Ok(DockerComposeFile::Path(s)),
        JsonValue::Arr(a) => {
            proof {
                lemma_view_arr(a);
            }
            match decode_str_list(f, a) {
                Ok(ts) => Ok(DockerComposeFile::Paths(ts)),
                Err(e) => Err(e),
            }
        },
        _ => Err(mk_mismatch(f, "string or array")),
    }
}


/// What an array-kinded string-list field decodes to: the value must be an
/// array of strings.
pub open spec fn spec_str_arr(f: Seq<char>, v: JsonView) -> Result<Seq<Seq<char>>, DecodeErrorView> {
    match v {
        JsonView::Arr(vs) => spec_str_list(f, Seq::empty(), vs),
        _ => Err(mismatch(f, "array"@)),
    }
}

/// Decodes an array-kinded string-list field.
pub(crate) fn decode_str_arr(f: &str, v: JsonValue) -> (r: Result<Vec<String>, DecodeError>)
    ensures
        res_view(r) == spec_str_arr(f@, v.deep_view()),
{
    match v {
        JsonValue::Arr(a) => {
            proof {
                lemma_view_arr(a);
            }
            decode_str_list(f, a)
        },
        _ => Err(mk_mismatch(f, "array")),
    }
}

/// What an object-kinded string-map field decodes to: the value must be an
/// object whose member values are all strings.
pub open spec fn spec_str_map_obj(f: Seq<char>, v: JsonView) -> Result<
    Seq<(Seq<char>, Seq<char>)>,
    DecodeErrorView,
> {
    match v {
        JsonView::Obj(es) => spec_str_map(f, Seq::empty(), es),
        _ => Err(mismatch(f, "object"@)),
    }
}

/// Decodes an object-kinded string-map field.
pub(crate) fn decode_str_map_obj(f: &str, v: JsonValue) -> (r: Result<
    Vec<(String, String)>,
    DecodeError,
>)
    ensures
        res_view(r) == spec_str_map_obj(f@, v.deep_view()),
{
    match v {
        JsonValue::Obj(m) => {
            proof {
                lemma_view_obj(m);
            }
            decode_str_map(f, m)
        },
        _ => Err(mk_mismatch(f, "object")),
    }
}

/// What a pass-through map field decodes to: the members of an object,
/// unread and in order; any other kind is a mismatch.
pub open spec fn spec_json_map(f: Seq<char>, v: JsonView) -> Result<
    Seq<(Seq<char>, JsonView)>,
    DecodeErrorView,
> {
    match v {
        JsonView::Obj(es) => Ok(es),
        _ => Err(mismatch(f, "object"@)),
    }
}

/// Decodes a pass-through map field.
pub(crate) fn decode_json_map(f: &str, v: JsonValue) -> (r: Result<
    Vec<(String, JsonValue)>,
    DecodeError,
>)
    ensures
        res_view(r) == spec_json_map(f@, v.deep_view()),
{
    match v {
        JsonValue::Obj(m) => {
            proof {
                lemma_view_obj(m);
            }
            Ok(m)
        },
        _ => Err(mk_mismatch(f, "object")),
    }
}

/// What the port-forwarding field decodes to: the value must be an array.
pub open spec fn spec_ports_arr(v: JsonView) -> Result<Seq<PortSpecView>, DecodeErrorView> {
    match v {
        JsonView::Arr(vs) => spec_ports(Seq::empty(), vs),
        _ => Err(mismatch("forwardPorts"@, "array"@)),
    }
}

/// Decodes the port-forwarding field.
pub(crate) fn decode_ports_arr(v: JsonValue) -> (r: Result<Vec<PortSpec>, DecodeError>)
    ensures
        res_view(r) == spec_ports_arr(v.deep_view()),
{
    match v {
        JsonValue::Arr(a) => {
            proof {
                lemma_view_arr(a);
            }
            decode_ports(a)
        },
        _ => Err(mk_mismatch("forwardPorts", "array")),
    }
}

} // verus!
