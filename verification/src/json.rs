use vstd::prelude::*;

verus! {

/// One JSON document value, as this library models it.
///
/// Numbers that fit in a signed 64-bit integer are held as `Int`; any other
/// JSON number (a fraction, an exponent form, or an integer beyond the signed
/// 64-bit range) is carried opaquely as its decimal text in `NumText`. Object
/// members keep the order in which they were given.
#[derive(Debug, PartialEq)]
pub enum JsonValue {
    Null,
    Bool(bool),
    Int(i64),
    NumText(String),
    Str(String),
    Arr(Vec<JsonValue>),
    Obj(Vec<(String, JsonValue)>),
}

/// The mathematical form of a JSON value, used by every contract.
#[verifier::ext_equal]
pub enum JsonView {
    Null,
    Bool(bool),
    Int(i64),
    NumText(Seq<char>),
    Str(Seq<char>),
    Arr(Seq<JsonView>),
    Obj(Seq<(Seq<char>, JsonView)>),
}

/// The mathematical form of a JSON value.
pub open spec fn json_view(v: JsonValue) -> JsonView
    decreases v,
{
    match v {
        JsonValue::Null => JsonView::Null,
        JsonValue::Bool(b) => JsonView::Bool(b),
        JsonValue::Int(i) => JsonView::Int(i),
        JsonValue::NumText(s) => JsonView::NumText(s@),
        JsonValue::Str(s) => JsonView::Str(s@),
        JsonValue::Arr(a) => JsonView::Arr(
            Seq::new(
                a@.len(),
                |i: int|
                    if 0 <= i < a@.len() {
                        json_view(a@[i])
                    } else {
                        JsonView::Null
                    },
            ),
        ),
        JsonValue::Obj(m) => JsonView::Obj(
            Seq::new(
                m@.len(),
                |i: int|
                    if 0 <= i < m@.len() {
                        (m@[i].0@, json_view(m@[i].1))
                    } else {
                        (Seq::empty(), JsonView::Null)
                    },
            ),
        ),
    }
}

impl DeepView for JsonValue {
    type V = JsonView;

    open spec fn deep_view(&self) -> JsonView {
        json_view(*self)
    }
}

/// An array value's view is the array of its members' views.
pub broadcast proof fn lemma_view_arr(a: Vec<JsonValue>)
    ensures
        (#[trigger] JsonValue::Arr(a).deep_view()) == JsonView::Arr(a.deep_view()),
{
    assert(JsonValue::Arr(a).deep_view()->Arr_0 =~= a.deep_view());
}

/// An object value's view is the list of its members' keys and views.
pub broadcast proof fn lemma_view_obj(m: Vec<(String, JsonValue)>)
    ensures
        (#[trigger] JsonValue::Obj(m).deep_view()) == JsonView::Obj(m.deep_view()),
{
    assert(JsonValue::Obj(m).deep_view()->Obj_0 =~= m.deep_view());
}

impl Clone for JsonValue {
    /// A structurally equal copy.
    fn clone(&self) -> (r: Self)
        ensures
            r.deep_view() == self.deep_view(),
    {
        clone_json(self)
    }
}

/// A structurally equal copy of a JSON value.
#[verifier::loop_isolation(false)]
fn clone_json(v: &JsonValue) -> (r: JsonValue)
    ensures
        r.deep_view() == v.deep_view(),
    decreases *v,
{
    match v {
        JsonValue::Null => JsonValue::Null,
        JsonValue::Bool(b) => JsonValue::Bool(*b),
        JsonValue::Int(i) => JsonValue::Int(*i),
        JsonValue::NumText(s) => JsonValue::NumText(s.clone()),
        JsonValue::Str(s) => JsonValue::Str(s.clone()),
        JsonValue::Arr(a) => {
            let mut out: Vec<JsonValue> = Vec::new();
            let mut i: usize = 0;
            while i < a.len()
                invariant
                    i <= a.len(),
                    out.deep_view() == a.deep_view().take(i as int),
                decreases a.len() - i,
            {
                proof {
                    let ghost s = (*v)->Arr_0@;
                    assert(decreases_to!((*v) => (*v)->Arr_0));
                    assert(decreases_to!((*v)->Arr_0 => s));
                    assert(decreases_to!(s => s[i as int]));
                }
                let x = clone_json(&a[i]);
                out.push(x);
                proof {
                    assert(out.deep_view() =~= a.deep_view().take(i + 1 as int));
                }
                i = i + 1;
            }
            proof {
                assert(a.deep_view().take(a@.len() as int) =~= a.deep_view());
                lemma_view_arr(out);
                lemma_view_arr(*a);
            }
            JsonValue::Arr(out)
        },
        JsonValue::Obj(m) => {
            let mut out: Vec<(String, JsonValue)> = Vec::new();
            let mut i: usize = 0;
            while i < m.len()
                invariant
                    i <= m.len(),
                    out.deep_view() == m.deep_view().take(i as int),
                decreases m.len() - i,
            {
                proof {
                    let ghost s = (*v)->Obj_0@;
                    assert(decreases_to!((*v) => (*v)->Obj_0));
                    assert(decreases_to!((*v)->Obj_0 => s));
                    assert(decreases_to!(s => s[i as int]));
                    let ghost e = s[i as int];
                    assert(decreases_to!(e => e.1));
                }
                let k = m[i].0.clone();
                let x = clone_json(&m[i].1);
                out.push((k, x));
                proof {
                    assert(out.deep_view() =~= m.deep_view().take(i + 1 as int));
                }
                i = i + 1;
            }
            proof {
                assert(m.deep_view().take(m@.len() as int) =~= m.deep_view());
                lemma_view_obj(out);
                lemma_view_obj(*m);
            }
            JsonValue::Obj(out)
        },
    }
}

} // verus!
