//! The JSON shape this API serves: a tree of values, its mathematical view,
//! and an encoder whose output is pinned, character for character, by a spec
//! function.  Rendering is therefore deterministic: the text is a function
//! of the value's view and of nothing else.

use vstd::prelude::*;

use crate::text::{append_i64, append_quoted, int_text, quote_text};

verus! {

/// Mathematical view of a JSON document.
pub enum JsonView {
    Null,
    Bool(bool),
    Int(int),
    Str(Seq<char>),
    Arr(Seq<JsonView>),
    Obj(Seq<(Seq<char>, JsonView)>),
}

/// A JSON document: the result type of every operation of this API.
/// Object fields keep their insertion order.
#[derive(Debug, PartialEq)]
pub enum JsonValue {
    Null,
    Bool(bool),
    Int(i64),
    Str(String),
    Arr(Vec<JsonValue>),
    Obj(Vec<(String, JsonValue)>),
}

/// View of a JSON value.
pub open spec fn view_of(v: JsonValue) -> JsonView
    decreases v,
{
    match v {
        JsonValue::Null => JsonView::Null,
        JsonValue::Bool(b) => JsonView::Bool(b),
        JsonValue::Int(n) => JsonView::Int(n as int),
        JsonValue::Str(s) => JsonView::Str(s@),
        JsonValue::Arr(items) => JsonView::Arr(views_of(items@)),
        JsonValue::Obj(fields) => JsonView::Obj(field_views_of(fields@)),
    }
}

/// Views of a sequence of JSON values, in order.
pub open spec fn views_of(items: Seq<JsonValue>) -> Seq<JsonView>
    decreases items,
{
    if items.len() == 0 {
        Seq::empty()
    } else {
        seq![view_of(items[0])] + views_of(items.drop_first())
    }
}

/// Views of a sequence of object fields, in order.
pub open spec fn field_views_of(fields: Seq<(String, JsonValue)>) -> Seq<(Seq<char>, JsonView)>
    decreases fields,
{
    if fields.len() == 0 {
        Seq::empty()
    } else {
        seq![(fields[0].0@, view_of(fields[0].1))] + field_views_of(fields.drop_first())
    }
}

impl DeepView for JsonValue {
    type V = JsonView;

    open spec fn deep_view(&self) -> JsonView {
        view_of(*self)
    }
}

/// The exact text the encoder produces for a JSON view.
pub open spec fn json_text(v: JsonView) -> Seq<char>
    decreases v,
{
    match v {
        JsonView::Null => seq!['n', 'u', 'l', 'l'],
        JsonView::Bool(b) => if b {
            seq!['t', 'r', 'u', 'e']
        } else {
            seq!['f', 'a', 'l', 's', 'e']
        },
        JsonView::Int(n) => int_text(n),
        JsonView::Str(s) => quote_text(s),
        JsonView::Arr(items) => seq!['['] + items_text(items) + seq![']'],
        JsonView::Obj(fields) => seq!['{'] + fields_text(fields) + seq!['}'],
    }
}

/// Comma-separated text of array items.
pub open spec fn items_text(items: Seq<JsonView>) -> Seq<char>
    decreases items,
{
    if items.len() == 0 {
        Seq::empty()
    } else if items.len() == 1 {
        json_text(items[0])
    } else {
        json_text(items[0]) + seq![','] + items_text(items.drop_first())
    }
}

/// Comma-separated text of object fields, each `"key":value`.
pub open spec fn fields_text(fields: Seq<(Seq<char>, JsonView)>) -> Seq<char>
    decreases fields,
{
    if fields.len() == 0 {
        Seq::empty()
    } else if fields.len() == 1 {
        quote_text(fields[0].0) + seq![':'] + json_text(fields[0].1)
    } else {
        quote_text(fields[0].0) + seq![':'] + json_text(fields[0].1) + seq![','] + fields_text(
            fields.drop_first(),
        )
    }
}

/// Projection is deterministic: the rendered text depends on the view of the
/// document alone, so re-projecting the same domain object yields identical
/// text.
pub proof fn lemma_projection_deterministic(a: JsonView, b: JsonView)
    requires
        a == b,
    ensures
        json_text(a) == json_text(b),
{
}

/// Views of a sequence index pointwise into the views of its elements.
pub proof fn lemma_views_of_index(items: Seq<JsonValue>)
    ensures
        views_of(items).len() == items.len(),
        forall|i: int|
            0 <= i < items.len() ==> #[trigger] views_of(items)[i] == view_of(items[i]),
    decreases items.len(),
{
    if items.len() > 0 {
        lemma_views_of_index(items.drop_first());
    }
}

/// Field views of a sequence index pointwise into key and value views.
pub proof fn lemma_field_views_of_index(fields: Seq<(String, JsonValue)>)
    ensures
        field_views_of(fields).len() == fields.len(),
        forall|i: int|
            0 <= i < fields.len() ==> #[trigger] field_views_of(fields)[i] == (
                fields[i].0@,
                view_of(fields[i].1),
            ),
    decreases fields.len(),
{
    if fields.len() > 0 {
        lemma_field_views_of_index(fields.drop_first());
    }
}

/// Appending one more item extends the comma-separated text by one entry.
pub proof fn lemma_items_text_push(items: Seq<JsonView>, x: JsonView)
    requires
        items.len() >= 1,
    ensures
        items_text(items.push(x)) == items_text(items) + seq![','] + json_text(x),
    decreases items.len(),
{
    let p = items.push(x);
    assert(p[0] == items[0]);
    assert(p.drop_first() =~= items.drop_first().push(x));
    if items.len() == 1 {
        assert(items.drop_first().push(x) =~= seq![x]);
        assert(items_text(seq![x]) == json_text(x));
        assert(items_text(p) == json_text(items[0]) + seq![','] + json_text(x));
        assert(items_text(items) + seq![','] + json_text(x) =~= json_text(items[0]) + seq![',']
            + json_text(x));
    } else {
        lemma_items_text_push(items.drop_first(), x);
        assert(items_text(p) == json_text(items[0]) + seq![','] + items_text(
            items.drop_first().push(x),
        ));
        assert(json_text(items[0]) + seq![','] + (items_text(items.drop_first()) + seq![',']
            + json_text(x)) =~= (json_text(items[0]) + seq![','] + items_text(items.drop_first()))
            + seq![','] + json_text(x));
        assert(items_text(p) =~= items_text(items) + seq![','] + json_text(x));
    }
}

/// Appending one more field extends the comma-separated text by one entry.
pub proof fn lemma_fields_text_push(fields: Seq<(Seq<char>, JsonView)>, k: Seq<char>, x: JsonView)
    requires
        fields.len() >= 1,
    ensures
        fields_text(fields.push((k, x))) == fields_text(fields) + seq![','] + quote_text(k)
            + seq![':'] + json_text(x),
    decreases fields.len(),
{
    let p = fields.push((k, x));
    assert(p[0] == fields[0]);
    assert(p.drop_first() =~= fields.drop_first().push((k, x)));
    if fields.len() == 1 {
        assert(fields.drop_first().push((k, x)) =~= seq![(k, x)]);
        assert(fields_text(seq![(k, x)]) == quote_text(k) + seq![':'] + json_text(x));
        assert(fields_text(p) == quote_text(fields[0].0) + seq![':'] + json_text(fields[0].1)
            + seq![','] + (quote_text(k) + seq![':'] + json_text(x)));
        assert(fields_text(p) =~= fields_text(fields) + seq![','] + quote_text(k) + seq![':']
            + json_text(x));
    } else {
        lemma_fields_text_push(fields.drop_first(), k, x);
        assert(fields_text(p) == quote_text(fields[0].0) + seq![':'] + json_text(fields[0].1)
            + seq![','] + fields_text(fields.drop_first().push((k, x))));
        assert(fields_text(p) =~= fields_text(fields) + seq![','] + quote_text(k) + seq![':']
            + json_text(x));
    }
}

/// Appends the text of `v` to `out`, exactly as `json_text` describes.
#[verifier::loop_isolation(false)]
#[verifier::rlimit(60)]
pub fn append_json(v: &JsonValue, out: &mut String)
    ensures
        final(out)@ == old(out)@ + json_text(view_of(*v)),
    decreases *v,
{
    match v {
        JsonValue::Null => {
            out.push('n');
            out.push('u');
            out.push('l');
            out.push('l');
            proof {
                assert(old(out)@ + seq!['n'] + seq!['u'] + seq!['l'] + seq!['l'] =~= old(out)@
                    + json_text(view_of(*v)));
            }
        },
        JsonValue::Bool(b) => {
            if *b {
                out.push('t');
                out.push('r');
                out.push('u');
                out.push('e');
                proof {
                    assert(old(out)@ + seq!['t'] + seq!['r'] + seq!['u'] + seq!['e'] =~= old(out)@
                        + json_text(view_of(*v)));
                }
            } else {
                out.push('f');
                out.push('a');
                out.push('l');
                out.push('s');
                out.push('e');
                proof {
                    assert(old(out)@ + seq!['f'] + seq!['a'] + seq!['l'] + seq!['s'] + seq!['e']
                        =~= old(out)@ + json_text(view_of(*v)));
                }
            }
        },
        JsonValue::Int(n) => {
            append_i64(out, *n);
        },
        JsonValue::Str(s) => {
            append_quoted(out, s.as_str());
        },
        JsonValue::Arr(items) => {
            let ghost vs = views_of(items@);
            proof {
                lemma_views_of_index(items@);
            }
            out.push('[');
            let ghost base = out@;
            let mut i: usize = 0;
            while i < items.len()
                invariant
                    vs == views_of(items@),
                    vs.len() == items@.len(),
                    forall|j: int| 0 <= j < items@.len() ==> #[trigger] vs[j] == view_of(items@[j]),
                    i <= items.len(),
                    base == old(out)@ + seq!['['],
                    i == 0 ==> out@ == base,
                    i >= 1 ==> out@ == base + items_text(vs.take(i as int)),
                decreases items.len() - i,
            {
                let ghost pre = out@;
                if i > 0 {
                    out.push(',');
                }
                proof {
                    assert(decreases_to!(*v => *items));
                    assert(decreases_to!(*items => items@));
                    assert(decreases_to!(items@ => items@[i as int]));
                }
                append_json(&items[i], out);
                proof {
                    if i == 0 {
                        assert(vs.take(1) =~= seq![vs[0]]);
                        assert(items_text(seq![vs[0]]) == json_text(vs[0]));
                        assert(out@ =~= base + items_text(vs.take(1)));
                    } else {
                        lemma_items_text_push(vs.take(i as int), vs[i as int]);
                        assert(vs.take(i as int + 1) =~= vs.take(i as int).push(vs[i as int]));
                        assert(out@ =~= pre + seq![','] + json_text(vs[i as int]));
                        assert(out@ =~= base + items_text(vs.take(i as int + 1)));
                    }
                }
                i = i + 1;
            }
            out.push(']');
            proof {
                if items.len() == 0 {
                    assert(items_text(vs) =~= Seq::<char>::empty());
                    assert(out@ =~= old(out)@ + json_text(view_of(*v)));
                } else {
                    assert(vs.take(items@.len() as int) =~= vs);
                    assert(out@ =~= old(out)@ + json_text(view_of(*v)));
                }
            }
        },
        JsonValue::Obj(fields) => {
            let ghost vs = field_views_of(fields@);
            proof {
                lemma_field_views_of_index(fields@);
            }
            out.push('{');
            let ghost base = out@;
            let mut i: usize = 0;
            while i < fields.len()
                invariant
                    vs == field_views_of(fields@),
                    vs.len() == fields@.len(),
                    forall|j: int|
                        0 <= j < fields@.len() ==> #[trigger] vs[j] == (
                            fields@[j].0@,
                            view_of(fields@[j].1),
                        ),
                    i <= fields.len(),
                    base == old(out)@ + seq!['{'],
                    i == 0 ==> out@ == base,
                    i >= 1 ==> out@ == base + fields_text(vs.take(i as int)),
                decreases fields.len() - i,
            {
                let ghost pre = out@;
                if i > 0 {
                    out.push(',');
                }
                let pair = &fields[i];
                append_quoted(out, pair.0.as_str());
                out.push(':');
                proof {
                    assert(decreases_to!(*v => *fields));
                    assert(decreases_to!(*fields => fields@));
                    assert(decreases_to!(fields@ => fields@[i as int]));
                    assert(decreases_to!(fields@[i as int] => fields@[i as int].1));
                }
                append_json(&pair.1, out);
                proof {
                    let ghost key = vs[i as int].0;
                    let ghost val = vs[i as int].1;
                    if i == 0 {
                        assert(vs.take(1) =~= seq![vs[0]]);
                        assert(fields_text(seq![vs[0]]) == quote_text(key) + seq![':'] + json_text(
                            val,
                        ));
                        assert(out@ =~= base + fields_text(vs.take(1)));
                    } else {
                        lemma_fields_text_push(vs.take(i as int), key, val);
                        assert(vs[i as int] == (key, val));
                        assert(vs.take(i as int + 1) =~= vs.take(i as int).push((key, val)));
                        assert(out@ =~= pre + seq![','] + quote_text(key) + seq![':'] + json_text(
                            val,
                        ));
                        assert(out@ =~= base + fields_text(vs.take(i as int + 1)));
                    }
                }
                i = i + 1;
            }
            out.push('}');
            proof {
                if fields.len() == 0 {
                    assert(fields_text(vs) =~= Seq::<char>::empty());
                    assert(out@ =~= old(out)@ + json_text(view_of(*v)));
                } else {
                    assert(vs.take(fields@.len() as int) =~= vs);
                    assert(out@ =~= old(out)@ + json_text(view_of(*v)));
                }
            }
        },
    }
}

/// Renders a JSON document to its unique text.
pub fn to_json_text(v: &JsonValue) -> (s: String)
    ensures
        s@ == json_text(v.deep_view()),
{
    let mut out = String::new();
    append_json(v, &mut out);
    proof {
        assert(Seq::<char>::empty() + json_text(view_of(*v)) =~= json_text(view_of(*v)));
    }
    out
}

} // verus!
