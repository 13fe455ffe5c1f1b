//! Parameter schemas in the form the model API expects: an object schema
//! with `properties` (and `required`), rather than a flat object of
//! property schemas.
use vstd::prelude::*;
use crate::tools::domain::json_builder::{nested, object, text};
use crate::tools::domain::json_value::{
    jget, jstr, json_view, lemma_array_view, lemma_object_view, members_view, str_member, JsonValue, JsonView,
};

verus! {

/// The names of the properties without a default value, in order.
pub open spec fn required_keys(m: Seq<(Seq<char>, JsonView)>) -> Seq<Seq<char>>
    decreases m.len(),
{
    if m.len() == 0 {
        Seq::empty()
    } else {
        let p = required_keys(m.drop_last());
        if jget(m.last().1, "default"@) is None {
            p.push(m.last().0)
        } else {
            p
        }
    }
}

/// A schema as sent to the model: kept when it already has `"type":
/// "object"`; a flat object of property schemas becomes an object schema
/// with those properties, requiring each one without a default; anything
/// else is kept.
pub open spec fn normalized(v: JsonView) -> JsonView {
    if jstr(jget(v, "type"@)) == Some("object"@) {
        v
    } else {
        match v {
            JsonView::Object(m) => {
                let req = required_keys(m);
                JsonView::Object(
                    seq![str_member("type"@, "object"@), ("properties"@, v)] + if req.len() > 0 {
                        seq![("required"@, JsonView::Array(req.map_values(|k: Seq<char>| JsonView::Str(k))))]
                    } else {
                        Seq::empty()
                    },
                )
            },
            _ => v,
        }
    }
}

/// Wraps a tool's parameters into an object schema when needed (see
/// `normalized`).
pub fn normalize_parameters(params: JsonValue) -> (r: JsonValue)
    ensures
        r@ == normalized(params@),
{
    let is_object_schema = match params.get("type") {
        Some(t) => match t.as_str() {
            Some(s) => {
                let c = crate::text::chars_of(s);
                crate::text::eq_str(c.as_slice(), "object")
            },
            None => false,
        },
        None => false,
    };
    if is_object_schema {
        return params;
    }
    let ghost pv = params@;
    let required: Vec<JsonValue> = match &params {
        JsonValue::Object(members) => {
            proof {
                lemma_object_view(members@);
            }
            let ghost m = members_view(members@);
            let mut req: Vec<JsonValue> = Vec::new();
            let mut i: usize = 0;
            proof {
                lemma_array_view(req@);
                assert(crate::tools::domain::json_value::elems_view(req@) =~= required_keys(m.take(0)).map_values(
                    |k: Seq<char>| JsonView::Str(k),
                ));
            }
            while i < members.len()
                invariant
                    i <= members@.len(),
                    m == members_view(members@),
                    m.len() == members@.len(),
                    forall|k: int| 0 <= k < m.len() ==> #[trigger] m[k] == (members@[k].0@, json_view(members@[k].1)),
                    crate::tools::domain::json_value::elems_view(req@) == required_keys(m.take(i as int)).map_values(
                        |k: Seq<char>| JsonView::Str(k),
                    ),
                decreases members.len() - i,
            {
                assert(m.take(i + 1).drop_last() =~= m.take(i as int));
                assert(m.take(i + 1).last() == m[i as int]);
                let has_default = members[i].1.get("default").is_some();
                if !has_default {
                    let ghost before = req@;
                    req.push(JsonValue::Str(members[i].0.clone()));
                    proof {
                        lemma_array_view(before);
                        lemma_array_view(req@);
                        assert(crate::tools::domain::json_value::elems_view(req@) =~= crate::tools::domain::json_value::elems_view(
                            before,
                        ).push(JsonView::Str(members@[i as int].0@)));
                    }
                }
                assert(crate::tools::domain::json_value::elems_view(req@) =~= required_keys(m.take(i + 1)).map_values(
                    |k: Seq<char>| JsonView::Str(k),
                ));
                i += 1;
            }
            assert(m.take(members@.len() as int) =~= m);
            req
        },
        _ => return params,
    };
    let n = required.len();
    let ghost rv = crate::tools::domain::json_value::elems_view(required@);
    let mut schema: Vec<(String, JsonValue)> = Vec::new();
    schema.push(text("type", "object"));
    schema.push(nested("properties", params));
    if n > 0 {
        schema.push(nested("required", JsonValue::Array(required)));
    }
    let r = object(schema);
    proof {
        lemma_array_view(required@);
    }
    assert(r@ == normalized(pv)) by {
        if let JsonView::Object(m) = pv {
            let req = required_keys(m);
            assert(rv == req.map_values(|k: Seq<char>| JsonView::Str(k)));
            assert(rv.len() == n);
            if let JsonView::Object(x) = normalized(pv) {
                assert(members_view(schema@) =~= x);
            }
        }
    }
    r
}

/// Normalizing twice is normalizing once: a normalized schema is an object
/// schema, which is kept as it is.
pub proof fn law_normalize_idempotent(v: JsonView)
    ensures
        normalized(normalized(v)) == normalized(v),
{
    reveal_strlit("type");
    reveal_strlit("object");
    if jstr(jget(v, "type"@)) != Some("object"@) {
        if let JsonView::Object(m) = v {
            if let JsonView::Object(x) = normalized(v) {
                assert(x[0] == str_member("type"@, "object"@));
                assert(crate::tools::domain::json_value::member(x, "type"@) == Some(JsonView::Str("object"@)));
            }
        }
    }
}

} // verus!
