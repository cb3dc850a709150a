//! The JSON tree this crate decodes records from and encodes records into.
//!
//! A `Json` value is the executable tree; its mathematical model is `JsonV`,
//! in which text is a `Seq<char>` and children are `Seq`s. Numbers keep
//! their literal decimal text, so no precision is lost between the wire and
//! the tree.

use vstd::prelude::*;

use crate::text::spec_parse_i64;

verus! {

broadcast use vstd::std_specs::vec::group_vec_axioms;

/// An executable JSON document.
///
/// `Num` holds the number's literal text; `Obj` holds key/value pairs in
/// document order.
#[derive(Debug, PartialEq)]
pub enum Json {
    Null,
    Bool(bool),
    Num(String),
    Str(String),
    Arr(Vec<Json>),
    Obj(Vec<(String, Json)>),
}

/// The mathematical model of a JSON document.
#[verifier::ext_equal]
pub ghost enum JsonV {
    Null,
    Bool(bool),
    Num(Seq<char>),
    Str(Seq<char>),
    Arr(Seq<JsonV>),
    Obj(Seq<(Seq<char>, JsonV)>),
}

/// The model of one executable JSON tree.
pub open spec fn json_view(j: Json) -> JsonV
    decreases j,
{
    match j {
        Json::Null => JsonV::Null,
        Json::Bool(b) => JsonV::Bool(b),
        Json::Num(t) => JsonV::Num(t@),
        Json::Str(t) => JsonV::Str(t@),
        Json::Arr(v) => JsonV::Arr(json_seq_view(v)),
        Json::Obj(v) => JsonV::Obj(json_pairs_view(v)),
    }
}

/// The models of an array's children.
pub open spec fn json_seq_view(v: Vec<Json>) -> Seq<JsonV>
    decreases v,
{
    Seq::new(
        v@.len(),
        |i: int|
            if 0 <= i < v@.len() {
                json_view(v@[i])
            } else {
                JsonV::Null
            },
    )
}

/// The model of one object member.
pub open spec fn json_pair_view(p: (String, Json)) -> (Seq<char>, JsonV)
    decreases p,
{
    (p.0@, json_view(p.1))
}

/// The models of an object's members, in document order.
pub open spec fn json_pairs_view(v: Vec<(String, Json)>) -> Seq<(Seq<char>, JsonV)>
    decreases v,
{
    Seq::new(
        v@.len(),
        |i: int|
            if 0 <= i < v@.len() {
                json_pair_view(v@[i])
            } else {
                (Seq::empty(), JsonV::Null)
            },
    )
}

impl View for Json {
    type V = JsonV;

    open spec fn view(&self) -> JsonV {
        json_view(*self)
    }
}

impl DeepView for Json {
    type V = JsonV;

    open spec fn deep_view(&self) -> JsonV {
        self.view()
    }
}

/// The first value bound to `k` in an object's pairs, if any.
pub open spec fn spec_obj_get(es: Seq<(Seq<char>, JsonV)>, k: Seq<char>) -> Option<JsonV>
    decreases es.len(),
{
    if es.len() == 0 {
        None
    } else if es[0].0 == k {
        Some(es[0].1)
    } else {
        spec_obj_get(es.drop_first(), k)
    }
}

/// An optional string-valued member: absent or null means absent; any
/// non-string value is a type mismatch.
pub open spec fn field_str(es: Seq<(Seq<char>, JsonV)>, k: Seq<char>) -> Option<
    Option<Seq<char>>,
> {
    match spec_obj_get(es, k) {
        Option::None => Some(None),
        Option::Some(JsonV::Null) => Some(None),
        Option::Some(JsonV::Str(s)) => Some(Some(s)),
        Option::Some(_) => None,
    }
}

/// An optional integer-valued member, read from the number's decimal text.
pub open spec fn field_int(es: Seq<(Seq<char>, JsonV)>, k: Seq<char>) -> Option<Option<i64>> {
    match spec_obj_get(es, k) {
        Option::None => Some(None),
        Option::Some(JsonV::Null) => Some(None),
        Option::Some(JsonV::Num(t)) => match spec_parse_i64(t) {
            Option::Some(n) => Some(Some(n)),
            Option::None => None,
        },
        Option::Some(_) => None,
    }
}

/// An optional boolean member.
pub open spec fn field_bool(es: Seq<(Seq<char>, JsonV)>, k: Seq<char>) -> Option<Option<bool>> {
    match spec_obj_get(es, k) {
        Option::None => Some(None),
        Option::Some(JsonV::Null) => Some(None),
        Option::Some(JsonV::Bool(b)) => Some(Some(b)),
        Option::Some(_) => None,
    }
}

/// An optional number member kept as its literal decimal text.
pub open spec fn field_num(es: Seq<(Seq<char>, JsonV)>, k: Seq<char>) -> Option<
    Option<Seq<char>>,
> {
    match spec_obj_get(es, k) {
        Option::None => Some(None),
        Option::Some(JsonV::Null) => Some(None),
        Option::Some(JsonV::Num(t)) => Some(Some(t)),
        Option::Some(_) => None,
    }
}

/// A sequence-valued member: an absent member is an empty sequence, while a
/// present member must be an array.
pub open spec fn field_arr(es: Seq<(Seq<char>, JsonV)>, k: Seq<char>) -> Option<Seq<JsonV>> {
    match spec_obj_get(es, k) {
        Option::None => Some(Seq::empty()),
        Option::Some(JsonV::Arr(a)) => Some(a),
        Option::Some(_) => None,
    }
}

/// An optional nested record member, decoded by `f`.
pub open spec fn field_rec<T>(
    es: Seq<(Seq<char>, JsonV)>,
    k: Seq<char>,
    f: spec_fn(JsonV) -> Option<T>,
) -> Option<Option<T>> {
    match spec_obj_get(es, k) {
        Option::None => Some(None),
        Option::Some(JsonV::Null) => Some(None),
        Option::Some(j) => match f(j) {
            Option::Some(v) => Some(Some(v)),
            Option::None => None,
        },
    }
}

/// Element-wise decoding of an array; fails if any element fails.
pub open spec fn spec_decode_list<T>(a: Seq<JsonV>, f: spec_fn(JsonV) -> Option<T>) -> Option<
    Seq<T>,
>
    decreases a.len(),
{
    if a.len() == 0 {
        Some(Seq::empty())
    } else {
        match f(a[0]) {
            Option::None => None,
            Option::Some(x) => match spec_decode_list(a.drop_first(), f) {
                Option::None => None,
                Option::Some(r) => Some(seq![x] + r),
            },
        }
    }
}

/// A sequence-valued member decoded element-wise.
pub open spec fn field_list<T>(
    es: Seq<(Seq<char>, JsonV)>,
    k: Seq<char>,
    f: spec_fn(JsonV) -> Option<T>,
) -> Option<Seq<T>> {
    match field_arr(es, k) {
        Option::None => None,
        Option::Some(a) => spec_decode_list(a, f),
    }
}

/// Looking up the key of member `i` finds member `i`, provided no earlier
/// member shares that key.
pub proof fn lemma_obj_get_at(es: Seq<(Seq<char>, JsonV)>, i: int)
    requires
        0 <= i < es.len(),
        forall|j: int| #![trigger es[j]] 0 <= j < i ==> es[j].0 != es[i].0,
    ensures
        spec_obj_get(es, es[i].0) == Some(es[i].1),
    decreases i,
{
    if i > 0 {
        let rest = es.drop_first();
        let last = rest[i - 1];
        assert forall|j: int| #![trigger rest[j]] 0 <= j < i - 1 implies rest[j].0 != last.0 by {
            assert(rest[j] == es[j + 1]);
            assert(rest[i - 1] == es[i]);
        }
        lemma_obj_get_at(rest, i - 1);
        assert(rest[i - 1] == es[i]);
        assert(es[0].0 != es[i].0);
    }
}

/// Find the first member named `k`, as `spec_obj_get` does on the model.
pub fn obj_get<'a>(es: &'a Vec<(String, Json)>, k: &str) -> (r: Option<&'a Json>)
    ensures
        match r {
            Some(j) => spec_obj_get(json_pairs_view(*es), k@) == Some(j@),
            None => spec_obj_get(json_pairs_view(*es), k@) is None,
        },
{
    let ghost dv = json_pairs_view(*es);
    proof {
        assert(dv.skip(0) =~= dv);
    }
    let mut i: usize = 0;
    while i < es.len()
        invariant
            i <= es@.len(),
            dv == json_pairs_view(*es),
            dv.len() == es@.len(),
            spec_obj_get(dv, k@) == spec_obj_get(dv.skip(i as int), k@),
        decreases es@.len() - i,
    {
        let pair = &es[i];
        proof {
            assert(dv[i as int] == json_pair_view(es@[i as int]));
        }
        if crate::text::str_eq(pair.0.as_str(), k) {
            proof {
                assert(dv.skip(i as int)[0] == dv[i as int]);
                assert(spec_obj_get(dv.skip(i as int), k@) == Some(dv[i as int].1));
            }
            return Some(&pair.1);
        }
        proof {
            assert(dv.skip(i as int)[0] == dv[i as int]);
            assert(dv.skip(i as int).drop_first() =~= dv.skip(i as int + 1));
        }
        i += 1;
    }
    proof {
        assert(dv.skip(i as int) =~= Seq::<(Seq<char>, JsonV)>::empty());
    }
    None
}

/// Read an optional string member, as `field_str` does on the model.
pub fn get_field_str(es: &Vec<(String, Json)>, k: &str) -> (r: Option<Option<String>>)
    ensures
        match r {
            Some(v) => field_str(json_pairs_view(*es), k@) == Some(v.deep_view()),
            None => field_str(json_pairs_view(*es), k@) is None,
        },
{
    match obj_get(es, k) {
        None => Some(None),
        Some(j) => match j {
            Json::Null => Some(None),
            Json::Str(s) => Some(Some(s.clone())),
            _ => None,
        },
    }
}

/// Read an optional integer member, as `field_int` does on the model.
pub fn get_field_int(es: &Vec<(String, Json)>, k: &str) -> (r: Option<Option<i64>>)
    ensures
        match r {
            Some(v) => field_int(json_pairs_view(*es), k@) == Some(v),
            None => field_int(json_pairs_view(*es), k@) is None,
        },
{
    match obj_get(es, k) {
        None => Some(None),
        Some(j) => match j {
            Json::Null => Some(None),
            Json::Num(t) => match crate::text::parse_i64_str(t.as_str()) {
                Some(n) => Some(Some(n)),
                None => None,
            },
            _ => None,
        },
    }
}

/// Read an optional boolean member, as `field_bool` does on the model.
pub fn get_field_bool(es: &Vec<(String, Json)>, k: &str) -> (r: Option<Option<bool>>)
    ensures
        match r {
            Some(v) => field_bool(json_pairs_view(*es), k@) == Some(v),
            None => field_bool(json_pairs_view(*es), k@) is None,
        },
{
    match obj_get(es, k) {
        None => Some(None),
        Some(j) => match j {
            Json::Null => Some(None),
            Json::Bool(b) => Some(Some(*b)),
            _ => None,
        },
    }
}

/// Read an optional number member as its literal text, as `field_num` does
/// on the model.
pub fn get_field_num(es: &Vec<(String, Json)>, k: &str) -> (r: Option<Option<String>>)
    ensures
        match r {
            Some(v) => field_num(json_pairs_view(*es), k@) == Some(v.deep_view()),
            None => field_num(json_pairs_view(*es), k@) is None,
        },
{
    match obj_get(es, k) {
        None => Some(None),
        Some(j) => match j {
            Json::Null => Some(None),
            Json::Num(t) => Some(Some(t.clone())),
            _ => None,
        },
    }
}

/// Decoding distributes over element-wise encoding: if `dec` inverts `enc`
/// on every element, a mapped array decodes back to the original sequence.
pub proof fn lemma_decode_encoded_list<T>(
    s: Seq<T>,
    enc: spec_fn(T) -> JsonV,
    dec: spec_fn(JsonV) -> Option<T>,
)
    requires
        forall|i: int| 0 <= i < s.len() ==> dec(enc(#[trigger] s[i])) == Some(s[i]),
    ensures
        spec_decode_list(s.map_values(enc), dec) == Some(s),
    decreases s.len(),
{
    let m = s.map_values(enc);
    if s.len() == 0 {
        assert(m.len() == 0);
        assert(spec_decode_list(m, dec) == Some(Seq::<T>::empty()));
        assert(s =~= Seq::<T>::empty());
    } else {
        let rest = s.drop_first();
        lemma_decode_encoded_list(rest, enc, dec);
        assert(m[0] == enc(s[0]));
        assert(m.drop_first() =~= rest.map_values(enc));
        assert(dec(m[0]) == Some(s[0]));
        assert(seq![s[0]] + rest =~= s);
    }
}

} // verus!
