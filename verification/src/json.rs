//! A self-contained model of the JSON documents that cross the UI
//! boundary: every envelope the bridge consumes or emits is built from
//! these values. Numbers are restricted to integers, which covers every
//! field the envelope grammar reads or writes.

use vstd::prelude::*;

verus! {

/// An in-memory JSON document.
pub enum JsonVal {
    Null,
    Bool(bool),
    Int(i64),
    Str(String),
    Arr(Vec<JsonVal>),
    Obj(Vec<(String, JsonVal)>),
}

/// The mathematical shape of a `JsonVal`: strings as character
/// sequences, arrays and objects as sequences.
#[verifier::ext_equal]
pub enum JsonModel {
    Null,
    Bool(bool),
    Int(int),
    Str(Seq<char>),
    Arr(Seq<JsonModel>),
    Obj(Seq<(Seq<char>, JsonModel)>),
}

/// The model of a concrete JSON value.
pub open spec fn json_model(v: JsonVal) -> JsonModel
    decreases v, 1int,
{
    match v {
        JsonVal::Null => JsonModel::Null,
        JsonVal::Bool(b) => JsonModel::Bool(b),
        JsonVal::Int(i) => JsonModel::Int(i as int),
        JsonVal::Str(s) => JsonModel::Str(s@),
        JsonVal::Arr(items) => JsonModel::Arr(json_model_seq(items@)),
        JsonVal::Obj(fields) => JsonModel::Obj(json_model_fields(fields@)),
    }
}

/// The models of the elements of an array, in order.
pub open spec fn json_model_seq(items: Seq<JsonVal>) -> Seq<JsonModel>
    decreases items, 0int,
{
    if items.len() == 0 {
        Seq::empty()
    } else {
        seq![json_model(items.first())] + json_model_seq(items.drop_first())
    }
}

/// The models of the fields of an object, in order.
pub open spec fn json_model_fields(fields: Seq<(String, JsonVal)>) -> Seq<(Seq<char>, JsonModel)>
    decreases fields, 0int,
{
    if fields.len() == 0 {
        Seq::empty()
    } else {
        seq![(fields.first().0@, json_model(fields.first().1))] + json_model_fields(
            fields.drop_first(),
        )
    }
}

impl View for JsonVal {
    type V = JsonModel;

    open spec fn view(&self) -> JsonModel {
        json_model(*self)
    }
}

/// The model of an array is elementwise.
pub proof fn lemma_json_model_seq(s: Seq<JsonVal>)
    ensures
        json_model_seq(s).len() == s.len(),
        forall|i: int|
            0 <= i < s.len() ==> #[trigger] json_model_seq(s)[i] == json_model(s[i]),
    decreases s.len(),
{
    if s.len() > 0 {
        lemma_json_model_seq(s.drop_first());
        assert forall|i: int| 0 <= i < s.len() implies #[trigger] json_model_seq(s)[i]
            == json_model(s[i]) by {
            if i > 0 {
                assert(json_model_seq(s)[i] == json_model_seq(s.drop_first())[i - 1]);
                assert(s.drop_first()[i - 1] == s[i]);
            }
        }
    }
}

/// The model of an object is fieldwise.
pub proof fn lemma_json_model_fields(s: Seq<(String, JsonVal)>)
    ensures
        json_model_fields(s).len() == s.len(),
        forall|i: int|
            0 <= i < s.len() ==> #[trigger] json_model_fields(s)[i] == (
                s[i].0@,
                json_model(s[i].1),
            ),
    decreases s.len(),
{
    if s.len() > 0 {
        lemma_json_model_fields(s.drop_first());
        assert forall|i: int| 0 <= i < s.len() implies #[trigger] json_model_fields(s)[i] == (
            s[i].0@,
            json_model(s[i].1),
        ) by {
            if i > 0 {
                assert(json_model_fields(s)[i] == json_model_fields(s.drop_first())[i - 1]);
                assert(s.drop_first()[i - 1] == s[i]);
            }
        }
    }
}

/// First binding of `key` among the fields of an object, if any.
pub open spec fn spec_lookup(fields: Seq<(Seq<char>, JsonModel)>, key: Seq<char>) -> Option<
    JsonModel,
>
    decreases fields.len(),
{
    if fields.len() == 0 {
        None
    } else if fields[0].0 == key {
        Some(fields[0].1)
    } else {
        spec_lookup(fields.drop_first(), key)
    }
}

/// Field access on an object model; `None` on every other shape.
pub open spec fn spec_get(m: JsonModel, key: Seq<char>) -> Option<JsonModel> {
    match m {
        JsonModel::Obj(fields) => spec_lookup(fields, key),
        _ => None,
    }
}

impl JsonVal {
    /// Looks a key up in an object, as the UI envelopes are read:
    /// `None` when the value is not an object or lacks the key.
    pub fn get<'a>(&'a self, key: &str) -> (r: Option<&'a JsonVal>)
        ensures
            match r {
                Some(f) => spec_get(self@, key@) == Some(f@),
                None => spec_get(self@, key@) is None,
            },
    {
        match self {
            JsonVal::Obj(fields) => {
                let key_owned: String = key.to_owned();
                let ghost all = json_model(*self)->Obj_0;
                proof {
                    lemma_json_model_fields(fields@);
                    assert(all.skip(0) =~= all);
                }
                let mut i: usize = 0;
                loop
                    invariant
                        i <= fields@.len(),
                        key_owned@ == key@,
                        *self matches JsonVal::Obj(f) && f == *fields,
                        all == json_model(*self)->Obj_0,
                        all.len() == fields@.len(),
                        spec_lookup(all, key@) == spec_lookup(all.skip(i as int), key@),
                    decreases fields@.len() - i,
                {
                    if i >= fields.len() {
                        proof {
                            assert(all.skip(i as int) =~= Seq::<(Seq<char>, JsonModel)>::empty());
                        }
                        return None;
                    }
                    proof {
                        lemma_json_model_fields(fields@);
                        assert(all.skip(i as int).drop_first() =~= all.skip(i as int + 1));
                        assert(all.skip(i as int)[0] == all[i as int]);
                        assert(all[i as int] == (fields@[i as int].0@, json_model(
                            fields@[i as int].1,
                        )));
                    }
                    if fields[i].0 == key_owned {
                        return Some(&fields[i].1);
                    }
                    i = i + 1;
                }
            },
            _ => None,
        }
    }

    /// A structurally equal copy of the value.
    pub fn deep_clone(&self) -> (r: JsonVal)
        ensures
            r@ == self@,
        decreases *self,
    {
        match self {
            JsonVal::Null => JsonVal::Null,
            JsonVal::Bool(b) => JsonVal::Bool(*b),
            JsonVal::Int(i) => JsonVal::Int(*i),
            JsonVal::Str(s) => JsonVal::Str(s.clone()),
            JsonVal::Arr(items) => {
                let mut out: Vec<JsonVal> = Vec::new();
                let mut i: usize = 0;
                while i < items.len()
                    invariant
                        i <= items@.len(),
                        *self matches JsonVal::Arr(f) && f == *items,
                        out@.len() == i,
                        forall|j: int|
                            0 <= j < i ==> json_model(#[trigger] out@[j]) == json_model(
                                items@[j],
                            ),
                    decreases items@.len() - i,
                {
                    out.push(items[i].deep_clone());
                    i = i + 1;
                }
                proof {
                    lemma_json_model_seq(items@);
                    lemma_json_model_seq(out@);
                    assert(json_model_seq(out@) =~= json_model_seq(items@));
                }
                JsonVal::Arr(out)
            },
            JsonVal::Obj(fields) => {
                let mut out: Vec<(String, JsonVal)> = Vec::new();
                let mut i: usize = 0;
                while i < fields.len()
                    invariant
                        i <= fields@.len(),
                        *self matches JsonVal::Obj(f) && f == *fields,
                        out@.len() == i,
                        forall|j: int|
                            0 <= j < i ==> (#[trigger] out@[j]).0@ == fields@[j].0@ && json_model(
                                out@[j].1,
                            ) == json_model(fields@[j].1),
                    decreases fields@.len() - i,
                {
                    let entry = &fields[i];
                    out.push((entry.0.clone(), entry.1.deep_clone()));
                    i = i + 1;
                }
                proof {
                    lemma_json_model_fields(fields@);
                    lemma_json_model_fields(out@);
                    assert(json_model_fields(out@) =~= json_model_fields(fields@));
                }
                JsonVal::Obj(out)
            },
        }
    }

    /// The string inside a `Str` value, else `None`.
    pub fn as_str<'a>(&'a self) -> (r: Option<&'a str>)
        ensures
            match r {
                Some(s) => self@ == JsonModel::Str(s@),
                None => !(self@ is Str),
            },
    {
        match self {
            JsonVal::Str(s) => Some(s.as_str()),
            _ => None,
        }
    }

    /// The boolean inside a `Bool` value, else `None`.
    pub fn as_bool(&self) -> (r: Option<bool>)
        ensures
            match r {
                Some(b) => self@ == JsonModel::Bool(b),
                None => !(self@ is Bool),
            },
    {
        match self {
            JsonVal::Bool(b) => Some(*b),
            _ => None,
        }
    }
}

} // verus!
