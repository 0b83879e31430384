//! A structured JSON value model.
//!
//! Tool arguments, tool results and schema metadata are structured JSON
//! values. The executable type [`JsonValue`] carries them; its mathematical
//! model is [`JsonSpec`], reached through [`json_view`] (or `deep_view()`).
//! Numbers are held as signed 64-bit integers; textual encoding and decoding
//! of JSON happens outside the library, which only manipulates the structure.

use vstd::prelude::*;

verus! {

/// Mathematical model of a JSON value.
#[verifier::ext_equal]
pub enum JsonSpec {
    Null,
    Bool(bool),
    Int(i64),
    Str(Seq<char>),
    Arr(Seq<JsonSpec>),
    Obj(Seq<(Seq<char>, JsonSpec)>),
}

/// A structured JSON value: the argument and result currency of tool calls.
#[derive(Debug)]
pub enum JsonValue {
    Null,
    Bool(bool),
    Int(i64),
    Str(String),
    Arr(Vec<JsonValue>),
    Obj(Vec<(String, JsonValue)>),
}

impl DeepView for JsonValue {
    type V = JsonSpec;

    open spec fn deep_view(&self) -> JsonSpec {
        json_view(*self)
    }
}

/// The model of a `JsonValue`, recursively.
pub open spec fn json_view(v: JsonValue) -> JsonSpec
    decreases v,
{
    match v {
        JsonValue::Null => JsonSpec::Null,
        JsonValue::Bool(b) => JsonSpec::Bool(b),
        JsonValue::Int(i) => JsonSpec::Int(i),
        JsonValue::Str(s) => JsonSpec::Str(s@),
        JsonValue::Arr(items) => JsonSpec::Arr(json_arr_view(items@)),
        JsonValue::Obj(members) => JsonSpec::Obj(json_obj_view(members@)),
    }
}

/// The models of a sequence of JSON values, element by element.
pub open spec fn json_arr_view(items: Seq<JsonValue>) -> Seq<JsonSpec>
    decreases items,
{
    if items.len() == 0 {
        Seq::empty()
    } else {
        seq![json_view(items[0])] + json_arr_view(items.skip(1))
    }
}

/// The models of a sequence of JSON object members, member by member.
pub open spec fn json_obj_view(members: Seq<(String, JsonValue)>) -> Seq<(Seq<char>, JsonSpec)>
    decreases members,
{
    if members.len() == 0 {
        Seq::empty()
    } else {
        seq![(members[0].0@, json_view(members[0].1))] + json_obj_view(members.skip(1))
    }
}

/// `json_arr_view` maps the elements one for one.
pub proof fn lemma_json_arr_view(items: Seq<JsonValue>)
    ensures
        json_arr_view(items).len() == items.len(),
        forall|i: int| 0 <= i < items.len() ==> json_arr_view(items)[i] == json_view(items[i]),
    decreases items.len(),
{
    if items.len() > 0 {
        lemma_json_arr_view(items.skip(1));
    }
}

/// `json_obj_view` maps the members one for one.
pub proof fn lemma_json_obj_view(members: Seq<(String, JsonValue)>)
    ensures
        json_obj_view(members).len() == members.len(),
        forall|i: int| 0 <= i < members.len() ==> json_obj_view(members)[i] == (
        members[i].0@,
        json_view(members[i].1),
        ),
    decreases members.len(),
{
    if members.len() > 0 {
        lemma_json_obj_view(members.skip(1));
    }
}

/// First value bound to `key` in an object model, if any.
pub open spec fn json_member(members: Seq<(Seq<char>, JsonSpec)>, key: Seq<char>) -> Option<
    JsonSpec,
>
    decreases members.len(),
{
    if members.len() == 0 {
        None
    } else if members[0].0 == key {
        Some(members[0].1)
    } else {
        json_member(members.skip(1), key)
    }
}

/// What `JsonValue::get` returns: a member lookup on objects, `None` elsewhere.
pub open spec fn json_get(v: JsonSpec, key: Seq<char>) -> Option<JsonSpec> {
    match v {
        JsonSpec::Obj(members) => json_member(members, key),
        _ => None,
    }
}


/// The string bound to `key` in a JSON object model, if any.
pub open spec fn spec_get_str(j: JsonSpec, key: Seq<char>) -> Option<Seq<char>> {
    match json_get(j, key) {
        Some(JsonSpec::Str(s)) => Some(s),
        _ => None,
    }
}

impl JsonValue {
    /// An empty JSON object.
    pub fn empty_object() -> (r: JsonValue)
        ensures
            r.deep_view() == JsonSpec::Obj(Seq::<(Seq<char>, JsonSpec)>::empty()),
    {
        let v: Vec<(String, JsonValue)> = Vec::new();
        JsonValue::Obj(v)
    }

    /// A structural copy, equal to `self` under the model.
    pub fn deep_clone(&self) -> (r: JsonValue)
        ensures
            r.deep_view() == self.deep_view(),
        decreases *self,
    {
        match self {
            JsonValue::Null => JsonValue::Null,
            JsonValue::Bool(b) => JsonValue::Bool(*b),
            JsonValue::Int(i) => JsonValue::Int(*i),
            JsonValue::Str(s) => JsonValue::Str(s.clone()),
            JsonValue::Arr(items) => {
                let mut out: Vec<JsonValue> = Vec::new();
                let n = items.len();
                let mut i: usize = 0;
                while i < n
                    invariant
                        0 <= i <= n,
                        n == items@.len(),
                        out@.len() == i,
                        forall|j: int| 0 <= j < i ==> json_view(out@[j]) == json_view(items@[j]),
                        *self == JsonValue::Arr(*items),
                    decreases n - i,
                {
                    proof {
                        assert(*items == (*self)->Arr_0);
                        assert(decreases_to!(*self => (*self)->Arr_0));
                        assert(decreases_to!(*items => items@));
                        assert(decreases_to!(items@ => items@[i as int]));
                    }
                    let c = items[i].deep_clone();
                    out.push(c);
                    i = i + 1;
                }
                let r = JsonValue::Arr(out);
                proof {
                    lemma_json_arr_view(out@);
                    lemma_json_arr_view(items@);
                    assert(json_arr_view(out@) =~= json_arr_view(items@));
                }
                r
            },
            JsonValue::Obj(members) => {
                let mut out: Vec<(String, JsonValue)> = Vec::new();
                let n = members.len();
                let mut i: usize = 0;
                while i < n
                    invariant
                        0 <= i <= n,
                        n == members@.len(),
                        out@.len() == i,
                        forall|j: int|
                            0 <= j < i ==> out@[j].0@ == members@[j].0@ && json_view(out@[j].1)
                                == json_view(members@[j].1),
                        *self == JsonValue::Obj(*members),
                    decreases n - i,
                {
                    proof {
                        assert(*members == (*self)->Obj_0);
                        assert(decreases_to!(*self => (*self)->Obj_0));
                        assert(decreases_to!(*members => members@));
                        assert(decreases_to!(members@ => members@[i as int]));
                        assert(decreases_to!(members@[i as int] => members@[i as int].1));
                    }
                    let k = members[i].0.clone();
                    let v = members[i].1.deep_clone();
                    out.push((k, v));
                    i = i + 1;
                }
                let r = JsonValue::Obj(out);
                proof {
                    lemma_json_obj_view(out@);
                    lemma_json_obj_view(members@);
                    assert(json_obj_view(out@) =~= json_obj_view(members@));
                }
                r
            },
        }
    }

    /// Structural equality of two values under the model.
    pub fn deep_eq(&self, other: &JsonValue) -> (r: bool)
        ensures
            r == (self.deep_view() == other.deep_view()),
        decreases *self,
    {
        match (self, other) {
            (JsonValue::Null, JsonValue::Null) => true,
            (JsonValue::Bool(a), JsonValue::Bool(b)) => *a == *b,
            (JsonValue::Int(a), JsonValue::Int(b)) => *a == *b,
            (JsonValue::Str(a), JsonValue::Str(b)) => *a == *b,
            (JsonValue::Arr(xs), JsonValue::Arr(ys)) => {
                proof {
                    lemma_json_arr_view(xs@);
                    lemma_json_arr_view(ys@);
                }
                if xs.len() != ys.len() {
                    return false;
                }
                let n = xs.len();
                let mut i: usize = 0;
                while i < n
                    invariant
                        0 <= i <= n,
                        n == xs@.len() && n == ys@.len(),
                        forall|j: int| 0 <= j < i ==> json_view(xs@[j]) == json_view(ys@[j]),
                        *self == JsonValue::Arr(*xs),
                        *other == JsonValue::Arr(*ys),
                    decreases n - i,
                {
                    proof {
                        assert(*xs == (*self)->Arr_0);
                        assert(decreases_to!(*self => (*self)->Arr_0));
                        assert(decreases_to!(*xs => xs@));
                        assert(decreases_to!(xs@ => xs@[i as int]));
                        lemma_json_arr_view(xs@);
                        lemma_json_arr_view(ys@);
                    }
                    if !xs[i].deep_eq(&ys[i]) {
                        proof {
                            assert(json_arr_view(xs@)[i as int] != json_arr_view(ys@)[i as int]);
                        }
                        return false;
                    }
                    i = i + 1;
                }
                proof {
                    lemma_json_arr_view(xs@);
                    lemma_json_arr_view(ys@);
                    assert(json_arr_view(xs@) =~= json_arr_view(ys@));
                }
                true
            },
            (JsonValue::Obj(xs), JsonValue::Obj(ys)) => {
                proof {
                    lemma_json_obj_view(xs@);
                    lemma_json_obj_view(ys@);
                }
                if xs.len() != ys.len() {
                    return false;
                }
                let n = xs.len();
                let mut i: usize = 0;
                while i < n
                    invariant
                        0 <= i <= n,
                        n == xs@.len() && n == ys@.len(),
                        forall|j: int|
                            0 <= j < i ==> xs@[j].0@ == ys@[j].0@ && json_view(xs@[j].1)
                                == json_view(ys@[j].1),
                        *self == JsonValue::Obj(*xs),
                        *other == JsonValue::Obj(*ys),
                    decreases n - i,
                {
                    proof {
                        assert(*xs == (*self)->Obj_0);
                        assert(decreases_to!(*self => (*self)->Obj_0));
                        assert(decreases_to!(*xs => xs@));
                        assert(decreases_to!(xs@ => xs@[i as int]));
                        assert(decreases_to!(xs@[i as int] => xs@[i as int].1));
                        lemma_json_obj_view(xs@);
                        lemma_json_obj_view(ys@);
                    }
                    if xs[i].0 != ys[i].0 {
                        proof {
                            assert(json_obj_view(xs@)[i as int] != json_obj_view(ys@)[i as int]);
                        }
                        return false;
                    }
                    if !xs[i].1.deep_eq(&ys[i].1) {
                        proof {
                            assert(json_obj_view(xs@)[i as int] != json_obj_view(ys@)[i as int]);
                        }
                        return false;
                    }
                    i = i + 1;
                }
                proof {
                    lemma_json_obj_view(xs@);
                    lemma_json_obj_view(ys@);
                    assert(json_obj_view(xs@) =~= json_obj_view(ys@));
                }
                true
            },
            _ => false,
        }
    }

    /// Looks a key up in a JSON object; `None` on other value shapes.
    pub fn get<'a>(&'a self, key: &String) -> (r: Option<&'a JsonValue>)
        ensures
            match r {
                Some(v) => json_get(self.deep_view(), key@) == Some(v.deep_view()),
                None => json_get(self.deep_view(), key@) is None,
            },
    {
        match self {
            JsonValue::Obj(members) => {
                let ghost mseq = json_obj_view(members@);
                let n = members.len();
                let mut i: usize = 0;
                proof {
                    lemma_json_obj_view(members@);
                    assert(mseq.skip(0) =~= mseq);
                }
                while i < n
                    invariant
                        0 <= i <= n,
                        n == members@.len(),
                        mseq == json_obj_view(members@),
                        mseq.len() == n,
                        forall|j: int|
                            0 <= j < n ==> mseq[j] == (members@[j].0@, json_view(members@[j].1)),
                        json_get(json_view(*self), key@) == json_member(
                            mseq.skip(i as int),
                            key@,
                        ),
                        self matches JsonValue::Obj(m) && m@ == members@,
                    decreases n - i,
                {
                    proof {
                        assert(mseq.skip(i as int)[0] == mseq[i as int]);
                    }
                    if members[i].0 == *key {
                        return Some(&members[i].1);
                    }
                    proof {
                        assert(mseq.skip(i as int).skip(1) =~= mseq.skip(i as int + 1));
                    }
                    i = i + 1;
                }
                proof {
                    assert(mseq.skip(n as int) =~= Seq::<(Seq<char>, JsonSpec)>::empty());
                }
                None
            },
            _ => None,
        }
    }
}


/// Looks a string member up in a JSON object.
pub fn get_str<'a>(v: &'a JsonValue, key: String) -> (r: Option<&'a String>)
    ensures
        match r {
            Some(s) => spec_get_str(v.deep_view(), key@) == Some(s@),
            None => spec_get_str(v.deep_view(), key@) is None,
        },
{
    match v.get(&key) {
        Some(inner) => match inner {
            JsonValue::Str(s) => Some(s),
            _ => None,
        },
        None => None,
    }
}
} // verus!
