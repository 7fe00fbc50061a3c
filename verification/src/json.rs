//! The tree model of a JSON document.
//!
//! The engine works on [`JsonValue`], an owned tree of JSON values, and all
//! contracts speak of [`JsonModel`], its mathematical mirror. Floating-point
//! leaves are kept as the parser produced them and stay opaque: the engine
//! only ever routes them, it never computes with them.

use vstd::prelude::*;

verus! {

/// The mathematical model of a JSON document: the spec-level mirror of
/// [`JsonValue`].
///
/// A floating-point leaf is modelled by an abstract bit pattern that the
/// contracts never interpret.
pub enum JsonModel {
    Null,
    Bool(bool),
    Int(i64),
    Uint(u64),
    Float(u64),
    Str(Seq<char>),
    Arr(Seq<JsonModel>),
    Obj(Seq<(Seq<char>, JsonModel)>),
}

#[verifier::external_type_specification]
#[verifier::external_body]
pub struct ExJson(rustc_serialize::json::Json);

/// The bit pattern of the floating-point number a parsed leaf holds; it
/// depends on the leaf value alone. Only the number leaves sealed inside
/// [`FloatLeaf`] ever reach it.
pub uninterp spec fn float_bits(j: rustc_serialize::json::Json) -> u64;

/// A floating-point leaf, exactly as the parser produced it.
///
/// The field stays crate-private and only the parse boundary and
/// [`JsonValue::duplicate`] construct one, always from a number leaf: no
/// other shape of `Json` value ever inhabits it. The model of such a leaf
/// is the number's bit pattern, which therefore determines the leaf.
pub struct FloatLeaf {
    pub(crate) leaf: rustc_serialize::json::Json,
}

impl FloatLeaf {
    /// The parsed number leaf this value carries.
    pub closed spec fn value(&self) -> rustc_serialize::json::Json {
        self.leaf
    }
}

/// An owned JSON value.
///
/// `Float` carries the parsed number leaf through untouched, since the
/// engine never reads a number's magnitude; every other variant holds
/// plain values.
pub enum JsonValue {
    Null,
    Bool(bool),
    Int(i64),
    Uint(u64),
    Float(FloatLeaf),
    Str(String),
    Array(Vec<JsonValue>),
    Object(Vec<(String, JsonValue)>),
}

impl JsonValue {
    /// The mathematical tree this value stands for.
    pub open spec fn model(&self) -> JsonModel
        decreases self
        via Self::model_decreases
    {
        match self {
            JsonValue::Null => JsonModel::Null,
            JsonValue::Bool(b) => JsonModel::Bool(*b),
            JsonValue::Int(i) => JsonModel::Int(*i),
            JsonValue::Uint(u) => JsonModel::Uint(*u),
            JsonValue::Float(fl) => JsonModel::Float(float_bits(fl.value())),
            JsonValue::Str(s) => JsonModel::Str(s@),
            JsonValue::Array(elems) => JsonModel::Arr(
                Seq::new(
                    elems@.len(),
                    |i: int|
                        if 0 <= i < elems@.len() {
                            elems@[i].model()
                        } else {
                            JsonModel::Null
                        },
                ),
            ),
            JsonValue::Object(members) => JsonModel::Obj(
                Seq::new(
                    members@.len(),
                    |i: int|
                        if 0 <= i < members@.len() {
                            (members@[i].0@, members@[i].1.model())
                        } else {
                            (Seq::empty(), JsonModel::Null)
                        },
                ),
            ),
        }
    }

    /// An exact copy of the value.
    #[verifier::loop_isolation(false)]
    pub fn duplicate(&self) -> (r: JsonValue)
        ensures
            r@ == self@,
        decreases self,
    {
        match self {
            JsonValue::Null => JsonValue::Null,
            JsonValue::Bool(b) => JsonValue::Bool(*b),
            JsonValue::Int(i) => JsonValue::Int(*i),
            JsonValue::Uint(u) => JsonValue::Uint(*u),
            JsonValue::Float(fl) => JsonValue::Float(
                FloatLeaf { leaf: crate::wire::clone_json(&fl.leaf) },
            ),
            JsonValue::Str(s) => JsonValue::Str(s.clone()),
            JsonValue::Array(elems) => {
                let mut out: Vec<JsonValue> = Vec::new();
                let mut k: usize = 0;
                while k < elems.len()
                    invariant
                        k <= elems@.len(),
                        out@.len() == k,
                        forall|i: int| 0 <= i < k ==> out@[i]@ == elems@[i]@,
                    decreases elems@.len() - k,
                {
                    proof {
                        assert(decreases_to!(*elems => elems@));
                        assert(decreases_to!(elems@ => elems@[k as int]));
                    }
                    out.push(elems[k].duplicate());
                    k += 1;
                }
                let r = JsonValue::Array(out);
                proof {
                    assert(r@->Arr_0 =~= self@->Arr_0);
                }
                r
            },
            JsonValue::Object(members) => {
                let mut out: Vec<(String, JsonValue)> = Vec::new();
                let mut k: usize = 0;
                while k < members.len()
                    invariant
                        k <= members@.len(),
                        out@.len() == k,
                        forall|i: int|
                            0 <= i < k ==> out@[i].0@ == members@[i].0@ && out@[i].1@
                                == members@[i].1@,
                    decreases members@.len() - k,
                {
                    proof {
                        assert(decreases_to!(*members => members@));
                        assert(decreases_to!(members@ => members@[k as int]));
                        assert(decreases_to!(members@[k as int] => members@[k as int].1));
                    }
                    let pair = &members[k];
                    out.push((pair.0.clone(), pair.1.duplicate()));
                    k += 1;
                }
                let r = JsonValue::Object(out);
                proof {
                    assert(r@->Obj_0 =~= self@->Obj_0);
                }
                r
            },
        }
    }

    /// Whether this value is JSON null.
    pub fn is_null(&self) -> (r: bool)
        ensures
            r == (self@ is Null),
    {
        match self {
            JsonValue::Null => true,
            _ => false,
        }
    }

    #[via_fn]
    proof fn model_decreases(&self) {
        match self {
            JsonValue::Array(elems) => {
                assert forall|i: int|
                    0 <= i < elems@.len() implies decreases_to!(*self => elems@[i]) by {
                    assert(decreases_to!(*elems => elems@));
                    assert(decreases_to!(elems@ => elems@[i]));
                }
            }
            JsonValue::Object(members) => {
                assert forall|i: int|
                    0 <= i < members@.len() implies decreases_to!(*self => members@[i].1) by {
                    assert(decreases_to!(*members => members@));
                    assert(decreases_to!(members@ => members@[i]));
                    assert(decreases_to!(members@[i] => members@[i].1));
                }
            }
            _ => {},
        }
    }
}

impl View for JsonValue {
    type V = JsonModel;

    open spec fn view(&self) -> JsonModel {
        self.model()
    }
}

/// The models of the values an optional value holds.
pub open spec fn opt_model(o: Option<JsonValue>) -> Option<JsonModel> {
    match o {
        Some(v) => Some(v.model()),
        None => None,
    }
}

/// The models of a sequence of values, element by element.
pub open spec fn seq_model(elems: Seq<JsonValue>) -> Seq<JsonModel> {
    Seq::new(
        elems.len(),
        |i: int|
            if 0 <= i < elems.len() {
                elems[i].model()
            } else {
                JsonModel::Null
            },
    )
}

/// The first value an object's member sequence pairs with a key, if any.
pub open spec fn lookup(members: Seq<(Seq<char>, JsonModel)>, key: Seq<char>) -> Option<JsonModel>
    decreases members.len(),
{
    if members.len() == 0 {
        None
    } else if members[0].0 == key {
        Some(members[0].1)
    } else {
        lookup(members.drop_first(), key)
    }
}

/// The member at the first index whose key matches is the one `lookup`
/// yields.
proof fn lemma_lookup_first(members: Seq<(Seq<char>, JsonModel)>, key: Seq<char>, i: int)
    requires
        0 <= i < members.len(),
        forall|j: int| 0 <= j < i ==> members[j].0 != key,
        members[i].0 == key,
    ensures
        lookup(members, key) == Some(members[i].1),
    decreases i,
{
    if i > 0 {
        lemma_lookup_first(members.drop_first(), key, i - 1);
    }
}

/// Where no member's key matches, `lookup` yields nothing.
proof fn lemma_lookup_none(members: Seq<(Seq<char>, JsonModel)>, key: Seq<char>)
    requires
        forall|j: int| 0 <= j < members.len() ==> members[j].0 != key,
    ensures
        lookup(members, key) is None,
    decreases members.len(),
{
    if members.len() > 0 {
        lemma_lookup_none(members.drop_first(), key);
    }
}

impl JsonValue {
    /// The value this object pairs with `key`, reading the first matching
    /// member.
    pub fn get<'a>(&'a self, key: &str) -> (r: Option<&'a JsonValue>)
        requires
            self is Object,
        ensures
            match r {
                Some(v) => lookup(self@->Obj_0, key@) == Some(v@),
                None => lookup(self@->Obj_0, key@) is None,
            },
    {
        match self {
            JsonValue::Object(members) => {
                let needle: String = key.to_owned();
                let ghost pairs = self@->Obj_0;
                let mut k: usize = 0;
                while k < members.len()
                    invariant
                        self is Object,
                        members == self->Object_0,
                        pairs == self@->Obj_0,
                        k <= members.len(),
                        needle@ == key@,
                        forall|j: int| 0 <= j < k ==> pairs[j].0 != key@,
                    decreases members.len() - k,
                {
                    if members[k].0 == needle {
                        proof {
                            lemma_lookup_first(pairs, key@, k as int);
                        }
                        return Some(&members[k].1);
                    }
                    k += 1;
                }
                proof {
                    lemma_lookup_none(pairs, key@);
                }
                None
            },
            _ => None,
        }
    }
}

} // verus!
