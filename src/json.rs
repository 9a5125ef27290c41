use vstd::prelude::*;

verus! {

broadcast use vstd::std_specs::vec::axiom_vec_index_decreases;

/// Mathematical model of a JSON value. Numbers are kept as their literal text.
pub ghost enum Json {
    Null,
    Bool(bool),
    Number(Seq<char>),
    Str(Seq<char>),
    Array(Seq<Json>),
    Object(Seq<(Seq<char>, Json)>),
}

/// An untyped JSON value as decoded from a response body. Object members keep
/// the order in which they were decoded.
#[derive(Debug, PartialEq)]
pub enum JsonValue {
    Null,
    Bool(bool),
    Number(String),
    Str(String),
    Array(Vec<JsonValue>),
    Object(Vec<(String, JsonValue)>),
}

/// The value of the first member named `name`, if any.
pub open spec fn member(fields: Seq<(Seq<char>, Json)>, name: Seq<char>) -> Option<Json>
    decreases fields.len(),
{
    if fields.len() == 0 {
        None
    } else {
        match member(fields.drop_last(), name) {
            Some(v) => Some(v),
            None => if fields.last().0 == name {
                Some(fields.last().1)
            } else {
                None
            },
        }
    }
}

/// The member `name` of an object; any other value has no members.
pub open spec fn field(record: Json, name: Seq<char>) -> Option<Json> {
    match record {
        Json::Object(fields) => member(fields, name),
        _ => None,
    }
}

/// Once a prefix holds a member of that name, longer prefixes find the same one.
proof fn lemma_member_prefix(fields: Seq<(Seq<char>, Json)>, name: Seq<char>, k: int, j: int)
    requires
        0 <= k <= j <= fields.len(),
        member(fields.take(k), name) is Some,
    ensures
        member(fields.take(j), name) == member(fields.take(k), name),
    decreases j - k,
{
    if j > k {
        lemma_member_prefix(fields, name, k, j - 1);
        assert(fields.take(j).drop_last() =~= fields.take(j - 1));
    }
}

impl JsonValue {
    pub open spec fn model(&self) -> Json
        decreases self,
    {
        match self {
            JsonValue::Null => Json::Null,
            JsonValue::Bool(b) => Json::Bool(*b),
            JsonValue::Number(n) => Json::Number(n@),
            JsonValue::Str(s) => Json::Str(s@),
            JsonValue::Array(items) => Json::Array(
                Seq::new(
                    items.len() as nat,
                    |i: int|
                        if 0 <= i < items.len() {
                            items[i].model()
                        } else {
                            Json::Null
                        },
                ),
            ),
            JsonValue::Object(fields) => Json::Object(
                Seq::new(
                    fields.len() as nat,
                    |i: int|
                        if 0 <= i < fields.len() {
                            (fields[i].0@, fields[i].1.model())
                        } else {
                            (Seq::empty(), Json::Null)
                        },
                ),
            ),
        }
    }

    /// A copy of this value, member for member.
    pub fn copy_value(&self) -> (r: JsonValue)
        ensures
            r.model() == self.model(),
        decreases self,
    {
        match self {
            JsonValue::Null => JsonValue::Null,
            JsonValue::Bool(b) => JsonValue::Bool(*b),
            JsonValue::Number(n) => JsonValue::Number(n.clone()),
            JsonValue::Str(s) => JsonValue::Str(s.clone()),
            JsonValue::Array(items) => {
                let mut out: Vec<JsonValue> = Vec::new();
                let mut i: usize = 0;
                while i < items.len()
                    invariant
                        i <= items.len(),
                        out.len() == i,
                        *self == JsonValue::Array(*items),
                        forall|j: int| 0 <= j < i ==> (#[trigger] out[j]).model() == items[j].model(),
                    decreases items.len() - i,
                {
                    assert(decreases_to!(*self => self->Array_0));
                    assert(decreases_to!(*items => items[i as int]));
                    out.push(items[i].copy_value());
                    i = i + 1;
                }
                let r = JsonValue::Array(out);
                assert(r.model() =~= self.model()) by {
                    if let (Json::Array(a), Json::Array(b)) = (r.model(), self.model()) {
                        assert(a =~= b);
                    }
                }
                r
            },
            JsonValue::Object(fields) => {
                let mut out: Vec<(String, JsonValue)> = Vec::new();
                let mut i: usize = 0;
                while i < fields.len()
                    invariant
                        i <= fields.len(),
                        out.len() == i,
                        *self == JsonValue::Object(*fields),
                        forall|j: int|
                            0 <= j < i ==> #[trigger] out[j].0@ == fields[j].0@ && out[j].1.model()
                                == fields[j].1.model(),
                    decreases fields.len() - i,
                {
                    assert(decreases_to!(*self => self->Object_0));
                    assert(decreases_to!(*fields => fields[i as int]));
                    let v = fields[i].1.copy_value();
                    out.push((fields[i].0.clone(), v));
                    i = i + 1;
                }
                let r = JsonValue::Object(out);
                assert(r.model() =~= self.model()) by {
                    if let (Json::Object(a), Json::Object(b)) = (r.model(), self.model()) {
                        assert(a =~= b);
                    }
                }
                r
            },
        }
    }

    /// The first member named `name` of this value, when it is an object.
    pub fn get(&self, name: &String) -> (r: Option<&JsonValue>)
        ensures
            match r {
                Some(v) => field(self.model(), name@) == Some(v.model()),
                None => field(self.model(), name@) is None,
            },
    {
        match self {
            JsonValue::Object(fields) => {
                let ghost s = match self.model() {
                    Json::Object(f) => f,
                    _ => Seq::empty(),
                };
                assert(s.len() == fields.len());
                let mut i: usize = 0;
                while i < fields.len()
                    invariant
                        i <= fields.len(),
                        s.len() == fields.len(),
                        self.model() == Json::Object(s),
                        forall|j: int|
                            0 <= j < fields.len() ==> #[trigger] s[j] == (
                                fields[j].0@,
                                fields[j].1.model(),
                            ),
                        member(s.take(i as int), name@) is None,
                    decreases fields.len() - i,
                {
                    assert(s.take(i + 1).drop_last() =~= s.take(i as int));
                    if fields[i].0 == *name {
                        proof {
                            lemma_member_prefix(s, name@, i + 1, s.len() as int);
                            assert(s.take(s.len() as int) =~= s);
                        }
                        return Some(&fields[i].1);
                    }
                    i = i + 1;
                }
                assert(s.take(i as int) =~= s);
                None
            },
            _ => None,
        }
    }
}

} // verus!
