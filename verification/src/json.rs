//! The library's model of a parsed JSON document, and the defensive field
//! extractor every normalizer goes through: path navigation plus typed reads
//! with explicit defaults.

use vstd::prelude::*;

verus! {

use crate::strutil::str_eq;

/// A parsed JSON document. Numbers the logic can read (nonnegative integers
/// that fit 64 bits) keep their value; any other number is carried as
/// `NumOther` and reads as missing, exactly as `as_u64` treats it.
#[derive(Debug)]
pub enum JsonValue {
    Null,
    Bool(bool),
    UInt(u64),
    NumOther,
    Str(String),
    Arr(Vec<JsonValue>),
    Obj(Vec<(String, JsonValue)>),
}

#[verifier::external_type_specification]
#[verifier::external_body]
pub struct ExValue(serde_json::Value);

/// Relies on serde_json's `Value`: carries each variant over one-for-one
/// into the library's model, a number becoming its value exactly when
/// `Number::as_u64` has one.
#[verifier::external_body]
fn value_model(v: &serde_json::Value) -> JsonValue {
    match v {
        serde_json::Value::Null => JsonValue::Null,
        serde_json::Value::Bool(b) => JsonValue::Bool(*b),
        serde_json::Value::Number(n) => match n.as_u64() {
            Some(u) => JsonValue::UInt(u),
            None => JsonValue::NumOther,
        },
        serde_json::Value::String(s) => JsonValue::Str(s.clone()),
        serde_json::Value::Array(a) => JsonValue::Arr(a.iter().map(value_model).collect()),
        serde_json::Value::Object(m) => JsonValue::Obj(
            m.iter().map(|(k, x)| (k.clone(), value_model(x))).collect(),
        ),
    }
}

/// What serde_json's parser answers for a text, in the library's model: a
/// function of the characters alone, nothing when the text is not JSON.
pub uninterp spec fn parsed_json(text: Seq<char>) -> Option<JsonValue>;

/// Relies on `serde_json::from_str`: parses a JSON text into the library's
/// model, or nothing when the text is rejected.
#[verifier::external_body]
pub(crate) fn parse_json(s: &str) -> (r: Option<JsonValue>)
    ensures
        r == parsed_json(s@),
{
    match serde_json::from_str::<serde_json::Value>(s) {
        Ok(v) => Some(value_model(&v)),
        Err(_) => None,
    }
}

/// The member of an object's field list under a key, first match taken.
pub open spec fn spec_obj_get(fields: Seq<(String, JsonValue)>, key: Seq<char>) -> Option<
    JsonValue,
>
    decreases fields.len(),
{
    if fields.len() == 0 {
        None
    } else if fields[0].0@ == key {
        Some(fields[0].1)
    } else {
        spec_obj_get(fields.drop_first(), key)
    }
}

/// The member of a value under a key: nothing unless the value is an object
/// holding the key.
pub open spec fn spec_get(j: JsonValue, key: Seq<char>) -> Option<JsonValue> {
    match j {
        JsonValue::Obj(fields) => spec_obj_get(fields@, key),
        _ => None,
    }
}

/// The value at the end of a key path, walking objects member by member.
pub open spec fn spec_at(j: JsonValue, path: Seq<Seq<char>>) -> Option<JsonValue>
    decreases path.len(),
{
    if path.len() == 0 {
        Some(j)
    } else {
        match spec_get(j, path[0]) {
            Some(x) => spec_at(x, path.drop_first()),
            None => None,
        }
    }
}

/// A two-step path walk is the two member lookups in turn.
pub proof fn lemma_at2(j: JsonValue, k1: Seq<char>, k2: Seq<char>)
    ensures
        spec_at(j, seq![k1, k2]) == (match spec_get(j, k1) {
            Some(x) => spec_get(x, k2),
            None => None,
        }),
{
    let p = seq![k1, k2];
    assert(p[0] == k1);
    assert(p.len() == 2);
    assert(p.drop_first() =~= seq![k2]);
    assert(seq![k2][0] == k2);
    assert(seq![k2].len() == 1);
    assert(seq![k2].drop_first() =~= Seq::<Seq<char>>::empty());
    match spec_get(j, k1) {
        Some(x) => {
            assert(spec_at(j, p) == spec_at(x, p.drop_first()));
            assert(spec_at(x, seq![k2]) == (match spec_get(x, k2) {
                Some(y) => spec_at(y, seq![k2].drop_first()),
                None => None::<JsonValue>,
            }));
            match spec_get(x, k2) {
                Some(y) => {
                    assert(spec_at(y, Seq::<Seq<char>>::empty()) == Some(y));
                },
                None => {},
            }
        },
        None => {
            assert(spec_at(j, p) is None);
        },
    }
}

/// Walking a concatenated path is walking its two halves in turn.
pub proof fn lemma_at_concat(j: JsonValue, p1: Seq<Seq<char>>, p2: Seq<Seq<char>>)
    ensures
        spec_at(j, p1 + p2) == (match spec_at(j, p1) {
            Some(x) => spec_at(x, p2),
            None => None,
        }),
    decreases p1.len(),
{
    if p1.len() == 0 {
        assert(p1 + p2 =~= p2);
        assert(spec_at(j, p1) == Some(j));
    } else {
        assert((p1 + p2)[0] == p1[0]);
        assert((p1 + p2).len() > 0);
        assert((p1 + p2).drop_first() =~= p1.drop_first() + p2);
        match spec_get(j, p1[0]) {
            Some(x) => {
                lemma_at_concat(x, p1.drop_first(), p2);
            },
            None => {},
        }
    }
}

/// The unsigned integer at a path, if the value there is one.
pub open spec fn spec_u64_at(j: JsonValue, path: Seq<Seq<char>>) -> Option<u64> {
    match spec_at(j, path) {
        Some(JsonValue::UInt(u)) => Some(u),
        _ => None,
    }
}

/// The unsigned integer at a path, truncated to 32 bits as a plain `as u32`
/// cast would.
pub open spec fn spec_u32_at(j: JsonValue, path: Seq<Seq<char>>) -> Option<u32> {
    match spec_u64_at(j, path) {
        Some(u) => Some(u as u32),
        None => None,
    }
}

/// The string at a path, if the value there is one.
pub open spec fn spec_str_at(j: JsonValue, path: Seq<Seq<char>>) -> Option<Seq<char>> {
    match spec_at(j, path) {
        Some(JsonValue::Str(s)) => Some(s@),
        _ => None,
    }
}

/// The boolean at a path, if the value there is one.
pub open spec fn spec_bool_at(j: JsonValue, path: Seq<Seq<char>>) -> Option<bool> {
    match spec_at(j, path) {
        Some(JsonValue::Bool(b)) => Some(b),
        _ => None,
    }
}

/// The array at a path, if the value there is one.
pub open spec fn spec_arr_at(j: JsonValue, path: Seq<Seq<char>>) -> Option<Seq<JsonValue>> {
    match spec_at(j, path) {
        Some(JsonValue::Arr(v)) => Some(v@),
        _ => None,
    }
}

/// The string at a path, or the given default where there is none.
pub open spec fn spec_str_or(j: JsonValue, path: Seq<Seq<char>>, default: Seq<char>) -> Seq<
    char,
> {
    match spec_str_at(j, path) {
        Some(s) => s,
        None => default,
    }
}

/// The 32-bit integer at a path, or the given default where there is none.
pub open spec fn spec_u32_or(j: JsonValue, path: Seq<Seq<char>>, default: u32) -> u32 {
    match spec_u32_at(j, path) {
        Some(v) => v,
        None => default,
    }
}

impl JsonValue {
    /// Looks a key up in this value, if it is an object holding the key.
    pub fn get<'a>(&'a self, key: &str) -> (r: Option<&'a JsonValue>)
        ensures
            r matches Some(v) ==> spec_get(*self, key@) == Some(*v),
            r is None ==> spec_get(*self, key@) is None,
    {
        match self {
            JsonValue::Obj(fields) => {
                let n = fields.len();
                let mut i: usize = 0;
                proof {
                    assert(fields@.skip(0) =~= fields@);
                }
                while i < n
                    invariant
                        n == fields@.len(),
                        i <= n,
                        *self == JsonValue::Obj(*fields),
                        spec_obj_get(fields@, key@) == spec_obj_get(fields@.skip(i as int), key@),
                    decreases n - i,
                {
                    let entry = &fields[i];
                    if str_eq(entry.0.as_str(), key) {
                        proof {
                            let rest = fields@.skip(i as int);
                            assert(rest[0] == fields@[i as int]);
                            assert(rest.len() > 0);
                            assert(rest[0].0@ == key@);
                            assert(spec_obj_get(rest, key@) == Some(rest[0].1));
                            assert(spec_get(*self, key@) == Some(fields@[i as int].1));
                        }
                        return Some(&entry.1);
                    }
                    proof {
                        assert(fields@.skip(i as int).drop_first() =~= fields@.skip(i + 1));
                        assert(fields@.skip(i as int)[0] == fields@[i as int]);
                    }
                    i = i + 1;
                }
                proof {
                    assert(fields@.skip(n as int) =~= Seq::<(String, JsonValue)>::empty());
                }
                None
            },
            _ => None,
        }
    }

    /// Walks a key path down from this value.
    pub fn at<'a>(&'a self, path: &[&str]) -> (r: Option<&'a JsonValue>)
        ensures
            r matches Some(v) ==> spec_at(*self, path.deep_view()) == Some(*v),
            r is None ==> spec_at(*self, path.deep_view()) is None,
    {
        let n = path.len();
        let mut cur: &JsonValue = self;
        let mut i: usize = 0;
        proof {
            assert(path.deep_view().skip(0) =~= path.deep_view());
        }
        while i < n
            invariant
                n == path@.len(),
                i <= n,
                spec_at(*self, path.deep_view()) == spec_at(*cur, path.deep_view().skip(i as int)),
            decreases n - i,
        {
            let step = match cur.get(path[i]) {
                Some(v) => v,
                None => {
                    proof {
                        assert(path.deep_view().skip(i as int)[0] == path.deep_view()[i as int]);
                    }
                    return None;
                },
            };
            proof {
                assert(path.deep_view().skip(i as int)[0] == path.deep_view()[i as int]);
                assert(path.deep_view().skip(i as int).drop_first() =~= path.deep_view().skip(
                    i + 1,
                ));
            }
            cur = step;
            i = i + 1;
        }
        proof {
            assert(path.deep_view().skip(n as int) =~= Seq::<Seq<char>>::empty());
        }
        Some(cur)
    }

    /// The unsigned integer at a path, as `Value::as_u64` would read it.
    pub fn u64_at(&self, path: &[&str]) -> (r: Option<u64>)
        ensures
            r == spec_u64_at(*self, path.deep_view()),
    {
        match self.at(path) {
            Some(JsonValue::UInt(u)) => Some(*u),
            _ => None,
        }
    }

    /// The integer at a path, truncated to 32 bits.
    pub fn u32_at(&self, path: &[&str]) -> (r: Option<u32>)
        ensures
            r == spec_u32_at(*self, path.deep_view()),
    {
        match self.u64_at(path) {
            Some(u) => Some(#[verifier::truncate] (u as u32)),
            None => None,
        }
    }

    /// The integer at a path, or a default where none is readable.
    pub fn u32_or(&self, path: &[&str], default: u32) -> (r: u32)
        ensures
            r == spec_u32_or(*self, path.deep_view(), default),
    {
        match self.u32_at(path) {
            Some(v) => v,
            None => default,
        }
    }

    /// The string at a path, cloned out of the document.
    pub fn str_at(&self, path: &[&str]) -> (r: Option<String>)
        ensures
            r matches Some(s) ==> spec_str_at(*self, path.deep_view()) == Some(s@),
            r is None ==> spec_str_at(*self, path.deep_view()) is None,
    {
        match self.at(path) {
            Some(JsonValue::Str(s)) => Some(s.clone()),
            _ => None,
        }
    }

    /// The string at a path, or a default where none is readable.
    pub fn str_or(&self, path: &[&str], default: &str) -> (r: String)
        ensures
            r@ == spec_str_or(*self, path.deep_view(), default@),
    {
        match self.str_at(path) {
            Some(s) => s,
            None => default.to_owned(),
        }
    }

    /// The boolean at a path.
    pub fn bool_at(&self, path: &[&str]) -> (r: Option<bool>)
        ensures
            r == spec_bool_at(*self, path.deep_view()),
    {
        match self.at(path) {
            Some(JsonValue::Bool(b)) => Some(*b),
            _ => None,
        }
    }

    /// The array at a path.
    pub fn arr_at<'a>(&'a self, path: &[&str]) -> (r: Option<&'a Vec<JsonValue>>)
        ensures
            r matches Some(v) ==> spec_arr_at(*self, path.deep_view()) == Some(v@),
            r is None ==> spec_arr_at(*self, path.deep_view()) is None,
    {
        match self.at(path) {
            Some(JsonValue::Arr(v)) => Some(v),
            _ => None,
        }
    }
}


/// The unsigned integer a value itself holds, if it is one.
pub open spec fn spec_as_u64(j: JsonValue) -> Option<u64> {
    match j {
        JsonValue::UInt(u) => Some(u),
        _ => None,
    }
}

/// The element of an array at an index, nothing for other values or an
/// index past the end.
pub open spec fn spec_idx(j: JsonValue, i: int) -> Option<JsonValue> {
    match j {
        JsonValue::Arr(v) => if 0 <= i < v@.len() {
            Some(v@[i])
        } else {
            None
        },
        _ => None,
    }
}

/// The first element of the array under a key, as a `get(key)` then
/// `get(0)` chain reads it.
pub open spec fn spec_first_under(j: JsonValue, key: Seq<char>) -> Option<JsonValue> {
    match spec_get(j, key) {
        Some(a) => spec_idx(a, 0),
        None => None,
    }
}

impl JsonValue {
    /// The element at an index, if this value is a long enough array.
    pub fn idx<'a>(&'a self, i: usize) -> (r: Option<&'a JsonValue>)
        ensures
            r matches Some(v) ==> spec_idx(*self, i as int) == Some(*v),
            r is None ==> spec_idx(*self, i as int) is None,
    {
        match self {
            JsonValue::Arr(v) => if i < v.len() {
                Some(&v[i])
            } else {
                None
            },
            _ => None,
        }
    }

    /// Reads this value as an unsigned integer, as `Value::as_u64` would.
    pub fn as_u64(&self) -> (r: Option<u64>)
        ensures
            r == spec_as_u64(*self),
    {
        match self {
            JsonValue::UInt(u) => Some(*u),
            _ => None,
        }
    }

    pub fn u32_key1(&self, k1: &str) -> (r: Option<u32>)
        ensures
            r == spec_u32_at(*self, seq![k1@]),
    {
        let path: &[&str] = &[k1];
        proof {
            assert(path.deep_view() =~= seq![k1@]);
        }
        self.u32_at(path)
    }

    pub fn u32_def1(&self, k1: &str, default: u32) -> (r: u32)
        ensures
            r == spec_u32_or(*self, seq![k1@], default),
    {
        let path: &[&str] = &[k1];
        proof {
            assert(path.deep_view() =~= seq![k1@]);
        }
        self.u32_or(path, default)
    }

    pub fn str_key1(&self, k1: &str) -> (r: Option<String>)
        ensures
            r matches Some(s) ==> spec_str_at(*self, seq![k1@]) == Some(s@),
            r is None ==> spec_str_at(*self, seq![k1@]) is None,
    {
        let path: &[&str] = &[k1];
        proof {
            assert(path.deep_view() =~= seq![k1@]);
        }
        self.str_at(path)
    }

    pub fn str_def1(&self, k1: &str, default: &str) -> (r: String)
        ensures
            r@ == spec_str_or(*self, seq![k1@], default@),
    {
        let path: &[&str] = &[k1];
        proof {
            assert(path.deep_view() =~= seq![k1@]);
        }
        self.str_or(path, default)
    }

    pub fn bool_key1(&self, k1: &str) -> (r: Option<bool>)
        ensures
            r == spec_bool_at(*self, seq![k1@]),
    {
        let path: &[&str] = &[k1];
        proof {
            assert(path.deep_view() =~= seq![k1@]);
        }
        self.bool_at(path)
    }

    pub fn u32_key2(&self, k1: &str, k2: &str) -> (r: Option<u32>)
        ensures
            r == spec_u32_at(*self, seq![k1@, k2@]),
    {
        let path: &[&str] = &[k1, k2];
        proof {
            assert(path.deep_view() =~= seq![k1@, k2@]);
        }
        self.u32_at(path)
    }

    pub fn u32_def2(&self, k1: &str, k2: &str, default: u32) -> (r: u32)
        ensures
            r == spec_u32_or(*self, seq![k1@, k2@], default),
    {
        let path: &[&str] = &[k1, k2];
        proof {
            assert(path.deep_view() =~= seq![k1@, k2@]);
        }
        self.u32_or(path, default)
    }

    pub fn str_key2(&self, k1: &str, k2: &str) -> (r: Option<String>)
        ensures
            r matches Some(s) ==> spec_str_at(*self, seq![k1@, k2@]) == Some(s@),
            r is None ==> spec_str_at(*self, seq![k1@, k2@]) is None,
    {
        let path: &[&str] = &[k1, k2];
        proof {
            assert(path.deep_view() =~= seq![k1@, k2@]);
        }
        self.str_at(path)
    }

    pub fn str_def2(&self, k1: &str, k2: &str, default: &str) -> (r: String)
        ensures
            r@ == spec_str_or(*self, seq![k1@, k2@], default@),
    {
        let path: &[&str] = &[k1, k2];
        proof {
            assert(path.deep_view() =~= seq![k1@, k2@]);
        }
        self.str_or(path, default)
    }


    pub fn u32_key3(&self, k1: &str, k2: &str, k3: &str) -> (r: Option<u32>)
        ensures
            r == spec_u32_at(*self, seq![k1@, k2@, k3@]),
    {
        let path: &[&str] = &[k1, k2, k3];
        proof {
            assert(path.deep_view() =~= seq![k1@, k2@, k3@]);
        }
        self.u32_at(path)
    }

    pub fn u32_def3(&self, k1: &str, k2: &str, k3: &str, default: u32) -> (r: u32)
        ensures
            r == spec_u32_or(*self, seq![k1@, k2@, k3@], default),
    {
        let path: &[&str] = &[k1, k2, k3];
        proof {
            assert(path.deep_view() =~= seq![k1@, k2@, k3@]);
        }
        self.u32_or(path, default)
    }

    pub fn str_key3(&self, k1: &str, k2: &str, k3: &str) -> (r: Option<String>)
        ensures
            r matches Some(s) ==> spec_str_at(*self, seq![k1@, k2@, k3@]) == Some(s@),
            r is None ==> spec_str_at(*self, seq![k1@, k2@, k3@]) is None,
    {
        let path: &[&str] = &[k1, k2, k3];
        proof {
            assert(path.deep_view() =~= seq![k1@, k2@, k3@]);
        }
        self.str_at(path)
    }

    pub fn str_def3(&self, k1: &str, k2: &str, k3: &str, default: &str) -> (r: String)
        ensures
            r@ == spec_str_or(*self, seq![k1@, k2@, k3@], default@),
    {
        let path: &[&str] = &[k1, k2, k3];
        proof {
            assert(path.deep_view() =~= seq![k1@, k2@, k3@]);
        }
        self.str_or(path, default)
    }

    pub fn bool_key3(&self, k1: &str, k2: &str, k3: &str) -> (r: Option<bool>)
        ensures
            r == spec_bool_at(*self, seq![k1@, k2@, k3@]),
    {
        let path: &[&str] = &[k1, k2, k3];
        proof {
            assert(path.deep_view() =~= seq![k1@, k2@, k3@]);
        }
        self.bool_at(path)
    }


    pub fn u32_def4(&self, k1: &str, k2: &str, k3: &str, k4: &str, default: u32) -> (r: u32)
        ensures
            r == spec_u32_or(*self, seq![k1@, k2@, k3@, k4@], default),
    {
        let path: &[&str] = &[k1, k2, k3, k4];
        proof {
            assert(path.deep_view() =~= seq![k1@, k2@, k3@, k4@]);
        }
        self.u32_or(path, default)
    }

    pub fn str_key4(&self, k1: &str, k2: &str, k3: &str, k4: &str) -> (r: Option<String>)
        ensures
            r matches Some(s) ==> spec_str_at(*self, seq![k1@, k2@, k3@, k4@]) == Some(s@),
            r is None ==> spec_str_at(*self, seq![k1@, k2@, k3@, k4@]) is None,
    {
        let path: &[&str] = &[k1, k2, k3, k4];
        proof {
            assert(path.deep_view() =~= seq![k1@, k2@, k3@, k4@]);
        }
        self.str_at(path)
    }

    pub fn str_def4(&self, k1: &str, k2: &str, k3: &str, k4: &str, default: &str) -> (r: String)
        ensures
            r@ == spec_str_or(*self, seq![k1@, k2@, k3@, k4@], default@),
    {
        let path: &[&str] = &[k1, k2, k3, k4];
        proof {
            assert(path.deep_view() =~= seq![k1@, k2@, k3@, k4@]);
        }
        self.str_or(path, default)
    }


    pub fn arr_key1<'a>(&'a self, k1: &str) -> (r: Option<&'a Vec<JsonValue>>)
        ensures
            r matches Some(v) ==> spec_arr_at(*self, seq![k1@]) == Some(v@),
            r is None ==> spec_arr_at(*self, seq![k1@]) is None,
    {
        let path: &[&str] = &[k1];
        proof {
            assert(path.deep_view() =~= seq![k1@]);
        }
        self.arr_at(path)
    }


    pub fn key2<'a>(&'a self, k1: &str, k2: &str) -> (r: Option<&'a JsonValue>)
        ensures
            r matches Some(v) ==> spec_at(*self, seq![k1@, k2@]) == Some(*v),
            r is None ==> spec_at(*self, seq![k1@, k2@]) is None,
    {
        let path: &[&str] = &[k1, k2];
        proof {
            assert(path.deep_view() =~= seq![k1@, k2@]);
        }
        self.at(path)
    }
}

} // verus!
