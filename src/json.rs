//! A language-agnostic tree of structured data, and its mathematical model.

use vstd::prelude::*;

verus! {

broadcast use vstd::std_specs::vec::axiom_vec_index_decreases;

/// A number as structured data. A float is held by its IEEE-754 bit pattern.
#[derive(Clone, Copy, Debug, PartialEq, Eq, Structural)]
pub enum JsonNumber {
    PosInt(u64),
    NegInt(i64),
    Float(u64),
}

/// A structured-data value: null, bool, number, string, array or object.
#[derive(Debug)]
pub enum JsonValue {
    Null,
    Bool(bool),
    Number(JsonNumber),
    String(String),
    Array(Vec<JsonValue>),
    Object(Vec<(String, JsonValue)>),
}

/// The mathematical model of a [`JsonValue`]: an integer is its value,
/// whichever variant holds it; a float is its bit pattern, with `-0.0` taken
/// as `0.0`; an object maps each key to its value, whatever the order of the
/// members, the last member with a key giving its value.
pub enum JsonData {
    Null,
    Bool(bool),
    Int(int),
    Float(u64),
    Str(Seq<char>),
    Array(Seq<JsonData>),
    Object(Map<Seq<char>, JsonData>),
}

/// The bit pattern of `-0.0`.
pub const NEGATIVE_ZERO_BITS: u64 = 0x8000_0000_0000_0000;

/// A float's bit pattern, with `-0.0` taken as `0.0`.
pub open spec fn float_bits(bits: u64) -> u64 {
    if bits == NEGATIVE_ZERO_BITS {
        0
    } else {
        bits
    }
}

/// The model of a number.
pub open spec fn number_view(n: JsonNumber) -> JsonData {
    match n {
        JsonNumber::PosInt(u) => JsonData::Int(u as int),
        JsonNumber::NegInt(i) => JsonData::Int(i as int),
        JsonNumber::Float(bits) => JsonData::Float(float_bits(bits)),
    }
}

/// The model of a value.
pub open spec fn json_view(v: JsonValue) -> JsonData
    decreases v,
{
    match v {
        JsonValue::Null => JsonData::Null,
        JsonValue::Bool(b) => JsonData::Bool(b),
        JsonValue::Number(n) => number_view(n),
        JsonValue::String(s) => JsonData::Str(s@),
        JsonValue::Array(items) => JsonData::Array(
            Seq::new(
                items.len() as nat,
                |i: int|
                    if 0 <= i < items.len() {
                        json_view(items[i])
                    } else {
                        JsonData::Null
                    },
            ),
        ),
        JsonValue::Object(members) => JsonData::Object(
            Map::new(
                |k: Seq<char>| last_key_index(keys_of(members@), k) >= 0,
                |k: Seq<char>|
                    {
                        let i = last_key_index(keys_of(members@), k);
                        if 0 <= i < members.len() {
                            json_view(members[i].1)
                        } else {
                            JsonData::Null
                        }
                    },
            ),
        ),
    }
}

/// The keys of a run of object members, in order.
pub open spec fn keys_of(ms: Seq<(String, JsonValue)>) -> Seq<Seq<char>> {
    Seq::new(ms.len(), |i: int| ms[i].0@)
}

/// The position of the last occurrence of `k` in `keys`, or -1.
pub open spec fn last_key_index(keys: Seq<Seq<char>>, k: Seq<char>) -> int
    decreases keys.len(),
{
    if keys.len() == 0 {
        -1
    } else if keys.last() == k {
        keys.len() - 1
    } else {
        last_key_index(keys.drop_last(), k)
    }
}

proof fn lemma_last_key_index(keys: Seq<Seq<char>>, k: Seq<char>)
    ensures
        -1 <= last_key_index(keys, k) < keys.len(),
        last_key_index(keys, k) >= 0 ==> keys[last_key_index(keys, k)] == k,
        forall|i: int|
            last_key_index(keys, k) < i < keys.len() ==> #[trigger] keys[i] != k,
    decreases keys.len(),
{
    if keys.len() > 0 {
        lemma_last_key_index(keys.drop_last(), k);
        assert forall|i: int| last_key_index(keys, k) < i < keys.len() implies #[trigger] keys[i] != k by {
            if i < keys.len() - 1 {
                assert(keys.drop_last()[i] == keys[i]);
            }
        }
    }
}

/// The position of the last member of `ms` with key `key`.
fn find_last(ms: &Vec<(String, JsonValue)>, key: &String) -> (r: Option<usize>)
    ensures
        match r {
            Some(x) => x == last_key_index(keys_of(ms@), key@),
            None => last_key_index(keys_of(ms@), key@) == -1,
        },
{
    let mut k = ms.len();
    assert(keys_of(ms@).subrange(0, k as int) =~= keys_of(ms@));
    while k > 0
        invariant
            0 <= k <= ms.len(),
            last_key_index(keys_of(ms@), key@) == last_key_index(
                keys_of(ms@).subrange(0, k as int),
                key@,
            ),
        decreases k,
    {
        assert(keys_of(ms@).subrange(0, k as int).drop_last() =~= keys_of(ms@).subrange(0, k - 1));
        if ms[k - 1].0 == *key {
            return Some(k - 1);
        }
        k -= 1;
    }
    None
}

impl View for JsonValue {
    type V = JsonData;

    open spec fn view(&self) -> JsonData {
        json_view(*self)
    }
}

/// Equality of two numbers by their models.
pub fn number_equals(a: JsonNumber, b: JsonNumber) -> (r: bool)
    ensures
        r == (number_view(a) == number_view(b)),
{
    match a {
        JsonNumber::PosInt(x) => match b {
            JsonNumber::PosInt(y) => x == y,
            JsonNumber::NegInt(y) => y >= 0 && x == y as u64,
            JsonNumber::Float(_) => false,
        },
        JsonNumber::NegInt(x) => match b {
            JsonNumber::PosInt(y) => x >= 0 && x as u64 == y,
            JsonNumber::NegInt(y) => x == y,
            JsonNumber::Float(_) => false,
        },
        JsonNumber::Float(x) => match b {
            JsonNumber::Float(y) => {
                let fx = if x == NEGATIVE_ZERO_BITS { 0 } else { x };
                let fy = if y == NEGATIVE_ZERO_BITS { 0 } else { y };
                fx == fy
            },
            _ => false,
        },
    }
}

impl JsonValue {
    /// Whether this value is null.
    pub fn is_null(&self) -> (r: bool)
        ensures
            r == (self@ == JsonData::Null),
    {
        match self {
            JsonValue::Null => true,
            _ => false,
        }
    }

    /// Structural equality over the whole tree.
    pub fn equals(&self, other: &JsonValue) -> (r: bool)
        ensures
            r == (self@ == other@),
        decreases self,
    {
        match self {
            JsonValue::Null => other.is_null(),
            JsonValue::Bool(a) => match other {
                JsonValue::Bool(b) => *a == *b,
                _ => false,
            },
            JsonValue::Number(a) => match other {
                JsonValue::Number(b) => number_equals(*a, *b),
                _ => false,
            },
            JsonValue::String(a) => match other {
                JsonValue::String(b) => *a == *b,
                _ => false,
            },
            JsonValue::Array(a) => match other {
                JsonValue::Array(b) => {
                    assert(self@ is Array);
                    assert(self@->Array_0.len() == a.len());
                    if a.len() != b.len() {
                        return false;
                    }
                    let mut i: usize = 0;
                    while i < a.len()
                        invariant
                            0 <= i <= a.len(),
                            a.len() == b.len(),
                            self == JsonValue::Array(*a),
                            other == JsonValue::Array(*b),
                            forall|k: int| 0 <= k < i ==> (#[trigger] a[k])@ == b[k]@,
                        decreases a.len() - i,
                    {
                        if !a[i].equals(&b[i]) {
                            assert(self@->Array_0[i as int] != other@->Array_0[i as int]);
                            return false;
                        }
                        i += 1;
                    }
                    assert(self@->Array_0 =~= other@->Array_0);
                    true
                },
                _ => false,
            },
            JsonValue::Object(a) => match other {
                JsonValue::Object(b) => {
                    let ghost ka = keys_of(a@);
                    let ghost kb = keys_of(b@);
                    // Each key of `a` is a key of `b` with an equal value.
                    let mut i: usize = 0;
                    while i < a.len()
                        invariant
                            0 <= i <= a.len(),
                            self == JsonValue::Object(*a),
                            other == JsonValue::Object(*b),
                            decreases_to!(*self => *a),
                            ka == keys_of(a@),
                            kb == keys_of(b@),
                            forall|x: int|
                                0 <= x < i && last_key_index(ka, #[trigger] ka[x]) == x ==> {
                                    let y = last_key_index(kb, ka[x]);
                                    0 <= y < b.len() && json_view(b[y].1) == json_view(a[x].1)
                                },
                        decreases a.len() - i,
                    {
                        let key = &a[i].0;
                        proof {
                            lemma_last_key_index(ka, ka[i as int]);
                            lemma_last_key_index(kb, ka[i as int]);
                        }
                        if find_last(a, key) == Some(i) {
                            match find_last(b, key) {
                                None => {
                                    assert(self@->Object_0.dom().contains(ka[i as int]));
                                    assert(!other@->Object_0.dom().contains(ka[i as int]));
                                    return false;
                                },
                                Some(y) => {
                                    if !a[i].1.equals(&b[y].1) {
                                        assert(self@->Object_0[ka[i as int]] != other@->Object_0[ka[i as int]]);
                                        return false;
                                    }
                                },
                            }
                        }
                        i += 1;
                    }
                    // Each key of `b` is a key of `a`.
                    let mut j: usize = 0;
                    while j < b.len()
                        invariant
                            0 <= j <= b.len(),
                            self == JsonValue::Object(*a),
                            other == JsonValue::Object(*b),
                            ka == keys_of(a@),
                            kb == keys_of(b@),
                            forall|x: int| 0 <= x < j ==> last_key_index(ka, #[trigger] kb[x]) >= 0,
                        decreases b.len() - j,
                    {
                        if find_last(a, &b[j].0).is_none() {
                            proof {
                                lemma_last_key_index(kb, kb[j as int]);
                            }
                            assert(other@->Object_0.dom().contains(kb[j as int]));
                            assert(!self@->Object_0.dom().contains(kb[j as int]));
                            return false;
                        }
                        j += 1;
                    }
                    proof {
                        assert forall|k: Seq<char>|
                            self@->Object_0.dom().contains(k) == other@->Object_0.dom().contains(k) by {
                            lemma_last_key_index(ka, k);
                            lemma_last_key_index(kb, k);
                            if self@->Object_0.dom().contains(k) {
                                let x = last_key_index(ka, k);
                                assert(ka[x] == k);
                            }
                            if other@->Object_0.dom().contains(k) {
                                let y = last_key_index(kb, k);
                                assert(kb[y] == k);
                            }
                        }
                        assert forall|k: Seq<char>| #[trigger] self@->Object_0.dom().contains(k)
                            implies self@->Object_0[k] == other@->Object_0[k] by {
                            lemma_last_key_index(ka, k);
                            let x = last_key_index(ka, k);
                            assert(ka[x] == k);
                        }
                        assert(self@->Object_0 =~= other@->Object_0);
                    }
                    true
                },
                _ => false,
            },
        }
    }

    /// A copy of the whole tree.
    pub fn duplicate(&self) -> (r: JsonValue)
        ensures
            r@ == self@,
        decreases self,
    {
        match self {
            JsonValue::Null => JsonValue::Null,
            JsonValue::Bool(b) => JsonValue::Bool(*b),
            JsonValue::Number(n) => JsonValue::Number(*n),
            JsonValue::String(s) => JsonValue::String(s.clone()),
            JsonValue::Array(items) => {
                let mut out: Vec<JsonValue> = Vec::new();
                let mut i: usize = 0;
                while i < items.len()
                    invariant
                        0 <= i <= items.len(),
                        self == JsonValue::Array(*items),
                        decreases_to!(*self => *items),
                        out.len() == i,
                        forall|k: int| 0 <= k < i ==> (#[trigger] out[k])@ == items[k]@,
                    decreases items.len() - i,
                {
                    let item = items[i].duplicate();
                    out.push(item);
                    i += 1;
                }
                let r = JsonValue::Array(out);
                assert(r@->Array_0 =~= self@->Array_0);
                r
            },
            JsonValue::Object(members) => {
                let mut out: Vec<(String, JsonValue)> = Vec::new();
                let mut i: usize = 0;
                while i < members.len()
                    invariant
                        0 <= i <= members.len(),
                        self == JsonValue::Object(*members),
                        decreases_to!(*self => *members),
                        out.len() == i,
                        forall|k: int|
                            0 <= k < i ==> (#[trigger] out[k]).0@ == members[k].0@ && out[k].1@
                                == members[k].1@,
                    decreases members.len() - i,
                {
                    let key = members[i].0.clone();
                    let value = members[i].1.duplicate();
                    out.push((key, value));
                    i += 1;
                }
                let ghost keys = keys_of(out@);
                assert(keys =~= keys_of(members@));
                let r = JsonValue::Object(out);
                assert forall|k: Seq<char>| #[trigger] r@->Object_0.dom().contains(k)
                    implies r@->Object_0[k] == self@->Object_0[k] by {
                    lemma_last_key_index(keys, k);
                }
                assert(r@->Object_0 =~= self@->Object_0);
                r
            },
        }
    }
}

} // verus!
