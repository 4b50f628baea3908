use vstd::prelude::*;

verus! {

/// A JSON number, kept in the three shapes a JSON reader produces:
/// non-negative integers, negative integers, and everything else as its
/// decimal text.
#[derive(Debug)]
pub enum JsonNumber {
    PosInt(u64),
    NegInt(i64),
    Float(String),
}

/// A JSON value. Objects keep their members in order; a well-formed object
/// has no repeated key.
#[derive(Debug)]
pub enum JsonValue {
    Null,
    Bool(bool),
    Number(JsonNumber),
    String(String),
    Array(Vec<JsonValue>),
    Object(Vec<JsonMember>),
}

/// A member of a JSON object: a key and the value under it.
#[derive(Debug)]
pub struct JsonMember {
    pub key: String,
    pub value: JsonValue,
}

/// The value a member `key` of an object holds: the first member under that
/// key, if there is one.
pub open spec fn member_of(members: Seq<JsonMember>, key: Seq<char>) -> Option<JsonValue>
    decreases members.len(),
{
    if members.len() == 0 {
        None
    } else if members[0].key@ == key {
        Some(members[0].value)
    } else {
        member_of(members.drop_first(), key)
    }
}

/// Appending a member leaves every key that is already there as it was, and
/// gives a key that was missing the appended value.
pub proof fn lemma_member_of_push(members: Seq<JsonMember>, m: JsonMember, key: Seq<char>)
    ensures
        member_of(members.push(m), key) == (if member_of(members, key) is Some {
            member_of(members, key)
        } else if m.key@ == key {
            Some(m.value)
        } else {
            None
        }),
    decreases members.len(),
{
    if members.len() > 0 {
        assert(members.push(m)[0] == members[0]);
        assert(members.push(m).drop_first() =~= members.drop_first().push(m));
        lemma_member_of_push(members.drop_first(), m, key);
    } else {
        assert(members.push(m)[0] == m);
        assert(members.push(m).drop_first() =~= Seq::<JsonMember>::empty());
        assert(member_of(Seq::<JsonMember>::empty(), key) is None);
        assert(member_of(members, key) is None);
    }
}

/// Every member's key is one of `keys`.
pub open spec fn keys_within(members: Seq<JsonMember>, keys: Seq<Seq<char>>) -> bool {
    forall|i: int| 0 <= i < members.len() ==> keys.contains(#[trigger] members[i].key@)
}

/// Appending a member `m`, for every key: a key already present keeps its
/// value, a missing key gets `m`'s value where it is `m`'s key, and stays
/// missing otherwise. Where `m`'s key is one of `keys`, the members' keys
/// stay within `keys`.
pub proof fn lemma_push_member(members: Seq<JsonMember>, m: JsonMember, keys: Seq<Seq<char>>)
    ensures
        forall|key: Seq<char>|
            #[trigger] member_of(members.push(m), key) == (if member_of(members, key) is Some {
                member_of(members, key)
            } else if m.key@ == key {
                Some(m.value)
            } else {
                None
            }),
        keys_within(members, keys) && keys.contains(m.key@) ==> keys_within(members.push(m), keys),
{
    assert forall|key: Seq<char>|
        #[trigger] member_of(members.push(m), key) == (if member_of(members, key) is Some {
            member_of(members, key)
        } else if m.key@ == key {
            Some(m.value)
        } else {
            None
        }) by {
        lemma_member_of_push(members, m, key);
    }
    if keys_within(members, keys) && keys.contains(m.key@) {
        assert forall|i: int| 0 <= i < members.push(m).len() implies keys.contains(
            #[trigger] members.push(m)[i].key@,
        ) by {
            if i < members.len() {
                assert(members.push(m)[i] == members[i]);
            }
        }
    }
}

/// The member `key` of `v`, when `v` is an object.
pub open spec fn field_of(v: JsonValue, key: Seq<char>) -> Option<JsonValue> {
    match v {
        JsonValue::Object(members) => member_of(members@, key),
        _ => None,
    }
}

/// Two numbers are the same: the same integer, or the same decimal text.
pub open spec fn same_number(a: JsonNumber, b: JsonNumber) -> bool {
    match (a, b) {
        (JsonNumber::PosInt(x), JsonNumber::PosInt(y)) => x == y,
        (JsonNumber::NegInt(x), JsonNumber::NegInt(y)) => x == y,
        (JsonNumber::Float(x), JsonNumber::Float(y)) => x@ == y@,
        _ => false,
    }
}

/// Two values hold the same data: the same kind and scalar, and pairwise the
/// same items, or the same keys with the same values in the same order.
pub open spec fn same_json(a: JsonValue, b: JsonValue) -> bool
    decreases a,
{
    match (a, b) {
        (JsonValue::Null, JsonValue::Null) => true,
        (JsonValue::Bool(x), JsonValue::Bool(y)) => x == y,
        (JsonValue::Number(x), JsonValue::Number(y)) => same_number(x, y),
        (JsonValue::String(x), JsonValue::String(y)) => x@ == y@,
        (JsonValue::Array(x), JsonValue::Array(y)) => {
            &&& x@.len() == y@.len()
            &&& forall|i: int| #![trigger x@[i]] 0 <= i < x@.len() ==> same_json(x@[i], y@[i])
        },
        (JsonValue::Object(x), JsonValue::Object(y)) => {
            &&& x@.len() == y@.len()
            &&& forall|i: int|
                #![trigger x@[i]]
                0 <= i < x@.len() ==> x@[i].key@ == y@[i].key@ && same_json(x@[i].value, y@[i].value)
        },
        _ => false,
    }
}

/// Arrays whose items are pairwise the same hold the same data.
proof fn lemma_same_array(x: Vec<JsonValue>, y: Vec<JsonValue>)
    requires
        x@.len() == y@.len(),
        forall|i: int| #![trigger x@[i]] 0 <= i < x@.len() ==> same_json(x@[i], y@[i]),
    ensures
        same_json(JsonValue::Array(x), JsonValue::Array(y)),
{
}

/// Objects whose members pairwise have the same key and the same value hold
/// the same data.
proof fn lemma_same_object(x: Vec<JsonMember>, y: Vec<JsonMember>)
    requires
        x@.len() == y@.len(),
        forall|i: int|
            #![trigger x@[i]]
            0 <= i < x@.len() ==> x@[i].key@ == y@[i].key@ && same_json(x@[i].value, y@[i].value),
    ensures
        same_json(JsonValue::Object(x), JsonValue::Object(y)),
{
}

/// Two optional values are both missing, or both present with the same
/// data.
pub open spec fn same_opt_json(a: Option<JsonValue>, b: Option<JsonValue>) -> bool {
    match (a, b) {
        (None, None) => true,
        (Some(x), Some(y)) => same_json(x, y),
        _ => false,
    }
}

/// A value that may stand as a message id: null, a number or a string.
pub open spec fn is_scalar_id(v: JsonValue) -> bool {
    v is Null || v is Number || v is String
}

/// Whether two strings hold the same characters.
pub fn str_equal(a: &str, b: &str) -> (r: bool)
    ensures
        r == (a@ == b@),
{
    let n = a.unicode_len();
    if n != b.unicode_len() {
        return false;
    }
    let mut i: usize = 0;
    while i < n
        invariant
            n == a@.len(),
            n == b@.len(),
            0 <= i <= n,
            forall|j: int| 0 <= j < i ==> a@[j] == b@[j],
        decreases n - i,
    {
        if a.get_char(i) != b.get_char(i) {
            return false;
        }
        i = i + 1;
    }
    assert(a@ =~= b@);
    true
}

/// The keys of `keys` are pairwise different.
pub open spec fn distinct_keys(keys: Seq<&str>) -> bool {
    forall|i: int, j: int| 0 <= i < keys.len() && 0 <= j < keys.len() && i != j ==> keys[i]@ != keys[j]@
}

/// The position of `key` in `keys`, if it is there.
fn find_key(keys: &Vec<&str>, key: &str) -> (r: Option<usize>)
    ensures
        match r {
            Some(j) => j < keys@.len() && keys@[j as int]@ == key@,
            None => forall|j: int| 0 <= j < keys@.len() ==> keys@[j]@ != key@,
        },
{
    let mut j: usize = 0;
    while j < keys.len()
        invariant
            0 <= j <= keys@.len(),
            forall|i: int| 0 <= i < j ==> keys@[i]@ != key@,
        decreases keys@.len() - j,
    {
        if str_equal(keys[j], key) {
            return Some(j);
        }
        j = j + 1;
    }
    None
}

/// Splits the members of an object by key: the slot of each key receives
/// the value of that member, or `None` where the object lacks it.
pub fn take_fields(members: Vec<JsonMember>, keys: &Vec<&str>) -> (r: Vec<Option<JsonValue>>)
    requires
        distinct_keys(keys@),
    ensures
        r@.len() == keys@.len(),
        forall|i: int| 0 <= i < keys@.len() ==> r@[i] == member_of(members@, keys@[i]@),
{
    let mut slots: Vec<Option<JsonValue>> = Vec::new();
    let mut k: usize = 0;
    while k < keys.len()
        invariant
            0 <= k <= keys@.len(),
            slots@.len() == k,
            forall|i: int| 0 <= i < k ==> slots@[i] is None,
        decreases keys@.len() - k,
    {
        slots.push(None);
        k = k + 1;
    }
    let ghost all = members@;
    let mut rest = members;
    assert(all.skip(all.len() as int) =~= Seq::<JsonMember>::empty());
    assert(rest@ =~= all.take(rest@.len() as int));
    while rest.len() > 0
        invariant
            distinct_keys(keys@),
            rest@.len() <= all.len(),
            rest@ =~= all.take(rest@.len() as int),
            slots@.len() == keys@.len(),
            forall|i: int|
                0 <= i < keys@.len() ==> slots@[i] == member_of(all.skip(rest@.len() as int), keys@[i]@),
        decreases rest@.len(),
    {
        let ghost n = rest@.len() as int;
        let m = rest.pop().unwrap();
        assert(m == all[n - 1]);
        assert(all.skip(n - 1).drop_first() =~= all.skip(n));
        assert(all.skip(n - 1)[0] == all[n - 1]);
        assert(rest@ =~= all.take(n - 1));
        let found = find_key(keys, m.key.as_str());
        match found {
            Some(j) => {
                slots.set(j, Some(m.value));
            },
            None => {},
        }
    }
    assert(all.skip(0) =~= all);
    slots
}

impl JsonNumber {
    /// A copy of the number.
    pub fn copy(&self) -> (r: JsonNumber)
        ensures
            r == *self,
    {
        match self {
            JsonNumber::PosInt(u) => JsonNumber::PosInt(*u),
            JsonNumber::NegInt(i) => JsonNumber::NegInt(*i),
            JsonNumber::Float(s) => JsonNumber::Float(s.clone()),
        }
    }

    /// The number as an `i64`, where it is an integer in that range.
    pub fn as_i64(&self) -> (r: Option<i64>)
        ensures
            r == match *self {
                JsonNumber::PosInt(u) => if u <= i64::MAX { Some(u as i64) } else { None },
                JsonNumber::NegInt(i) => Some(i),
                JsonNumber::Float(_) => None,
            },
    {
        match self {
            JsonNumber::PosInt(u) => if *u <= i64::MAX as u64 {
                Some(*u as i64)
            } else {
                None
            },
            JsonNumber::NegInt(i) => Some(*i),
            JsonNumber::Float(_) => None,
        }
    }
}

impl Clone for JsonNumber {
    fn clone(&self) -> (r: JsonNumber)
        ensures
            r == *self,
            same_number(r, *self),
    {
        self.copy()
    }
}

impl Clone for JsonValue {
    /// A deep copy: it holds the same data. Its vectors are fresh, so only a
    /// copy of a value without nested values is known to be equal as well.
    fn clone(&self) -> (r: JsonValue)
        ensures
            same_json(r, *self),
            !(self is Array || self is Object) ==> r == *self,
        decreases self,
    {
        match self {
            JsonValue::Null => JsonValue::Null,
            JsonValue::Bool(b) => JsonValue::Bool(*b),
            JsonValue::Number(n) => JsonValue::Number(n.copy()),
            JsonValue::String(s) => JsonValue::String(s.clone()),
            JsonValue::Array(items) => {
                let mut out: Vec<JsonValue> = Vec::new();
                let mut i: usize = 0;
                while i < items.len()
                    invariant
                        0 <= i <= items@.len(),
                        *self == JsonValue::Array(*items),
                        out@.len() == i,
                        forall|j: int| #![trigger out@[j]] 0 <= j < i ==> same_json(out@[j], items@[j]),
                    decreases items@.len() - i,
                {
                    proof {
                        assert(decreases_to!(*self => self->Array_0));
                        assert(decreases_to!(*items => items[i as int]));
                    }
                    let c = items[i].clone();
                    out.push(c);
                    i = i + 1;
                }
                proof {
                    lemma_same_array(out, *items);
                }
                let r = JsonValue::Array(out);
                r
            },
            JsonValue::Object(members) => {
                let mut out: Vec<JsonMember> = Vec::new();
                let mut i: usize = 0;
                while i < members.len()
                    invariant
                        0 <= i <= members@.len(),
                        *self == JsonValue::Object(*members),
                        out@.len() == i,
                        forall|j: int|
                            #![trigger out@[j]]
                            0 <= j < i ==> out@[j].key@ == members@[j].key@ && same_json(
                                out@[j].value,
                                members@[j].value,
                            ),
                    decreases members@.len() - i,
                {
                    proof {
                        assert(decreases_to!(*self => self->Object_0));
                        assert(decreases_to!(*members => members[i as int]));
                        assert(decreases_to!(members[i as int] => members[i as int].value));
                    }
                    let c = JsonMember { key: members[i].key.clone(), value: members[i].value.clone() };
                    let ghost before = out@;
                    out.push(c);
                    assert forall|j: int| #![trigger out@[j]] 0 <= j < i + 1 implies out@[j].key@
                        == members@[j].key@ && same_json(out@[j].value, members@[j].value) by {
                        if j < i {
                            assert(out@[j] == before[j]);
                        }
                    }
                    i = i + 1;
                }
                proof {
                    lemma_same_object(out, *members);
                }
                let r = JsonValue::Object(out);
                r
            },
        }
    }
}

impl Clone for JsonMember {
    fn clone(&self) -> (r: JsonMember)
        ensures
            r.key == self.key,
            same_json(r.value, self.value),
    {
        JsonMember { key: self.key.clone(), value: self.value.clone() }
    }
}

impl JsonValue {
    /// A copy of a value that is null, a number or a string.
    pub fn copy_scalar(&self) -> (r: JsonValue)
        requires
            is_scalar_id(*self),
        ensures
            r == *self,
    {
        match self {
            JsonValue::Null => JsonValue::Null,
            JsonValue::Number(n) => JsonValue::Number(n.copy()),
            JsonValue::String(s) => JsonValue::String(s.clone()),
            _ => JsonValue::Null,
        }
    }

    /// Whether the value may stand as a message id.
    pub fn is_id(&self) -> (r: bool)
        ensures
            r == is_scalar_id(*self),
    {
        match self {
            JsonValue::Null => true,
            JsonValue::Number(_) => true,
            JsonValue::String(_) => true,
            _ => false,
        }
    }

    /// The member `key` of an object; `None` for a missing member or for a
    /// value that is not an object.
    pub fn get(&self, key: &str) -> (r: Option<&JsonValue>)
        ensures
            match r {
                Some(x) => field_of(*self, key@) == Some(*x),
                None => field_of(*self, key@) is None,
            },
    {
        match self {
            JsonValue::Object(members) => {
                let mut i: usize = 0;
                assert(members@.skip(0) =~= members@);
                while i < members.len()
                    invariant
                        0 <= i <= members.len(),
                        field_of(*self, key@) == member_of(members@.skip(i as int), key@),
                    decreases members.len() - i,
                {
                    assert(members@.skip(i as int).drop_first() =~= members@.skip(i + 1));
                    assert(members@.skip(i as int)[0] == members@[i as int]);
                    if str_equal(members[i].key.as_str(), key) {
                        assert(member_of(members@.skip(i as int), key@) == Some(members@[i as int].value));
                        return Some(&members[i].value);
                    }
                    i = i + 1;
                }
                None
            },
            _ => None,
        }
    }
}

} // verus!
