//! A JSON document, as the configuration file and the web services exchange them.
//!
//! `JsonValue` is the executable value; `JsonModel` is its mathematical view, with text as
//! character sequences. Numbers are kept as the decimal text that serde_json prints for
//! them, so that a document read and written back keeps its numbers unchanged.
use vstd::prelude::*;

use crate::text::{chars_of, digit_char, spec_decimal, str_eq, to_owned_string};

verus! {

/// The mathematical view of a JSON value.
pub enum JsonModel {
    Null,
    Bool(bool),
    Number(Seq<char>),
    Str(Seq<char>),
    Array(Seq<JsonModel>),
    Object(Seq<(Seq<char>, JsonModel)>),
}

/// A JSON value. An object keeps its members in order.
pub enum JsonValue {
    Null,
    Bool(bool),
    /// The number's decimal text, as serde_json prints it.
    Number(String),
    Str(String),
    Array(Vec<JsonValue>),
    Object(Vec<(String, JsonValue)>),
}

/// The view of an array's elements.
pub open spec fn elems_view(v: Seq<JsonValue>) -> Seq<JsonModel>
    decreases v,
{
    Seq::new(
        v.len(),
        |i: int|
            {
                if 0 <= i < v.len() {
                    json_view(v[i])
                } else {
                    JsonModel::Null
                }
            },
    )
}

/// The view of an object's members.
pub open spec fn members_view(v: Seq<(String, JsonValue)>) -> Seq<(Seq<char>, JsonModel)>
    decreases v,
{
    Seq::new(
        v.len(),
        |i: int|
            {
                if 0 <= i < v.len() {
                    (v[i].0@, json_view(v[i].1))
                } else {
                    (Seq::empty(), JsonModel::Null)
                }
            },
    )
}

/// The mathematical view of a JSON value.
pub open spec fn json_view(v: JsonValue) -> JsonModel
    decreases v,
{
    match v {
        JsonValue::Null => JsonModel::Null,
        JsonValue::Bool(b) => JsonModel::Bool(b),
        JsonValue::Number(t) => JsonModel::Number(t@),
        JsonValue::Str(s) => JsonModel::Str(s@),
        JsonValue::Array(a) => JsonModel::Array(elems_view(a@)),
        JsonValue::Object(m) => JsonModel::Object(members_view(m@)),
    }
}

impl View for JsonValue {
    type V = JsonModel;

    open spec fn view(&self) -> JsonModel {
        json_view(*self)
    }
}

/// The value of the first member named `key`.
pub open spec fn member_value(fs: Seq<(Seq<char>, JsonModel)>, key: Seq<char>) -> Option<JsonModel>
    decreases fs.len(),
{
    if fs.len() == 0 {
        None
    } else if fs[0].0 == key {
        Some(fs[0].1)
    } else {
        member_value(fs.drop_first(), key)
    }
}

/// The members with the value of `key` set to `v`: the first member of that name is
/// replaced in place, or a member is appended when there is none.
pub open spec fn members_set(fs: Seq<(Seq<char>, JsonModel)>, key: Seq<char>, v: JsonModel) -> Seq<
    (Seq<char>, JsonModel),
>
    decreases fs.len(),
{
    if fs.len() == 0 {
        seq![(key, v)]
    } else if fs[0].0 == key {
        seq![(key, v)] + fs.drop_first()
    } else {
        seq![fs[0]] + members_set(fs.drop_first(), key, v)
    }
}

/// The digits of a non-empty decimal numeral.
pub open spec fn all_digits(t: Seq<char>) -> bool {
    t.len() > 0 && forall|i: int| 0 <= i < t.len() ==> '0' <= #[trigger] t[i] <= '9'
}

/// The value of a decimal numeral.
pub open spec fn digits_value(t: Seq<char>) -> nat
    decreases t.len(),
{
    if t.len() == 0 {
        0
    } else {
        digits_value(t.drop_last()) * 10 + ((t.last() as nat) - ('0' as nat)) as nat
    }
}

/// The number's value when it is a non-negative integer that fits in a `u64`, as
/// `Value::as_u64` answers it.
pub open spec fn number_as_u64(t: Seq<char>) -> Option<u64> {
    if all_digits(t) && digits_value(t) <= u64::MAX {
        Some(digits_value(t) as u64)
    } else {
        None
    }
}

impl JsonModel {
    /// The member `key` of an object (`None` for a missing member or a non-object),
    /// as `Value::get` answers it.
    pub open spec fn get(self, key: Seq<char>) -> Option<JsonModel> {
        match self {
            JsonModel::Object(fs) => member_value(fs, key),
            _ => None,
        }
    }

    /// Whether `value[key] = ..` is defined on this value (objects and null).
    pub open spec fn is_object_or_null(self) -> bool {
        self is Object || self is Null
    }

    /// The value after `value[key] = v`: null becomes an object of that one member.
    pub open spec fn set(self, key: Seq<char>, v: JsonModel) -> JsonModel {
        match self {
            JsonModel::Object(fs) => JsonModel::Object(members_set(fs, key, v)),
            _ => JsonModel::Object(seq![(key, v)]),
        }
    }
}

/// The text of a string value.
pub open spec fn model_as_str(v: Option<JsonModel>) -> Option<Seq<char>> {
    match v {
        Some(JsonModel::Str(s)) => Some(s),
        _ => None,
    }
}

/// The value of a boolean.
pub open spec fn model_as_bool(v: Option<JsonModel>) -> Option<bool> {
    match v {
        Some(JsonModel::Bool(b)) => Some(b),
        _ => None,
    }
}

/// The elements of an array.
pub open spec fn model_as_array(v: Option<JsonModel>) -> Option<Seq<JsonModel>> {
    match v {
        Some(JsonModel::Array(a)) => Some(a),
        _ => None,
    }
}

/// The value of a number that is a `u64`.
pub open spec fn model_as_u64(v: Option<JsonModel>) -> Option<u64> {
    match v {
        Some(JsonModel::Number(t)) => number_as_u64(t),
        _ => None,
    }
}

// ---------------------------------------------------------------------------
// Lemmas on members
// ---------------------------------------------------------------------------

proof fn lemma_member_skip(fs: Seq<(Seq<char>, JsonModel)>, key: Seq<char>, i: int)
    requires
        0 <= i <= fs.len(),
        forall|j: int| 0 <= j < i ==> (#[trigger] fs[j]).0 != key,
    ensures
        member_value(fs, key) == member_value(fs.skip(i), key),
    decreases i,
{
    if i > 0 {
        lemma_member_skip(fs.drop_first(), key, i - 1);
        assert(fs.drop_first().skip(i - 1) =~= fs.skip(i));
    } else {
        assert(fs.skip(0) =~= fs);
    }
}

proof fn lemma_members_set_at(
    fs: Seq<(Seq<char>, JsonModel)>,
    key: Seq<char>,
    v: JsonModel,
    i: int,
)
    requires
        0 <= i < fs.len(),
        fs[i].0 == key,
        forall|j: int| 0 <= j < i ==> (#[trigger] fs[j]).0 != key,
    ensures
        members_set(fs, key, v) == fs.update(i, (key, v)),
    decreases i,
{
    if i > 0 {
        lemma_members_set_at(fs.drop_first(), key, v, i - 1);
        assert(seq![fs[0]] + fs.drop_first().update(i - 1, (key, v)) =~= fs.update(i, (key, v)));
    } else {
        assert(seq![(key, v)] + fs.drop_first() =~= fs.update(0, (key, v)));
    }
}

proof fn lemma_members_set_absent(fs: Seq<(Seq<char>, JsonModel)>, key: Seq<char>, v: JsonModel)
    requires
        forall|j: int| 0 <= j < fs.len() ==> (#[trigger] fs[j]).0 != key,
    ensures
        members_set(fs, key, v) == fs.push((key, v)),
    decreases fs.len(),
{
    if fs.len() > 0 {
        lemma_members_set_absent(fs.drop_first(), key, v);
        assert(seq![fs[0]] + fs.drop_first().push((key, v)) =~= fs.push((key, v)));
    }
}

/// Reading back a member just set gives the value set, and every other member is as it was.
pub proof fn lemma_members_set_get(
    fs: Seq<(Seq<char>, JsonModel)>,
    key: Seq<char>,
    v: JsonModel,
    other: Seq<char>,
)
    ensures
        member_value(members_set(fs, key, v), key) == Some(v),
        other != key ==> member_value(members_set(fs, key, v), other) == member_value(fs, other),
    decreases fs.len(),
{
    if fs.len() > 0 {
        lemma_members_set_get(fs.drop_first(), key, v, other);
        if fs[0].0 != key {
            let ms = seq![fs[0]] + members_set(fs.drop_first(), key, v);
            assert(ms[0] == fs[0]);
            assert(ms.drop_first() =~= members_set(fs.drop_first(), key, v));
        } else {
            let ms = seq![(key, v)] + fs.drop_first();
            assert(ms[0] == (key, v));
            assert(ms.drop_first() =~= fs.drop_first());
        }
    } else {
        let ms = seq![(key, v)];
        assert(ms[0] == (key, v));
        assert(ms.drop_first() =~= Seq::<(Seq<char>, JsonModel)>::empty());
        assert(member_value(Seq::<(Seq<char>, JsonModel)>::empty(), other) is None);
    }
}

/// Law: after `value[key] = v` on an object or null, `value.get(key)` is `v`, and every
/// other member reads as before.
pub proof fn law_set_then_get(m: JsonModel, key: Seq<char>, v: JsonModel, other: Seq<char>)
    requires
        m.is_object_or_null(),
    ensures
        m.set(key, v).get(key) == Some(v),
        other != key ==> m.set(key, v).get(other) == m.get(other),
        m.set(key, v) is Object,
{
    match m {
        JsonModel::Object(fs) => {
            lemma_members_set_get(fs, key, v, other);
        },
        _ => {
            lemma_members_set_get(Seq::empty(), key, v, other);
            assert(members_set(Seq::empty(), key, v) == seq![(key, v)]);
        },
    }
}

// ---------------------------------------------------------------------------
// Executable operations
// ---------------------------------------------------------------------------

proof fn lemma_members_view_index(m: Seq<(String, JsonValue)>, i: int)
    requires
        0 <= i < m.len(),
    ensures
        members_view(m)[i] == (m[i].0@, json_view(m[i].1)),
        members_view(m).len() == m.len(),
{
}

impl JsonValue {
    /// A string value.
    pub fn string(s: &str) -> (r: JsonValue)
        ensures
            r@ == JsonModel::Str(s@),
    {
        JsonValue::Str(to_owned_string(s))
    }

    /// The member `key` of an object, as `Value::get` answers it.
    pub fn get<'a>(&'a self, key: &str) -> (r: Option<&'a JsonValue>)
        ensures
            match r {
                Some(x) => self@.get(key@) == Some(x@),
                None => self@.get(key@) is None,
            },
    {
        match self {
            JsonValue::Object(m) => {
                let ghost fs = members_view(m@);
                match find_member(m, key) {
                    Some(i) => {
                        proof {
                            lemma_member_skip(fs, key@, i as int);
                            lemma_members_view_index(m@, i as int);
                            assert(fs.skip(i as int)[0] == fs[i as int]);
                        }
                        Some(&m[i].1)
                    },
                    None => {
                        proof {
                            lemma_member_skip(fs, key@, fs.len() as int);
                            assert(fs.skip(fs.len() as int).len() == 0);
                        }
                        None
                    },
                }
            },
            _ => None,
        }
    }

    /// The text of a string value, as `Value::as_str` answers it.
    pub fn as_str(&self) -> (r: Option<&String>)
        ensures
            match r {
                Some(s) => model_as_str(Some(self@)) == Some(s@),
                None => model_as_str(Some(self@)) is None,
            },
    {
        match self {
            JsonValue::Str(s) => Some(s),
            _ => None,
        }
    }

    /// The value of a boolean, as `Value::as_bool` answers it.
    pub fn as_bool(&self) -> (r: Option<bool>)
        ensures
            r == model_as_bool(Some(self@)),
    {
        match self {
            JsonValue::Bool(b) => Some(*b),
            _ => None,
        }
    }

    /// The elements of an array, as `Value::as_array` answers it.
    pub fn as_array(&self) -> (r: Option<&Vec<JsonValue>>)
        ensures
            match r {
                Some(a) => model_as_array(Some(self@)) == Some(elems_view(a@)),
                None => model_as_array(Some(self@)) is None,
            },
    {
        match self {
            JsonValue::Array(a) => Some(a),
            _ => None,
        }
    }

    /// The value of a number that is a non-negative integer fitting in a `u64`,
    /// as `Value::as_u64` answers it.
    pub fn as_u64(&self) -> (r: Option<u64>)
        ensures
            r == model_as_u64(Some(self@)),
    {
        match self {
            JsonValue::Number(t) => parse_u64(t.as_str()),
            _ => None,
        }
    }

    /// `value[key] = v`: on an object the member is replaced or appended; null becomes an
    /// object of that one member. (serde_json panics on any other value.)
    pub fn set_field(&mut self, key: &str, v: JsonValue)
        requires
            old(self)@.is_object_or_null(),
        ensures
            final(self)@ == old(self)@.set(key@, v@),
    {
        let ghost old_model = self@;
        let ghost vm = v@;
        let mut cur = JsonValue::Null;
        std::mem::swap(self, &mut cur);
        match cur {
            JsonValue::Object(mut m) => {
                let ghost fs = members_view(m@);
                assert(old_model == JsonModel::Object(fs));
                let found = find_member(&m, key);
                if let Some(i) = found {
                    proof {
                        lemma_members_view_index(m@, i as int);
                        lemma_members_set_at(fs, key@, vm, i as int);
                    }
                    let k = to_owned_string(key);
                    m.set(i, (k, v));
                    proof {
                        assert(members_view(m@) =~= fs.update(i as int, (key@, vm)));
                    }
                    *self = JsonValue::Object(m);
                } else {
                    proof {
                        lemma_members_set_absent(fs, key@, vm);
                    }
                    let k = to_owned_string(key);
                    m.push((k, v));
                    proof {
                        assert(members_view(m@) =~= fs.push((key@, vm)));
                    }
                    *self = JsonValue::Object(m);
                }
            },
            _ => {
                let mut m: Vec<(String, JsonValue)> = Vec::new();
                m.push((to_owned_string(key), v));
                proof {
                    assert(members_view(m@) =~= seq![(key@, vm)]);
                }
                *self = JsonValue::Object(m);
            },
        }
    }
}

/// Position of the first member named `key`.
fn find_member(m: &Vec<(String, JsonValue)>, key: &str) -> (r: Option<usize>)
    ensures
        match r {
            Some(i) => i < m@.len() && members_view(m@)[i as int].0 == key@ && forall|j: int|
                0 <= j < i ==> (#[trigger] members_view(m@)[j]).0 != key@,
            None => forall|j: int|
                0 <= j < m@.len() ==> (#[trigger] members_view(m@)[j]).0 != key@,
        },
{
    let ghost fs = members_view(m@);
    let mut i: usize = 0;
    while i < m.len()
        invariant
            i <= m.len(),
            fs == members_view(m@),
            forall|j: int| 0 <= j < i ==> (#[trigger] fs[j]).0 != key@,
        decreases m.len() - i,
    {
        proof {
            lemma_members_view_index(m@, i as int);
        }
        if str_eq(m[i].0.as_str(), key) {
            return Some(i);
        }
        i += 1;
    }
    None
}

/// Parses a decimal numeral into a `u64`; `None` when it is not one or does not fit.
pub fn parse_u64(t: &str) -> (r: Option<u64>)
    ensures
        r == number_as_u64(t@),
{
    let cs = chars_of(t);
    if cs.len() == 0 {
        return None;
    }
    let mut acc: u64 = 0;
    let mut i: usize = 0;
    while i < cs.len()
        invariant
            i <= cs.len(),
            cs@ == t@,
            cs@.len() > 0,
            forall|k: int| 0 <= k < i ==> '0' <= #[trigger] cs@[k] <= '9',
            acc as nat == digits_value(cs@.take(i as int)),
        decreases cs.len() - i,
    {
        let c = cs[i];
        if c < '0' || c > '9' {
            assert(!all_digits(t@));
            return None;
        }
        let d = (c as u32 - '0' as u32) as u64;
        assert(cs@.take(i + 1).drop_last() =~= cs@.take(i as int));
        match acc.checked_mul(10) {
            Some(a10) => match a10.checked_add(d) {
                Some(n) => {
                    acc = n;
                },
                None => {
                    proof {
                        assert(digits_value(cs@.take(i + 1)) == acc * 10 + d);
                        if all_digits(t@) {
                            lemma_digits_prefix_bound(cs@, (i + 1) as int);
                        }
                    }
                    return None;
                },
            },
            None => {
                proof {
                    assert(digits_value(cs@.take(i + 1)) == acc * 10 + d);
                    if all_digits(t@) {
                        lemma_digits_prefix_bound(cs@, (i + 1) as int);
                    }
                }
                return None;
            },
        }
        i += 1;
    }
    assert(cs@.take(cs.len() as int) =~= cs@);
    Some(acc)
}

proof fn lemma_digits_prefix_bound(t: Seq<char>, n: int)
    requires
        0 <= n <= t.len(),
        forall|k: int| 0 <= k < t.len() ==> '0' <= #[trigger] t[k] <= '9',
    ensures
        digits_value(t.take(n)) <= digits_value(t),
    decreases t.len() - n,
{
    if n < t.len() {
        lemma_digits_prefix_bound(t, n + 1);
        assert(t.take(n + 1).drop_last() =~= t.take(n));
    } else {
        assert(t.take(n) =~= t);
    }
}

proof fn lemma_decimal_digits(n: nat)
    ensures
        all_digits(spec_decimal(n)),
        digits_value(spec_decimal(n)) == n,
    decreases n,
{
    if n >= 10 {
        lemma_decimal_digits(n / 10);
        let d = spec_decimal(n / 10);
        let t = d.push(digit_char(n % 10));
        assert(t.drop_last() =~= d);
        assert((digit_char(n % 10) as nat) == ('0' as nat) + n % 10);
        assert(t.last() == digit_char(n % 10));
        assert(digits_value(t) == digits_value(d) * 10 + ((t.last() as nat) - ('0' as nat)) as nat);
        assert((n / 10) * 10 + n % 10 == n);
        assert(spec_decimal(n) == t);
        assert(digits_value(t) == n);
        assert forall|i: int| 0 <= i < t.len() implies '0' <= #[trigger] t[i] <= '9' by {
            if i < d.len() {
                assert(t[i] == d[i]);
            }
        }
    } else {
        let t = seq![digit_char(n)];
        assert(t.drop_last() =~= Seq::<char>::empty());
        assert((digit_char(n) as nat) == ('0' as nat) + n);
        assert(t.last() == digit_char(n));
        assert(digits_value(t.drop_last()) == 0);
        assert(spec_decimal(n) == t);
        assert(digits_value(t) == n);
    }
}

/// Law: a number written in decimal (as replies and the settings file carry it) reads
/// back as the same number.
pub proof fn law_decimal_reads_back(n: u64)
    ensures
        number_as_u64(spec_decimal(n as nat)) == Some(n),
{
    lemma_decimal_digits(n as nat);
}

} // verus!
