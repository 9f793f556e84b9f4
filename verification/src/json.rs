//! JSON values: the data, equality, lookup, and the passage to and from text.
use serde_json::Value;
use vstd::prelude::*;

use vstd::std_specs::cmp::PartialEqSpecImpl;

use crate::double;
use crate::text::str_eq;

verus! {

/// A JSON number as the parser tells numbers apart. A fractional number is held
/// by the bits of its IEEE 754 double.
#[derive(Clone, Copy, Debug)]
pub enum JsonNumber {
    /// A whole number from zero up.
    PosInt(u64),
    /// A whole number below zero.
    NegInt(i64),
    /// A number written with a fraction or an exponent.
    Float(u64),
}

/// A JSON value. An object keeps its members in the order they were added.
#[derive(Debug)]
pub enum Json {
    Null,
    Bool(bool),
    Number(JsonNumber),
    String(String),
    Array(Vec<Json>),
    Object(Vec<(String, Json)>),
}

/// What a JSON number is, mathematically: a whole number, or a double given by
/// its bits.
pub enum NumberView {
    Whole(int),
    Double(int),
}

impl View for JsonNumber {
    type V = NumberView;

    open spec fn view(&self) -> NumberView {
        match self {
            JsonNumber::PosInt(u) => NumberView::Whole(*u as int),
            JsonNumber::NegInt(i) => NumberView::Whole(*i as int),
            JsonNumber::Float(b) => NumberView::Double(*b as int),
        }
    }
}

/// What a JSON value is, mathematically.
pub enum JsonView {
    Null,
    Bool(bool),
    Number(NumberView),
    String(Seq<char>),
    Array(Seq<JsonView>),
    Object(Seq<MemberView>),
}

/// A member of an object.
pub struct MemberView {
    pub name: Seq<char>,
    pub value: JsonView,
}

/// The member with this name and value.
pub open spec fn member(name: Seq<char>, value: JsonView) -> MemberView {
    MemberView { name, value }
}

/// The members of an object.
pub open spec fn entries(s: Seq<(String, Json)>) -> Seq<MemberView> {
    Seq::new(s.len(), |i: int| member(s[i].0@, s[i].1@))
}

/// The items of an array.
pub open spec fn items(s: Seq<Json>) -> Seq<JsonView> {
    Seq::new(s.len(), |i: int| s[i]@)
}

impl View for Json {
    type V = JsonView;

    open spec fn view(&self) -> JsonView
        decreases self,
    {
        match self {
            Json::Null => JsonView::Null,
            Json::Bool(b) => JsonView::Bool(*b),
            Json::Number(n) => JsonView::Number(n@),
            Json::String(s) => JsonView::String(s@),
            Json::Array(v) => JsonView::Array(
                Seq::new(
                    v@.len(),
                    |i: int|
                        if 0 <= i < v@.len() {
                            v@[i].view()
                        } else {
                            JsonView::Null
                        },
                ),
            ),
            Json::Object(v) => JsonView::Object(
                Seq::new(
                    v@.len(),
                    |i: int|
                        if 0 <= i < v@.len() {
                            member(v@[i].0@, v@[i].1.view())
                        } else {
                            member(seq![], JsonView::Null)
                        },
                ),
            ),
        }
    }
}

/// The value that the last member named `k` has, if any is so named.
pub open spec fn lookup(o: Seq<MemberView>, k: Seq<char>) -> Option<JsonView>
    decreases o.len(),
{
    if o.len() == 0 {
        None
    } else if o.last().name == k {
        Some(o.last().value)
    } else {
        lookup(o.drop_last(), k)
    }
}

/// Looking up in an object to which a member was added.
pub proof fn lookup_push(o: Seq<MemberView>, k: Seq<char>, v: JsonView, q: Seq<char>)
    ensures
        lookup(o.push(member(k, v)), q) == if k == q {
            Some(v)
        } else {
            lookup(o, q)
        },
{
    assert(o.push(member(k, v)).drop_last() =~= o);
}

/// What a lookup finds is one of the members.
pub proof fn lookup_found(o: Seq<MemberView>, k: Seq<char>) -> (i: int)
    requires
        lookup(o, k) is Some,
    ensures
        0 <= i < o.len(),
        o[i].name == k,
        o[i].value == lookup(o, k)->0,
    decreases o.len(),
{
    if o.last().name == k {
        o.len() - 1
    } else {
        let i = lookup_found(o.drop_last(), k);
        i
    }
}

/// The members with the value of the last one named `k` replaced.
pub open spec fn replaced(o: Seq<MemberView>, k: Seq<char>, v: JsonView) -> Seq<MemberView>
    decreases o.len(),
{
    if o.len() == 0 {
        seq![]
    } else if o.last().name == k {
        o.drop_last().push(member(k, v))
    } else {
        replaced(o.drop_last(), k, v).push(o.last())
    }
}

/// The members with a value set: in its place where the name is there already, and
/// at the end where it is new.
pub open spec fn put_member(o: Seq<MemberView>, k: Seq<char>, v: JsonView) -> Seq<MemberView> {
    if lookup(o, k) is Some {
        replaced(o, k, v)
    } else {
        o.push(member(k, v))
    }
}

/// Looking up in members of which one was replaced.
proof fn lookup_replaced(o: Seq<MemberView>, k: Seq<char>, v: JsonView, q: Seq<char>)
    requires
        lookup(o, k) is Some,
    ensures
        lookup(replaced(o, k, v), q) == if k == q {
            Some(v)
        } else {
            lookup(o, q)
        },
    decreases o.len(),
{
    if o.last().name == k {
        lookup_push(o.drop_last(), k, v, q);
    } else {
        lookup_replaced(o.drop_last(), k, v, q);
        let t = replaced(o.drop_last(), k, v);
        assert(t.push(o.last()).drop_last() =~= t);
    }
}

/// A value that was set is found under its name, and nothing else changes.
pub proof fn lookup_put_member(o: Seq<MemberView>, k: Seq<char>, v: JsonView, q: Seq<char>)
    ensures
        lookup(put_member(o, k, v), q) == if k == q {
            Some(v)
        } else {
            lookup(o, q)
        },
{
    if lookup(o, k) is Some {
        lookup_replaced(o, k, v, q);
    } else {
        lookup_push(o, k, v, q);
    }
}

/// Members added one after another to an empty object.
pub open spec fn merged(o: Seq<MemberView>) -> Seq<MemberView>
    decreases o.len(),
{
    if o.len() == 0 {
        seq![]
    } else {
        put_member(merged(o.drop_last()), o.last().name, o.last().value)
    }
}

/// No two members have one name.
pub open spec fn distinct(o: Seq<MemberView>) -> bool {
    forall|i: int, j: int| 0 <= i < j < o.len() ==> o[i].name != o[j].name
}

/// Nothing is found under a name that no member has.
pub proof fn lookup_absent(o: Seq<MemberView>, k: Seq<char>)
    requires
        forall|i: int| 0 <= i < o.len() ==> (#[trigger] o[i]).name != k,
    ensures
        lookup(o, k) is None,
    decreases o.len(),
{
    if o.len() > 0 {
        lookup_absent(o.drop_last(), k);
    }
}

/// Members with distinct names are kept as they are.
pub proof fn merged_distinct(o: Seq<MemberView>)
    requires
        distinct(o),
    ensures
        merged(o) == o,
    decreases o.len(),
{
    if o.len() > 0 {
        merged_distinct(o.drop_last());
        lookup_absent(o.drop_last(), o.last().name);
        assert(o.drop_last().push(o.last()) =~= o);
    } else {
        assert(merged(o) =~= o);
    }
}

/// The number by which doubles are ordered: one double is below another exactly
/// if its key is, and both zeros have key zero.
pub open spec fn double_key(bits: int) -> int {
    if bits < 0x8000_0000_0000_0000 {
        bits
    } else {
        0x8000_0000_0000_0000 - bits
    }
}

/// The key of a double.
pub fn key_of_double(bits: u64) -> (r: i64)
    ensures
        r == double_key(bits as int),
{
    if bits < 0x8000_0000_0000_0000u64 {
        bits as i64
    } else {
        -((bits - 0x8000_0000_0000_0000u64) as i64)
    }
}

/// Whether the bits are those of a finite double.
pub open spec fn finite_double(bits: int) -> bool {
    -0x7ff0_0000_0000_0000 < double_key(bits) < 0x7ff0_0000_0000_0000
}

impl NumberView {
    /// A whole number and a double differ; doubles are compared by value.
    pub open spec fn same_number(self, other: NumberView) -> bool {
        match (self, other) {
            (NumberView::Whole(a), NumberView::Whole(b)) => a == b,
            (NumberView::Double(a), NumberView::Double(b)) => double_key(a) == double_key(b),
            _ => false,
        }
    }

    /// What a document holds for the number: a double that is not finite is
    /// written as null.
    pub open spec fn normal(self) -> JsonView {
        match self {
            NumberView::Double(b) => if finite_double(b) {
                JsonView::Number(self)
            } else {
                JsonView::Null
            },
            NumberView::Whole(_) => JsonView::Number(self),
        }
    }
}

/// Adding members one after another keeps what is found under each name.
proof fn lookup_merged(o: Seq<MemberView>, k: Seq<char>)
    ensures
        lookup(merged(o), k) == lookup(o, k),
    decreases o.len(),
{
    if o.len() > 0 {
        lookup_merged(o.drop_last(), k);
        lookup_put_member(merged(o.drop_last()), o.last().name, o.last().value, k);
    }
}

/// What is found among members in their normal form.
proof fn lookup_normal_members(o: Seq<MemberView>, k: Seq<char>)
    ensures
        lookup(normal_members(o), k) == match lookup(o, k) {
            Some(v) => Some(v.normal()),
            None => None,
        },
    decreases o.len(),
{
    if o.len() > 0 {
        lookup_normal_members(o.drop_last(), k);
        assert(normal_members(o).drop_last() =~= normal_members(o.drop_last()));
        assert(normal_members(o).last() == member(o.last().name, o.last().value.normal()));
    }
}

/// The members of the normal form are the normal forms of the members.
pub proof fn get_normal(j: JsonView, k: Seq<char>)
    ensures
        j.normal().get(k) == match j.get(k) {
            Some(v) => Some(v.normal()),
            None => None,
        },
        j is Object <==> j.normal() is Object,
{
    match j {
        JsonView::Object(o) => {
            lookup_normal_members(o, k);
            lookup_merged(normal_members(o), k);
        },
        _ => {},
    }
}

impl PartialEq for JsonNumber {
    fn eq(&self, other: &Self) -> (r: bool) {
        match (*self, *other) {
            (JsonNumber::PosInt(a), JsonNumber::PosInt(b)) => a == b,
            (JsonNumber::NegInt(a), JsonNumber::NegInt(b)) => a == b,
            (JsonNumber::PosInt(a), JsonNumber::NegInt(b)) => b >= 0 && a == b as u64,
            (JsonNumber::NegInt(a), JsonNumber::PosInt(b)) => a >= 0 && a as u64 == b,
            (JsonNumber::Float(a), JsonNumber::Float(b)) => key_of_double(a) == key_of_double(b),
            _ => false,
        }
    }
}

impl PartialEqSpecImpl for JsonNumber {
    open spec fn obeys_eq_spec() -> bool {
        true
    }

    open spec fn eq_spec(&self, other: &Self) -> bool {
        self@.same_number(other@)
    }
}

/// The members of an object, the value of each in its normal form.
pub open spec fn normal_members(o: Seq<MemberView>) -> Seq<MemberView>
    decreases o,
{
    Seq::new(
        o.len(),
        |i: int|
            if 0 <= i < o.len() {
                member(o[i].name, o[i].value.normal())
            } else {
                member(seq![], JsonView::Null)
            },
    )
}

impl JsonView {
    /// The member named `k`, of an object.
    pub open spec fn get(self, k: Seq<char>) -> Option<JsonView> {
        match self {
            JsonView::Object(o) => lookup(o, k),
            _ => None,
        }
    }

    /// The text, of a string.
    pub open spec fn text(self) -> Option<Seq<char>> {
        match self {
            JsonView::String(s) => Some(s),
            _ => None,
        }
    }

    /// The truth value, of a boolean.
    pub open spec fn truth(self) -> Option<bool> {
        match self {
            JsonView::Bool(b) => Some(b),
            _ => None,
        }
    }

    /// The whole number, where it fits in 64 bits with a sign.
    pub open spec fn whole(self) -> Option<int> {
        match self {
            JsonView::Number(NumberView::Whole(i)) => if i <= i64::MAX {
                Some(i)
            } else {
                None
            },
            _ => None,
        }
    }

    /// The whole number from zero up.
    pub open spec fn natural(self) -> Option<int> {
        match self {
            JsonView::Number(NumberView::Whole(i)) => if i >= 0 {
                Some(i)
            } else {
                None
            },
            _ => None,
        }
    }

    /// Equality of values: members of objects are compared by name, whatever
    /// their order.
    pub open spec fn same(self, other: JsonView) -> bool
        decreases self,
    {
        match (self, other) {
            (JsonView::Null, JsonView::Null) => true,
            (JsonView::Bool(a), JsonView::Bool(b)) => a == b,
            (JsonView::Number(a), JsonView::Number(b)) => a.same_number(b),
            (JsonView::String(a), JsonView::String(b)) => a == b,
            (JsonView::Array(a), JsonView::Array(b)) => a.len() == b.len() && forall|i: int|
                0 <= i < a.len() ==> (#[trigger] a[i]).same(b[i]),
            (JsonView::Object(a), JsonView::Object(b)) => a.len() == b.len() && forall|i: int|
                0 <= i < a.len() ==> match lookup(b, (#[trigger] a[i]).name) {
                    Some(v) => a[i].value.same(v),
                    None => false,
                },
            _ => false,
        }
    }

    /// The value as a document holds it: no name twice in an object, and each
    /// number in its normal form.
    pub open spec fn normal(self) -> JsonView
        decreases self,
    {
        match self {
            JsonView::Number(n) => n.normal(),
            JsonView::Array(a) => JsonView::Array(
                Seq::new(
                    a.len(),
                    |i: int|
                        if 0 <= i < a.len() {
                            a[i].normal()
                        } else {
                            JsonView::Null
                        },
                ),
            ),
            JsonView::Object(o) => JsonView::Object(merged(normal_members(o))),
            _ => self,
        }
    }

    /// No number in the value has a fraction or an exponent.
    pub open spec fn integral(self) -> bool
        decreases self,
    {
        match self {
            JsonView::Number(n) => n is Whole,
            JsonView::Array(a) => forall|i: int| 0 <= i < a.len() ==> (#[trigger] a[i]).integral(),
            JsonView::Object(o) => forall|i: int| 0 <= i < o.len() ==> (#[trigger] o[i]).value.integral(),
            _ => true,
        }
    }

    /// Arrays and objects are nested at most `d` deep.
    pub open spec fn within_depth(self, d: nat) -> bool
        decreases self,
    {
        match self {
            JsonView::Array(a) => d > 0 && forall|i: int|
                0 <= i < a.len() ==> (#[trigger] a[i]).within_depth((d - 1) as nat),
            JsonView::Object(o) => d > 0 && forall|i: int|
                0 <= i < o.len() ==> (#[trigger] o[i]).value.within_depth((d - 1) as nat),
            _ => true,
        }
    }

    /// The values whose text reads back as the value itself: whole numbers only,
    /// and nested no deeper than the parser follows.
    pub open spec fn readable(self) -> bool {
        self.integral() && self.within_depth(127)
    }
}

/// The member named `k`, searched from the last one.
pub fn find_member<'a>(o: &'a Vec<(String, Json)>, k: &str) -> (r: Option<&'a Json>)
    ensures
        match r {
            Some(v) => lookup(entries(o@), k@) == Some(v@),
            None => lookup(entries(o@), k@) is None,
        },
{
    let mut i: usize = o.len();
    let ghost all = entries(o@);
    assert(all.take(o.len() as int) =~= all);
    while i > 0
        invariant
            i <= o.len(),
            all == entries(o@),
            lookup(all, k@) == lookup(all.take(i as int), k@),
        decreases i,
    {
        let ghost t = all.take(i as int);
        assert(t.last() == all[i - 1]);
        assert(t.drop_last() =~= all.take(i - 1));
        if str_eq(o[i - 1].0.as_str(), k) {
            return Some(&o[i - 1].1);
        }
        i = i - 1;
    }
    assert(all.take(0).len() == 0);
    None
}

/// Sets the value of a member.
pub fn set_member(o: &mut Vec<(String, Json)>, k: &str, v: Json)
    ensures
        entries(final(o)@) == put_member(entries(old(o)@), k@, v@),
{
    let mut i: usize = o.len();
    let ghost all = entries(o@);
    assert(all.take(o.len() as int) =~= all);
    while i > 0
        invariant
            i <= o.len(),
            *o == *old(o),
            all == entries(o@),
            lookup(all, k@) == lookup(all.take(i as int), k@),
            replaced(all, k@, v@) == replaced(all.take(i as int), k@, v@) + all.skip(i as int),
        decreases i,
    {
        let ghost t = all.take(i as int);
        assert(t.last() == all[i - 1]);
        assert(t.drop_last() =~= all.take(i - 1));
        if str_eq(o[i - 1].0.as_str(), k) {
            let was = o.remove(i - 1);
            o.insert(i - 1, (was.0, v));
            assert(entries(o@) =~= all.take(i - 1).push(member(k@, v@)) + all.skip(i as int));
            return;
        }
        proof {
            let r = replaced(t.drop_last(), k@, v@);
            assert(r.push(t.last()) + all.skip(i as int) =~= r + all.skip(i - 1));
        }
        i = i - 1;
    }
    assert(all.take(0).len() == 0);
    o.push((k.to_owned(), v));
    assert(entries(o@) =~= all.push(member(k@, v@)));
}

impl Json {
    /// The view of an object is its members.
    pub proof fn object_view(o: Vec<(String, Json)>)
        ensures
            Json::Object(o)@ == JsonView::Object(entries(o@)),
    {
        assert(Json::Object(o)@->Object_0 =~= entries(o@));
    }

    /// The view of an array is its items.
    pub proof fn array_view(a: Vec<Json>)
        ensures
            Json::Array(a)@ == JsonView::Array(items(a@)),
    {
        assert(Json::Array(a)@->Array_0 =~= items(a@));
    }

    /// A string value.
    pub fn string(s: &str) -> (r: Json)
        ensures
            r@ == JsonView::String(s@),
    {
        Json::String(s.to_owned())
    }

    /// A whole number.
    pub fn integer(i: i64) -> (r: Json)
        ensures
            r@ == JsonView::Number(NumberView::Whole(i as int)),
    {
        if i < 0 {
            Json::Number(JsonNumber::NegInt(i))
        } else {
            Json::Number(JsonNumber::PosInt(i as u64))
        }
    }

    /// An object with the given members.
    pub fn object(o: Vec<(String, Json)>) -> (r: Json)
        ensures
            r@ == JsonView::Object(entries(o@)),
    {
        proof {
            Json::object_view(o);
        }
        Json::Object(o)
    }

    /// An object without members.
    pub fn empty_object() -> (r: Json)
        ensures
            r@ == JsonView::Object(seq![]),
    {
        let o: Vec<(String, Json)> = Vec::new();
        assert(entries(o@) =~= seq![]);
        Json::object(o)
    }

    /// The member named `k`, if this is an object that has it.
    pub fn get(&self, k: &str) -> (r: Option<&Json>)
        ensures
            match r {
                Some(v) => self@.get(k@) == Some(v@),
                None => self@.get(k@) is None,
            },
    {
        match self {
            Json::Object(o) => {
                proof {
                    Json::object_view(*o);
                }
                find_member(o, k)
            },
            _ => None,
        }
    }

    /// The text, if this is a string.
    pub fn as_str(&self) -> (r: Option<&str>)
        ensures
            match r {
                Some(s) => self@.text() == Some(s@),
                None => self@.text() is None,
            },
    {
        match self {
            Json::String(s) => Some(s.as_str()),
            _ => None,
        }
    }

    /// The truth value, if this is a boolean.
    pub fn as_bool(&self) -> (r: Option<bool>)
        ensures
            r == self@.truth(),
    {
        match self {
            Json::Bool(b) => Some(*b),
            _ => None,
        }
    }

    /// The whole number, if this is one that fits.
    pub fn as_i64(&self) -> (r: Option<i64>)
        ensures
            match r {
                Some(i) => self@.whole() == Some(i as int),
                None => self@.whole() is None,
            },
    {
        match self {
            Json::Number(JsonNumber::PosInt(u)) => if *u <= 0x7fff_ffff_ffff_ffffu64 {
                Some(*u as i64)
            } else {
                None
            },
            Json::Number(JsonNumber::NegInt(i)) => Some(*i),
            _ => None,
        }
    }

    /// The whole number from zero up, if this is one.
    pub fn as_u64(&self) -> (r: Option<u64>)
        ensures
            match r {
                Some(u) => self@.natural() == Some(u as int),
                None => self@.natural() is None,
            },
    {
        match self {
            Json::Number(JsonNumber::PosInt(u)) => Some(*u),
            Json::Number(JsonNumber::NegInt(i)) => if *i >= 0 {
                Some(*i as u64)
            } else {
                None
            },
            _ => None,
        }
    }

    /// Tells whether this is an object.
    pub fn is_object(&self) -> (r: bool)
        ensures
            r == (self@ is Object),
    {
        match self {
            Json::Object(_) => true,
            _ => false,
        }
    }

    /// Tells whether this is null.
    pub fn is_null(&self) -> (r: bool)
        ensures
            r == (self@ is Null),
    {
        match self {
            Json::Null => true,
            _ => false,
        }
    }

    /// A copy of the value.
    pub fn duplicate(&self) -> (r: Json)
        ensures
            r@ == self@,
        decreases self,
    {
        match self {
            Json::Null => Json::Null,
            Json::Bool(b) => Json::Bool(*b),
            Json::Number(n) => Json::Number(*n),
            Json::String(s) => Json::String(s.clone()),
            Json::Array(v) => {
                let out = duplicate_items(v);
                proof {
                    Json::array_view(*v);
                    Json::array_view(out);
                }
                Json::Array(out)
            },
            Json::Object(v) => {
                let out = duplicate_members(v);
                proof {
                    Json::object_view(*v);
                    Json::object_view(out);
                }
                Json::Object(out)
            },
        }
    }

    /// Tells whether two values are equal.
    pub fn same(&self, other: &Json) -> (r: bool)
        ensures
            r == self@.same(other@),
        decreases self,
    {
        match (self, other) {
            (Json::Null, Json::Null) => true,
            (Json::Bool(a), Json::Bool(b)) => *a == *b,
            (Json::Number(a), Json::Number(b)) => *a == *b,
            (Json::String(a), Json::String(b)) => str_eq(a.as_str(), b.as_str()),
            (Json::Array(a), Json::Array(b)) => {
                proof {
                    Json::array_view(*a);
                    Json::array_view(*b);
                }
                same_items(a, b)
            },
            (Json::Object(a), Json::Object(b)) => {
                proof {
                    Json::object_view(*a);
                    Json::object_view(*b);
                }
                same_members(a, b)
            },
            _ => false,
        }
    }
}

/// A copy of each item.
pub fn duplicate_items(v: &Vec<Json>) -> (out: Vec<Json>)
    ensures
        items(out@) == items(v@),
    decreases v,
{
    let mut out: Vec<Json> = Vec::new();
    let mut i: usize = 0;
    while i < v.len()
        invariant
            i <= v.len(),
            out.len() == i,
            forall|k: int| 0 <= k < i ==> (#[trigger] out@[k])@ == v@[k]@,
        decreases v.len() - i,
    {
        let x = v[i].duplicate();
        out.push(x);
        i = i + 1;
    }
    assert(items(out@) =~= items(v@));
    out
}

/// A copy of each member.
pub fn duplicate_members(v: &Vec<(String, Json)>) -> (out: Vec<(String, Json)>)
    ensures
        entries(out@) == entries(v@),
    decreases v,
{
    let mut out: Vec<(String, Json)> = Vec::new();
    let mut i: usize = 0;
    while i < v.len()
        invariant
            i <= v.len(),
            out.len() == i,
            forall|k: int|
                0 <= k < i ==> (#[trigger] out@[k]).0@ == v@[k].0@ && out@[k].1@ == v@[k].1@,
        decreases v.len() - i,
    {
        assert(decreases_to!(v => v[i as int]));
        assert(decreases_to!(v[i as int] => v[i as int].1));
        let x = v[i].1.duplicate();
        out.push((v[i].0.clone(), x));
        i = i + 1;
    }
    assert(entries(out@) =~= entries(v@));
    out
}

fn same_items(a: &Vec<Json>, b: &Vec<Json>) -> (r: bool)
    ensures
        r == (a.len() == b.len() && forall|i: int|
            0 <= i < a.len() ==> (#[trigger] items(a@)[i]).same(items(b@)[i])),
    decreases a,
{
    if a.len() != b.len() {
        return false;
    }
    let mut i: usize = 0;
    while i < a.len()
        invariant
            i <= a.len(),
            a.len() == b.len(),
            forall|k: int| 0 <= k < i ==> (#[trigger] items(a@)[k]).same(items(b@)[k]),
        decreases a.len() - i,
    {
        assert(items(a@)[i as int] == a@[i as int]@);
        if !a[i].same(&b[i]) {
            return false;
        }
        i = i + 1;
    }
    true
}

fn same_members(a: &Vec<(String, Json)>, b: &Vec<(String, Json)>) -> (r: bool)
    ensures
        r == (a.len() == b.len() && forall|i: int|
            0 <= i < a.len() ==> match lookup(entries(b@), (#[trigger] entries(a@)[i]).name) {
                Some(v) => entries(a@)[i].value.same(v),
                None => false,
            }),
    decreases a,
{
    if a.len() != b.len() {
        return false;
    }
    let mut i: usize = 0;
    while i < a.len()
        invariant
            i <= a.len(),
            a.len() == b.len(),
            forall|k: int|
                0 <= k < i ==> match lookup(entries(b@), (#[trigger] entries(a@)[k]).name) {
                    Some(v) => entries(a@)[k].value.same(v),
                    None => false,
                },
        decreases a.len() - i,
    {
        assert(entries(a@)[i as int] == member(a@[i as int].0@, a@[i as int].1@));
        assert(decreases_to!(a => a[i as int]));
        assert(decreases_to!(a[i as int] => a[i as int].1));
        match find_member(b, a[i].0.as_str()) {
            None => {
                return false;
            },
            Some(v) => {
                if !a[i].1.same(v) {
                    return false;
                }
            },
        }
        i = i + 1;
    }
    true
}

impl Clone for Json {
    fn clone(&self) -> (r: Self)
        ensures
            r@ == self@,
    {
        self.duplicate()
    }
}

impl PartialEq for Json {
    fn eq(&self, other: &Self) -> (r: bool) {
        self.same(other)
    }
}

impl PartialEqSpecImpl for Json {
    open spec fn obeys_eq_spec() -> bool {
        true
    }

    open spec fn eq_spec(&self, other: &Self) -> bool {
        self@.same(other@)
    }
}

/// A parsed document, as the parser hands it over.
#[verifier::external_type_specification]
#[verifier::external_body]
pub struct ExValue(serde_json::Value);

/// The value that a parsed document holds.
pub uninterp spec fn document(v: serde_json::Value) -> JsonView;

/// What parsing a text gives: its value, or what is wrong with it.
pub uninterp spec fn parsed(text: Seq<char>) -> Result<JsonView, Seq<char>>;

/// The text is one of this value.
pub open spec fn reads_as(text: Seq<char>, j: JsonView) -> bool {
    parsed(text) == Ok::<JsonView, Seq<char>>(j)
}

/// The text of a value, without any space between its parts.
pub uninterp spec fn compact_text(j: JsonView) -> Seq<char>;

/// The text of a double.
pub uninterp spec fn double_text(bits: int) -> Seq<char>;

/// One level of a parsed document.
pub enum DocumentPart<'a> {
    Null,
    Bool(bool),
    Number(JsonNumber),
    String(String),
    Array(Vec<&'a serde_json::Value>),
    Object(Vec<(String, &'a serde_json::Value)>),
}

/// One level of a document to be printed.
pub enum DocumentNode {
    Null,
    Bool(bool),
    Number(JsonNumber),
    String(String),
    Array(Vec<serde_json::Value>),
    Object(Vec<(String, serde_json::Value)>),
}

/// The items below one level of a parsed document.
pub open spec fn item_documents(s: Seq<&serde_json::Value>) -> Seq<JsonView> {
    Seq::new(s.len(), |i: int| document(*s[i]))
}

/// The members below one level of a parsed document.
pub open spec fn member_documents(s: Seq<(String, &serde_json::Value)>) -> Seq<MemberView> {
    Seq::new(s.len(), |i: int| member(s[i].0@, document(*s[i].1)))
}

/// The items of an array that is put together.
pub open spec fn built_items(s: Seq<serde_json::Value>) -> Seq<JsonView> {
    Seq::new(s.len(), |i: int| document(s[i]))
}

/// The members of an object that is put together.
pub open spec fn built_members(s: Seq<(String, serde_json::Value)>) -> Seq<MemberView> {
    Seq::new(s.len(), |i: int| member(s[i].0@, document(s[i].1)))
}

/// The level itself, over what lies below it.
pub open spec fn part_view(p: DocumentPart<'_>) -> JsonView {
    match p {
        DocumentPart::Null => JsonView::Null,
        DocumentPart::Bool(b) => JsonView::Bool(b),
        DocumentPart::Number(n) => JsonView::Number(n@),
        DocumentPart::String(s) => JsonView::String(s@),
        DocumentPart::Array(a) => JsonView::Array(item_documents(a@)),
        DocumentPart::Object(o) => JsonView::Object(member_documents(o@)),
    }
}

/// The document that a level and what lies below it make up.
pub open spec fn node_view(n: DocumentNode) -> JsonView {
    match n {
        DocumentNode::Null => JsonView::Null,
        DocumentNode::Bool(b) => JsonView::Bool(b),
        DocumentNode::Number(n) => n@.normal(),
        DocumentNode::String(s) => JsonView::String(s@),
        DocumentNode::Array(a) => JsonView::Array(built_items(a@)),
        DocumentNode::Object(o) => JsonView::Object(merged(built_members(o@))),
    }
}

/// `serde_json::from_str` into a `serde_json::Value`: the document is named by
/// `parsed`, and so is the text of the error.
#[verifier::external_body]
fn parse_document(text: &str) -> (r: Result<serde_json::Value, String>)
    ensures
        match r {
            Ok(v) => parsed(text@) == Ok::<JsonView, Seq<char>>(document(v)),
            Err(e) => parsed(text@) == Err::<JsonView, Seq<char>>(e@),
        },
{
    serde_json::from_str(text).map_err(|e: serde_json::Error| e.to_string())
}

/// The variants of `serde_json::Value`: one level of a document, with what lies
/// below it by reference. A number is told apart by `Number::as_u64`, `as_i64`
/// and `as_f64`.
#[verifier::external_body]
fn take_apart<'a>(v: &'a serde_json::Value) -> (r: DocumentPart<'a>)
    ensures
        part_view(r) == document(*v),
{
    match v {
        Value::Null => DocumentPart::Null,
        Value::Bool(b) => DocumentPart::Bool(*b),
        Value::Number(n) => DocumentPart::Number(match (n.as_u64(), n.as_i64()) {
            (Some(u), _) => JsonNumber::PosInt(u),
            (None, Some(i)) => JsonNumber::NegInt(i),
            (None, None) => JsonNumber::Float(n.as_f64().unwrap_or_default().to_bits()),
        }),
        Value::String(s) => DocumentPart::String(s.clone()),
        Value::Array(a) => DocumentPart::Array(a.iter().collect()),
        Value::Object(o) => DocumentPart::Object(
            o.iter().map(|(k, v)| (k.clone(), v)).collect(),
        ),
    }
}

/// `serde_json::Value` put together from one level: `Map` keeps the place of the
/// first and the value of the last of two members of one name, and
/// `Number::from_f64` has no number for a double that is not finite.
#[verifier::external_body]
fn put_together(n: DocumentNode) -> (r: serde_json::Value)
    ensures
        document(r) == node_view(n),
{
    match n {
        DocumentNode::Null => Value::Null,
        DocumentNode::Bool(b) => Value::Bool(b),
        DocumentNode::Number(JsonNumber::PosInt(u)) => Value::from(u),
        DocumentNode::Number(JsonNumber::NegInt(i)) => Value::from(i),
        DocumentNode::Number(JsonNumber::Float(b)) => Value::from(
            bytes::Buf::get_f64(&mut &b.to_be_bytes()[..]),
        ),
        DocumentNode::String(s) => Value::String(s),
        DocumentNode::Array(a) => Value::Array(a),
        DocumentNode::Object(o) => Value::Object(o.into_iter().collect()),
    }
}

/// `serde_json::Value::to_string`: the compact text. It is never empty, holds no
/// control character (they are escaped inside strings, and nothing stands between
/// the parts), and reads back as the same document as long as that holds whole
/// numbers only and is nested no deeper than the parser follows.
#[verifier::external_body]
fn print_document(v: &serde_json::Value) -> (r: String)
    ensures
        r@ == compact_text(document(*v)),
        r@.len() > 0,
        forall|i: int| 0 <= i < r@.len() ==> #[trigger] r@[i] >= ' ',
        document(*v).readable() ==> reads_as(r@, document(*v)),
{
    v.to_string()
}

/// `serde_json::Number::as_f64` of a whole number, which is Rust's conversion to a double:
/// the double nearest to it, and halfway between two the one whose last bit is zero.
#[verifier::external_body]
fn integer_to_double(i: i128) -> (r: u64)
    requires
        i64::MIN <= i <= u64::MAX,
    ensures
        r == double::nearest_double(i as int),
{
    serde_json::Number::from_i128(i).and_then(|n| n.as_f64()).unwrap_or_default().to_bits()
}

/// The double that `bytes::Buf::get_f64` reads from the bits, as `Display` writes
/// it.
#[verifier::external_body]
fn print_double(bits: u64) -> (r: String)
    ensures
        r@ == double_text(bits as int),
{
    bytes::Buf::get_f64(&mut &bits.to_be_bytes()[..]).to_string()
}

fn json_of_document(v: &serde_json::Value) -> (r: Json)
    ensures
        r@ == document(*v),
    decreases document(*v),
{
    match take_apart(v) {
        DocumentPart::Null => Json::Null,
        DocumentPart::Bool(b) => Json::Bool(b),
        DocumentPart::Number(n) => Json::Number(n),
        DocumentPart::String(s) => Json::String(s),
        DocumentPart::Array(a) => {
            let mut out: Vec<Json> = Vec::new();
            let mut i: usize = 0;
            while i < a.len()
                invariant
                    i <= a.len(),
                    document(*v) == JsonView::Array(item_documents(a@)),
                    out.len() == i,
                    forall|k: int| 0 <= k < i ==> (#[trigger] out@[k])@ == document(*a@[k]),
                decreases a.len() - i,
            {
                assert(item_documents(a@)[i as int] == document(*a@[i as int]));
                assert(decreases_to!(document(*v) => document(*v)->Array_0));
                assert(decreases_to!(document(*v)->Array_0 => document(*v)->Array_0[i as int]));
                let x = json_of_document(a[i]);
                out.push(x);
                i = i + 1;
            }
            proof {
                Json::array_view(out);
                assert(items(out@) =~= item_documents(a@));
            }
            Json::Array(out)
        },
        DocumentPart::Object(o) => {
            let mut out: Vec<(String, Json)> = Vec::new();
            let mut i: usize = 0;
            while i < o.len()
                invariant
                    i <= o.len(),
                    document(*v) == JsonView::Object(member_documents(o@)),
                    out.len() == i,
                    forall|k: int|
                        0 <= k < i ==> (#[trigger] out@[k]).0@ == o@[k].0@ && out@[k].1@
                            == document(*o@[k].1),
                decreases o.len() - i,
            {
                assert(member_documents(o@)[i as int] == member(
                    o@[i as int].0@,
                    document(*o@[i as int].1),
                ));
                assert(decreases_to!(document(*v) => document(*v)->Object_0));
                assert(decreases_to!(document(*v)->Object_0 => document(*v)->Object_0[i as int]));
                assert(decreases_to!(
                    document(*v)->Object_0[i as int] => document(*v)->Object_0[i as int].value
                ));
                let x = json_of_document(o[i].1);
                out.push((o[i].0.clone(), x));
                i = i + 1;
            }
            proof {
                Json::object_view(out);
                assert(entries(out@) =~= member_documents(o@));
            }
            Json::Object(out)
        },
    }
}

fn document_of_json(j: &Json) -> (r: serde_json::Value)
    ensures
        document(r) == j@.normal(),
    decreases j,
{
    match j {
        Json::Null => put_together(DocumentNode::Null),
        Json::Bool(b) => put_together(DocumentNode::Bool(*b)),
        Json::Number(n) => put_together(DocumentNode::Number(*n)),
        Json::String(s) => put_together(DocumentNode::String(s.clone())),
        Json::Array(a) => {
            let out = documents_of_items(a);
            proof {
                Json::array_view(*a);
                assert(built_items(out@) =~= j@.normal()->Array_0);
            }
            put_together(DocumentNode::Array(out))
        },
        Json::Object(o) => {
            let out = documents_of_members(o);
            proof {
                Json::object_view(*o);
                assert(normal_members(entries(o@)) =~= built_members(out@));
            }
            put_together(DocumentNode::Object(out))
        },
    }
}

fn documents_of_items(a: &Vec<Json>) -> (out: Vec<serde_json::Value>)
    ensures
        out.len() == a.len(),
        forall|k: int| 0 <= k < a.len() ==> document(#[trigger] out@[k]) == a@[k]@.normal(),
    decreases a,
{
    let mut out: Vec<serde_json::Value> = Vec::new();
    let mut i: usize = 0;
    while i < a.len()
        invariant
            i <= a.len(),
            out.len() == i,
            forall|k: int| 0 <= k < i ==> document(#[trigger] out@[k]) == a@[k]@.normal(),
        decreases a.len() - i,
    {
        let x = document_of_json(&a[i]);
        out.push(x);
        i = i + 1;
    }
    out
}

fn documents_of_members(o: &Vec<(String, Json)>) -> (out: Vec<(String, serde_json::Value)>)
    ensures
        out.len() == o.len(),
        forall|k: int|
            0 <= k < o.len() ==> (#[trigger] out@[k]).0@ == o@[k].0@ && document(out@[k].1)
                == o@[k].1@.normal(),
    decreases o,
{
    let mut out: Vec<(String, serde_json::Value)> = Vec::new();
    let mut i: usize = 0;
    while i < o.len()
        invariant
            i <= o.len(),
            out.len() == i,
            forall|k: int|
                0 <= k < i ==> (#[trigger] out@[k]).0@ == o@[k].0@ && document(out@[k].1)
                    == o@[k].1@.normal(),
        decreases o.len() - i,
    {
        assert(decreases_to!(o => o[i as int]));
        assert(decreases_to!(o[i as int] => o[i as int].1));
        let x = document_of_json(&o[i].1);
        out.push((o[i].0.clone(), x));
        i = i + 1;
    }
    out
}

impl Json {
    /// Reads a value from its text.
    pub fn parse(text: &str) -> (r: Result<Json, String>)
        ensures
            match r {
                Ok(j) => parsed(text@) == Ok::<JsonView, Seq<char>>(j@),
                Err(e) => parsed(text@) == Err::<JsonView, Seq<char>>(e@),
            },
    {
        match parse_document(text) {
            Ok(v) => Ok(json_of_document(&v)),
            Err(e) => Err(e),
        }
    }

    /// The compact text of the value: a single line that reads back as the value.
    pub fn to_text(&self) -> (r: String)
        ensures
            r@ == compact_text(self@.normal()),
            r@.len() > 0,
            forall|i: int| 0 <= i < r@.len() ==> #[trigger] r@[i] >= ' ',
            self@.normal().readable() ==> reads_as(r@, self@.normal()),
    {
        let v = document_of_json(self);
        print_document(&v)
    }
}

impl JsonNumber {
    /// The number as a double: a whole number becomes the double nearest to it.
    pub open spec fn double(n: NumberView) -> int {
        match n {
            NumberView::Whole(i) => double::nearest_double(i),
            NumberView::Double(b) => b,
        }
    }

    /// The bits of the number as a double.
    pub fn to_double(&self) -> (r: u64)
        ensures
            r == JsonNumber::double(self@),
    {
        match self {
            JsonNumber::PosInt(u) => integer_to_double(*u as i128),
            JsonNumber::NegInt(i) => integer_to_double(*i as i128),
            JsonNumber::Float(b) => *b,
        }
    }
}

/// The text of a double, given by its bits.
pub fn text_of_double(bits: u64) -> (r: String)
    ensures
        r@ == double_text(bits as int),
{
    print_double(bits)
}

} // verus!
