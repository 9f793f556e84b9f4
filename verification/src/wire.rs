//! Values that have a JSON form: how each is written, which JSON is accepted for
//! it, and what is kept of the JSON that is accepted.
use vstd::prelude::*;

use crate::json::{find_member, Json, JsonNumber, JsonView, MemberView, NumberView};
use crate::json;
use crate::text::str_eq;

verus! {

/// What is said of JSON that does not have the form asked for.
pub const MALFORMED: &'static str = "the value does not have the expected form";

/// JSON that does not have the form asked for.
#[derive(Clone, Copy, Debug, PartialEq, Eq, Structural)]
pub struct Malformed;

impl Malformed {
    /// The error in words.
    pub fn message(&self) -> (r: &'static str)
        ensures
            r@ == MALFORMED@,
    {
        MALFORMED
    }
}

/// A value with a JSON form.
///
/// `wire` is the form it is written in. `canon` says what is read: it is `None` for
/// JSON that is refused, and otherwise the form that the value read is written in.
pub trait Wire: Sized {
    /// The JSON form.
    spec fn wire(&self) -> JsonView;

    /// The form that is kept of `j`, or `None` where `j` is refused.
    spec fn canon(j: JsonView) -> Option<JsonView>;

    /// Whether the JSON form tells the value apart from every other.
    spec fn faithful(&self) -> bool;

    /// Writes the JSON form.
    fn to_json(&self) -> (r: Json)
        ensures
            r@ == self.wire(),
    ;

    /// Reads the value.
    fn from_json(j: &Json) -> (r: Result<Self, Malformed>)
        ensures
            match r {
                Ok(x) => Self::canon(j@) == Some(x.wire()),
                Err(_) => Self::canon(j@) is None,
            },
    ;

    /// A copy of the value.
    fn duplicate(&self) -> (r: Self)
        ensures
            r.wire() == self.wire(),
    ;

    /// What is written reads back as what was written.
    proof fn round_trip(&self)
        requires
            self.faithful(),
        ensures
            Self::canon(self.wire()) == Some(self.wire()),
    ;
}

/// An object without members, to which members are added.
pub open spec fn none() -> Seq<MemberView> {
    seq![]
}

/// The members `o` and one more.
pub open spec fn with(o: Seq<MemberView>, k: Seq<char>, v: JsonView) -> Seq<MemberView> {
    o.push(json::member(k, v))
}

/// The members `o` and, where there is a value, one more.
pub open spec fn with_opt(o: Seq<MemberView>, k: Seq<char>, v: Option<JsonView>) -> Seq<MemberView> {
    match v {
        Some(v) => with(o, k, v),
        None => o,
    }
}

/// The JSON form of a value that may be missing.
pub open spec fn opt<T: Wire>(x: Option<T>) -> Option<JsonView> {
    match x {
        Some(v) => Some(v.wire()),
        None => None,
    }
}

/// Whether a value that may be missing is faithful, and is not written as null,
/// which reads as missing.
pub open spec fn opt_faithful<T: Wire>(x: Option<T>) -> bool {
    match x {
        Some(v) => v.faithful() && !(v.wire() is Null),
        None => true,
    }
}

/// A record of `n` members is read from an object, or from an array that gives the
/// members by their place.
pub open spec fn record(j: JsonView, n: nat) -> bool {
    match j {
        JsonView::Object(_) => true,
        JsonView::Array(a) => a.len() <= n,
        _ => false,
    }
}

/// The member of a record that is named `k` and stands at place `i`.
pub open spec fn at(j: JsonView, k: Seq<char>, i: int) -> Option<JsonView> {
    match j {
        JsonView::Object(o) => json::lookup(o, k),
        JsonView::Array(a) => if 0 <= i < a.len() {
            Some(a[i])
        } else {
            None
        },
        _ => None,
    }
}

/// What is read of a member that must be there.
pub open spec fn get<T: Wire>(j: JsonView, k: Seq<char>, i: int) -> Option<JsonView> {
    match at(j, k, i) {
        Some(v) => T::canon(v),
        None => None,
    }
}

/// What is read of a member that may be missing, or null.
pub open spec fn get_opt<T: Wire>(j: JsonView, k: Seq<char>, i: int) -> Option<Option<JsonView>> {
    match at(j, k, i) {
        None => Some(None),
        Some(JsonView::Null) => Some(None),
        Some(v) => match T::canon(v) {
            Some(c) => Some(Some(c)),
            None => None,
        },
    }
}

/// What is read of a member that may be missing, and then has a default.
pub open spec fn get_or<T: Wire>(j: JsonView, k: Seq<char>, i: int, d: JsonView) -> Option<JsonView> {
    match at(j, k, i) {
        Some(v) => T::canon(v),
        None => Some(d),
    }
}

/// Looking up in a list to which a member was added.
pub broadcast proof fn lookup_with(o: Seq<MemberView>, k: Seq<char>, v: JsonView, q: Seq<char>)
    ensures
        #[trigger] json::lookup(with(o, k, v), q) == if k == q {
            Some(v)
        } else {
            json::lookup(o, q)
        },
{
    json::lookup_push(o, k, v, q);
}

/// Looking up in a list to which a member may have been added.
pub broadcast proof fn lookup_with_opt(
    o: Seq<MemberView>,
    k: Seq<char>,
    v: Option<JsonView>,
    q: Seq<char>,
)
    ensures
        #[trigger] json::lookup(with_opt(o, k, v), q) == match v {
            Some(x) => if k == q {
                Some(x)
            } else {
                json::lookup(o, q)
            },
            None => json::lookup(o, q),
        },
{
    match v {
        Some(x) => json::lookup_push(o, k, x, q),
        None => {},
    }
}

/// Nothing is found where there are no members.
pub broadcast proof fn lookup_none(q: Seq<char>)
    ensures
        #[trigger] json::lookup(none(), q) is None,
{
}

pub broadcast group group_lookup {
    lookup_with,
    lookup_with_opt,
    lookup_none,
}

/// Adds a member.
pub fn put<T: Wire>(o: &mut Vec<(String, Json)>, k: &str, v: &T)
    ensures
        json::entries(final(o)@) == with(json::entries(old(o)@), k@, v.wire()),
{
    let x = v.to_json();
    put_json(o, k, x);
}

/// Adds a member given as JSON.
pub fn put_json(o: &mut Vec<(String, Json)>, k: &str, v: Json)
    ensures
        json::entries(final(o)@) == with(json::entries(old(o)@), k@, v@),
{
    o.push((k.to_owned(), v));
    assert(json::entries(o@) =~= with(json::entries(old(o)@), k@, v@));
}

/// Adds a member where there is a value.
pub fn put_opt<T: Wire>(o: &mut Vec<(String, Json)>, k: &str, v: &Option<T>)
    ensures
        json::entries(final(o)@) == with_opt(json::entries(old(o)@), k@, opt(*v)),
{
    match v {
        Some(x) => put(o, k, x),
        None => {},
    }
}

/// No members yet.
pub fn start() -> (r: Vec<(String, Json)>)
    ensures
        json::entries(r@) == none(),
{
    let o: Vec<(String, Json)> = Vec::new();
    assert(json::entries(o@) =~= none());
    o
}

/// Tells whether a record of `n` members can be read.
pub fn is_record(j: &Json, n: usize) -> (r: bool)
    ensures
        r == record(j@, n as nat),
{
    match j {
        Json::Object(_) => true,
        Json::Array(a) => a.len() <= n,
        _ => false,
    }
}

/// The member of a record that is named `k` and stands at place `i`.
pub fn part<'a>(j: &'a Json, k: &str, i: usize) -> (r: Option<&'a Json>)
    ensures
        match r {
            Some(v) => at(j@, k@, i as int) == Some(v@),
            None => at(j@, k@, i as int) is None,
        },
{
    match j {
        Json::Object(o) => {
            proof {
                Json::object_view(*o);
            }
            find_member(o, k)
        },
        Json::Array(a) => {
            proof {
                Json::array_view(*a);
            }
            if i < a.len() {
                Some(&a[i])
            } else {
                None
            }
        },
        _ => None,
    }
}

/// Reads a member that must be there.
pub fn read<T: Wire>(j: &Json, k: &str, i: usize) -> (r: Result<T, Malformed>)
    ensures
        match r {
            Ok(x) => get::<T>(j@, k@, i as int) == Some(x.wire()),
            Err(_) => get::<T>(j@, k@, i as int) is None,
        },
{
    match part(j, k, i) {
        Some(v) => T::from_json(v),
        None => Err(Malformed),
    }
}

/// Reads a member that may be missing, or null.
pub fn read_opt<T: Wire>(j: &Json, k: &str, i: usize) -> (r: Result<Option<T>, Malformed>)
    ensures
        match r {
            Ok(x) => get_opt::<T>(j@, k@, i as int) == Some(opt(x)),
            Err(_) => get_opt::<T>(j@, k@, i as int) is None,
        },
{
    match part(j, k, i) {
        None => Ok(None),
        Some(v) => {
            if v.is_null() {
                return Ok(None);
            }
            match T::from_json(v) {
                Ok(x) => Ok(Some(x)),
                Err(e) => Err(e),
            }
        },
    }
}

/// Reads a member that may be missing, and then has a default.
pub fn read_or<T: Wire>(j: &Json, k: &str, i: usize, d: T) -> (r: Result<T, Malformed>)
    ensures
        match r {
            Ok(x) => get_or::<T>(j@, k@, i as int, d.wire()) == Some(x.wire()),
            Err(_) => get_or::<T>(j@, k@, i as int, d.wire()) is None,
        },
{
    match part(j, k, i) {
        Some(v) => T::from_json(v),
        None => Ok(d),
    }
}

/// A copy of a value that may be missing.
pub fn duplicate_opt<T: Wire>(x: &Option<T>) -> (r: Option<T>)
    ensures
        opt(r) == opt(*x),
{
    match x {
        Some(v) => Some(v.duplicate()),
        None => None,
    }
}

/// What is written of a value that may be missing reads back.
pub proof fn opt_round_trip<T: Wire>(x: Option<T>)
    requires
        opt_faithful(x),
    ensures
        match opt(x) {
            Some(v) => T::canon(v) == Some(v) && !(v is Null),
            None => true,
        },
{
    match x {
        Some(v) => v.round_trip(),
        None => {},
    }
}

impl Wire for String {
    open spec fn wire(&self) -> JsonView {
        JsonView::String(self@)
    }

    open spec fn canon(j: JsonView) -> Option<JsonView> {
        match j {
            JsonView::String(s) => Some(JsonView::String(s)),
            _ => None,
        }
    }

    open spec fn faithful(&self) -> bool {
        true
    }

    fn to_json(&self) -> (r: Json) {
        Json::String(self.clone())
    }

    fn from_json(j: &Json) -> (r: Result<Self, Malformed>) {
        match j {
            Json::String(s) => Ok(s.clone()),
            _ => Err(Malformed),
        }
    }

    fn duplicate(&self) -> (r: Self) {
        self.clone()
    }

    proof fn round_trip(&self) {
    }
}

impl Wire for bool {
    open spec fn wire(&self) -> JsonView {
        JsonView::Bool(*self)
    }

    open spec fn canon(j: JsonView) -> Option<JsonView> {
        match j {
            JsonView::Bool(b) => Some(JsonView::Bool(b)),
            _ => None,
        }
    }

    open spec fn faithful(&self) -> bool {
        true
    }

    fn to_json(&self) -> (r: Json) {
        Json::Bool(*self)
    }

    fn from_json(j: &Json) -> (r: Result<Self, Malformed>) {
        match j {
            Json::Bool(b) => Ok(*b),
            _ => Err(Malformed),
        }
    }

    fn duplicate(&self) -> (r: Self) {
        *self
    }

    proof fn round_trip(&self) {
    }
}

impl Wire for i64 {
    open spec fn wire(&self) -> JsonView {
        JsonView::Number(NumberView::Whole(*self as int))
    }

    open spec fn canon(j: JsonView) -> Option<JsonView> {
        match j.whole() {
            Some(i) => Some(JsonView::Number(NumberView::Whole(i))),
            None => None,
        }
    }

    open spec fn faithful(&self) -> bool {
        true
    }

    fn to_json(&self) -> (r: Json) {
        Json::integer(*self)
    }

    fn from_json(j: &Json) -> (r: Result<Self, Malformed>) {
        match j.as_i64() {
            Some(i) => Ok(i),
            None => Err(Malformed),
        }
    }

    fn duplicate(&self) -> (r: Self) {
        *self
    }

    proof fn round_trip(&self) {
    }
}

impl Wire for Json {
    open spec fn wire(&self) -> JsonView {
        self@
    }

    open spec fn canon(j: JsonView) -> Option<JsonView> {
        Some(j)
    }

    open spec fn faithful(&self) -> bool {
        true
    }

    fn to_json(&self) -> (r: Json) {
        Json::duplicate(self)
    }

    fn from_json(j: &Json) -> (r: Result<Self, Malformed>) {
        Ok(Json::duplicate(j))
    }

    fn duplicate(&self) -> (r: Self) {
        Json::duplicate(self)
    }

    proof fn round_trip(&self) {
    }
}

/// The JSON forms of a list.
pub open spec fn wires<T: Wire>(s: Seq<T>) -> Seq<JsonView> {
    Seq::new(s.len(), |i: int| s[i].wire())
}

/// Whether each item is accepted.
pub open spec fn all_accepted<T: Wire>(a: Seq<JsonView>) -> bool {
    forall|i: int| 0 <= i < a.len() ==> T::canon(#[trigger] a[i]) is Some
}

/// What is kept of each item.
pub open spec fn canons<T: Wire>(a: Seq<JsonView>) -> Seq<JsonView> {
    Seq::new(a.len(), |i: int| T::canon(a[i])->0)
}

/// Reads each item of a list.
pub fn read_items<T: Wire>(a: &Vec<Json>) -> (r: Result<Vec<T>, Malformed>)
    ensures
        match r {
            Ok(v) => all_accepted::<T>(json::items(a@)) && wires(v@) == canons::<T>(json::items(a@)),
            Err(_) => !all_accepted::<T>(json::items(a@)),
        },
{
    let mut out: Vec<T> = Vec::new();
    let mut i: usize = 0;
    while i < a.len()
        invariant
            i <= a.len(),
            out.len() == i,
            forall|k: int|
                0 <= k < i ==> T::canon(#[trigger] json::items(a@)[k]) == Some(out@[k].wire()),
        decreases a.len() - i,
    {
        assert(json::items(a@)[i as int] == a@[i as int]@);
        match T::from_json(&a[i]) {
            Ok(x) => {
                out.push(x);
            },
            Err(e) => {
                return Err(e);
            },
        }
        i = i + 1;
    }
    assert(wires(out@) =~= canons::<T>(json::items(a@)));
    Ok(out)
}

/// Writes each item of a list.
pub fn write_items<T: Wire>(v: &Vec<T>) -> (r: Vec<Json>)
    ensures
        json::items(r@) == wires(v@),
{
    let mut out: Vec<Json> = Vec::new();
    let mut i: usize = 0;
    while i < v.len()
        invariant
            i <= v.len(),
            out.len() == i,
            forall|k: int| 0 <= k < i ==> (#[trigger] out@[k])@ == v@[k].wire(),
        decreases v.len() - i,
    {
        let x = v[i].to_json();
        out.push(x);
        i = i + 1;
    }
    assert(json::items(out@) =~= wires(v@));
    out
}

/// Copies each item of a list.
pub fn duplicate_list<T: Wire>(v: &Vec<T>) -> (r: Vec<T>)
    ensures
        wires(r@) == wires(v@),
{
    let mut out: Vec<T> = Vec::new();
    let mut i: usize = 0;
    while i < v.len()
        invariant
            i <= v.len(),
            out.len() == i,
            forall|k: int| 0 <= k < i ==> (#[trigger] out@[k]).wire() == v@[k].wire(),
        decreases v.len() - i,
    {
        let x = v[i].duplicate();
        out.push(x);
        i = i + 1;
    }
    assert(wires(out@) =~= wires(v@));
    out
}

/// What is written of a list reads back, if it does of each item.
pub proof fn list_round_trip<T: Wire>(v: Seq<T>)
    requires
        forall|i: int| 0 <= i < v.len() ==> (#[trigger] v[i]).faithful(),
    ensures
        all_accepted::<T>(wires(v)),
        canons::<T>(wires(v)) == wires(v),
{
    assert forall|i: int| 0 <= i < v.len() implies T::canon(#[trigger] wires(v)[i]) == Some(
        wires(v)[i],
    ) by {
        v[i].round_trip();
    }
    assert(canons::<T>(wires(v)) =~= wires(v));
}

impl<T: Wire> Wire for Vec<T> {
    open spec fn wire(&self) -> JsonView {
        JsonView::Array(wires(self@))
    }

    open spec fn canon(j: JsonView) -> Option<JsonView> {
        match j {
            JsonView::Array(a) => if all_accepted::<T>(a) {
                Some(JsonView::Array(canons::<T>(a)))
            } else {
                None
            },
            _ => None,
        }
    }

    open spec fn faithful(&self) -> bool {
        forall|i: int| 0 <= i < self@.len() ==> (#[trigger] self@[i]).faithful()
    }

    fn to_json(&self) -> (r: Json) {
        let out = write_items(self);
        proof {
            Json::array_view(out);
        }
        Json::Array(out)
    }

    fn from_json(j: &Json) -> (r: Result<Self, Malformed>) {
        match j {
            Json::Array(a) => {
                proof {
                    Json::array_view(*a);
                }
                read_items(a)
            },
            _ => Err(Malformed),
        }
    }

    fn duplicate(&self) -> (r: Self) {
        duplicate_list(self)
    }

    proof fn round_trip(&self) {
        list_round_trip(self@);
    }
}

/// An object whose members are free.
#[derive(Debug, PartialEq)]
pub struct MetaMap {
    pub members: Vec<(String, Json)>,
}

impl MetaMap {
    /// The members.
    pub open spec fn view(&self) -> Seq<MemberView> {
        json::entries(self.members@)
    }

    /// A map without members.
    pub fn new() -> (r: Self)
        ensures
            r@ == none(),
    {
        MetaMap { members: start() }
    }

    /// Sets a member: one of that name that is there keeps its place, and a new one comes
    /// last.
    pub fn insert(&mut self, k: &str, v: Json)
        ensures
            final(self)@ == json::put_member(old(self)@, k@, v@),
    {
        json::set_member(&mut self.members, k, v);
    }

    /// The member named `k`.
    pub fn get(&self, k: &str) -> (r: Option<&Json>)
        ensures
            match r {
                Some(v) => json::lookup(self@, k@) == Some(v@),
                None => json::lookup(self@, k@) is None,
            },
    {
        find_member(&self.members, k)
    }
}

impl Default for MetaMap {
    fn default() -> (r: Self)
        ensures
            r@ == none(),
    {
        MetaMap::new()
    }
}

impl Clone for MetaMap {
    fn clone(&self) -> (r: Self)
        ensures
            r.wire() == self.wire(),
    {
        self.duplicate()
    }
}

impl Wire for MetaMap {
    open spec fn wire(&self) -> JsonView {
        JsonView::Object(self@)
    }

    open spec fn canon(j: JsonView) -> Option<JsonView> {
        match j {
            JsonView::Object(o) => Some(JsonView::Object(o)),
            _ => None,
        }
    }

    open spec fn faithful(&self) -> bool {
        true
    }

    fn to_json(&self) -> (r: Json) {
        let m = json::duplicate_members(&self.members);
        Json::object(m)
    }

    fn from_json(j: &Json) -> (r: Result<Self, Malformed>) {
        match j {
            Json::Object(o) => {
                proof {
                    Json::object_view(*o);
                }
                Ok(MetaMap { members: json::duplicate_members(o) })
            },
            _ => Err(Malformed),
        }
    }

    fn duplicate(&self) -> (r: Self) {
        MetaMap { members: json::duplicate_members(&self.members) }
    }

    proof fn round_trip(&self) {
    }
}

/// A map from text to text, in the order it was given.
#[derive(Debug, PartialEq, Eq)]
pub struct TextMap {
    pub entries: Vec<(String, String)>,
}

/// The members of a map from text to text.
pub open spec fn text_members(s: Seq<(String, String)>) -> Seq<MemberView> {
    Seq::new(s.len(), |i: int| json::member(s[i].0@, JsonView::String(s[i].1@)))
}

/// Whether every member is text.
pub open spec fn all_text(o: Seq<MemberView>) -> bool {
    forall|i: int| 0 <= i < o.len() ==> (#[trigger] o[i]).value is String
}

impl TextMap {
    /// A map without entries.
    pub fn new() -> (r: Self)
        ensures
            r.entries@.len() == 0,
    {
        TextMap { entries: Vec::new() }
    }

    /// The text under a name.
    pub fn get(&self, k: &str) -> (r: Option<&str>)
        ensures
            match r {
                Some(s) => json::lookup(text_members(self.entries@), k@) == Some(
                    JsonView::String(s@),
                ),
                None => json::lookup(text_members(self.entries@), k@) is None,
            },
    {
        let mut i: usize = self.entries.len();
        let ghost all = text_members(self.entries@);
        assert(all.take(i as int) =~= all);
        while i > 0
            invariant
                i <= self.entries.len(),
                all == text_members(self.entries@),
                json::lookup(all, k@) == json::lookup(all.take(i as int), k@),
            decreases i,
        {
            let ghost t = all.take(i as int);
            assert(t.last() == all[i - 1]);
            assert(t.drop_last() =~= all.take(i - 1));
            if str_eq(self.entries[i - 1].0.as_str(), k) {
                return Some(self.entries[i - 1].1.as_str());
            }
            i = i - 1;
        }
        assert(all.take(0).len() == 0);
        None
    }
}

impl Clone for TextMap {
    fn clone(&self) -> (r: Self)
        ensures
            r.wire() == self.wire(),
    {
        self.duplicate()
    }
}

impl Wire for TextMap {
    open spec fn wire(&self) -> JsonView {
        JsonView::Object(text_members(self.entries@))
    }

    open spec fn canon(j: JsonView) -> Option<JsonView> {
        match j {
            JsonView::Object(o) => if all_text(o) {
                Some(JsonView::Object(o))
            } else {
                None
            },
            _ => None,
        }
    }

    open spec fn faithful(&self) -> bool {
        true
    }

    fn to_json(&self) -> (r: Json) {
        let mut out: Vec<(String, Json)> = Vec::new();
        let mut i: usize = 0;
        while i < self.entries.len()
            invariant
                i <= self.entries.len(),
                out.len() == i,
                forall|k: int|
                    0 <= k < i ==> (#[trigger] out@[k]).0@ == self.entries@[k].0@ && out@[k].1@
                        == JsonView::String(self.entries@[k].1@),
            decreases self.entries.len() - i,
        {
            out.push((self.entries[i].0.clone(), Json::String(self.entries[i].1.clone())));
            i = i + 1;
        }
        assert(json::entries(out@) =~= text_members(self.entries@));
        Json::object(out)
    }

    fn from_json(j: &Json) -> (r: Result<Self, Malformed>) {
        match j {
            Json::Object(o) => {
                proof {
                    Json::object_view(*o);
                }
                let mut out: Vec<(String, String)> = Vec::new();
                let mut i: usize = 0;
                while i < o.len()
                    invariant
                        i <= o.len(),
                        j@ == JsonView::Object(json::entries(o@)),
                        out.len() == i,
                        text_members(out@) == json::entries(o@).take(i as int),
                    decreases o.len() - i,
                {
                    assert(json::entries(o@)[i as int] == json::member(
                        o@[i as int].0@,
                        o@[i as int].1@,
                    ));
                    match &o[i].1 {
                        Json::String(s) => {
                            out.push((o[i].0.clone(), s.clone()));
                        },
                        _ => {
                            return Err(Malformed);
                        },
                    }
                    i = i + 1;
                    assert(text_members(out@) =~= json::entries(o@).take(i as int));
                }
                assert(text_members(out@) =~= json::entries(o@));
                assert forall|k: int| 0 <= k < o.len() implies (#[trigger] json::entries(
                    o@,
                )[k]).value is String by {
                    assert(text_members(out@)[k].value is String);
                }
                Ok(TextMap { entries: out })
            },
            _ => Err(Malformed),
        }
    }

    fn duplicate(&self) -> (r: Self) {
        let mut out: Vec<(String, String)> = Vec::new();
        let mut i: usize = 0;
        while i < self.entries.len()
            invariant
                i <= self.entries.len(),
                out.len() == i,
                forall|k: int|
                    0 <= k < i ==> (#[trigger] out@[k]).0@ == self.entries@[k].0@ && out@[k].1@
                        == self.entries@[k].1@,
            decreases self.entries.len() - i,
        {
            out.push((self.entries[i].0.clone(), self.entries[i].1.clone()));
            i = i + 1;
        }
        assert(text_members(out@) =~= text_members(self.entries@));
        TextMap { entries: out }
    }

    proof fn round_trip(&self) {
    }
}

/// The kind that a record gives under the name `k`, or by its first place.
pub open spec fn tag(j: JsonView, k: Seq<char>) -> Option<Seq<char>> {
    match at(j, k, 0) {
        Some(v) => v.text(),
        None => None,
    }
}

/// The record without the place of its kind.
pub open spec fn untagged(j: JsonView) -> JsonView {
    match j {
        JsonView::Array(a) => JsonView::Array(a.drop_first()),
        _ => j,
    }
}

/// Reads the kind of a record.
pub fn read_tag(j: &Json, k: &str) -> (r: Option<String>)
    ensures
        match r {
            Some(t) => tag(j@, k@) == Some(t@),
            None => tag(j@, k@) is None,
        },
{
    match part(j, k, 0) {
        Some(Json::String(s)) => Some(s.clone()),
        _ => None,
    }
}

/// Copies the record without the place of its kind.
pub fn read_untagged(j: &Json) -> (r: Json)
    requires
        j@ is Array ==> j@->Array_0.len() > 0,
    ensures
        r@ == untagged(j@),
{
    match j {
        Json::Array(a) => {
            proof {
                Json::array_view(*a);
            }
            let mut b = json::duplicate_items(a);
            assert(json::items(b@).len() == b@.len());
            if b.len() > 0 {
                let first = b.remove(0);
            }
            proof {
                Json::array_view(b);
                assert(json::items(b@) =~= json::items(a@).drop_first());
            }
            Json::Array(b)
        },
        _ => j.duplicate(),
    }
}

/// A double, held by its bits. One that is not finite is printed as null.
#[derive(Clone, Copy, Debug, PartialEq, Eq, Structural)]
pub struct Real {
    pub bits: u64,
}

impl Wire for Real {
    open spec fn wire(&self) -> JsonView {
        JsonView::Number(NumberView::Double(self.bits as int))
    }

    open spec fn canon(j: JsonView) -> Option<JsonView> {
        match j {
            JsonView::Number(n) => Some(
                JsonView::Number(NumberView::Double(JsonNumber::double(n))),
            ),
            _ => None,
        }
    }

    open spec fn faithful(&self) -> bool {
        true
    }

    fn to_json(&self) -> (r: Json) {
        Json::Number(JsonNumber::Float(self.bits))
    }

    fn from_json(j: &Json) -> (r: Result<Self, Malformed>) {
        match j {
            Json::Number(n) => Ok(Real { bits: n.to_double() }),
            _ => Err(Malformed),
        }
    }

    fn duplicate(&self) -> (r: Self) {
        *self
    }

    proof fn round_trip(&self) {
    }
}

} // verus!
