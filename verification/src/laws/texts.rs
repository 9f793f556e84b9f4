//! Texts, numbers, JSON values and maps: what the rest is written in.
use vstd::arithmetic::power2;
use vstd::prelude::*;

use crate::double;
use crate::json;
use crate::json::{Json, JsonView, MemberView, NumberView};
use crate::string_map;
use crate::string_map::StringMap;
use crate::text;

verus! {

/// Letters of the Latin alphabet have a lowercase and an uppercase form; other characters stay.
pub proof fn letters_change_case(c: char)
    ensures
        'A' <= c <= 'Z' ==> text::lower_char(c) as u32 == c as u32 + 32,
        !('A' <= c <= 'Z') ==> text::lower_char(c) == c,
        'a' <= c <= 'z' ==> text::upper_char(c) as u32 == c as u32 - 32,
        !('a' <= c <= 'z') ==> text::upper_char(c) == c,
{
}

/// A text changes case character by character.
pub proof fn texts_change_case(s: Seq<char>, i: int)
    ensures
        text::lowered(s).len() == s.len() && text::raised(s).len() == s.len(),
        0 <= i < s.len() ==> text::lowered(s)[i] == text::lower_char(s[i]) && text::raised(s)[i]
            == text::upper_char(s[i]),
{
}

/// A text is trimmed of the white space at both ends, and of nothing else.
pub proof fn texts_are_trimmed(a: Seq<char>, s: Seq<char>, b: Seq<char>)
    requires
        forall|i: int| 0 <= i < a.len() ==> text::is_space(#[trigger] a[i]),
        forall|i: int| 0 <= i < b.len() ==> text::is_space(#[trigger] b[i]),
        s.len() > 0,
        !text::is_space(s[0]),
        !text::is_space(s.last()),
    ensures
        text::trimmed(a + s + b) == s,
{
    start_is_trimmed(a, s + b);
    assert(a + s + b =~= a + (s + b));
    assert((s + b)[0] == s[0]);
    end_is_trimmed(s, b);
}

proof fn start_is_trimmed(a: Seq<char>, t: Seq<char>)
    requires
        forall|i: int| 0 <= i < a.len() ==> text::is_space(#[trigger] a[i]),
        t.len() > 0,
        !text::is_space(t[0]),
    ensures
        text::trimmed_start(a + t) == t,
    decreases a.len(),
{
    if a.len() == 0 {
        assert(a + t =~= t);
    } else {
        assert((a + t)[0] == a[0]);
        assert((a + t).drop_first() =~= a.drop_first() + t);
        start_is_trimmed(a.drop_first(), t);
    }
}

proof fn end_is_trimmed(s: Seq<char>, b: Seq<char>)
    requires
        forall|i: int| 0 <= i < b.len() ==> text::is_space(#[trigger] b[i]),
        s.len() > 0,
        !text::is_space(s.last()),
    ensures
        text::trimmed_end(s + b) == s,
    decreases b.len(),
{
    if b.len() == 0 {
        assert(s + b =~= s);
    } else {
        assert((s + b).last() == b.last());
        assert((s + b).drop_last() =~= s + b.drop_last());
        end_is_trimmed(s, b.drop_last());
    }
}

/// A text of white space alone is trimmed to nothing.
pub proof fn blanks_are_trimmed(a: Seq<char>)
    requires
        forall|i: int| 0 <= i < a.len() ==> text::is_space(#[trigger] a[i]),
    ensures
        text::trimmed(a).len() == 0,
    decreases a.len(),
{
    if a.len() > 0 {
        blanks_are_trimmed(a.drop_first());
        assert(text::trimmed_start(a) == text::trimmed_start(a.drop_first()));
    }
}

/// Blanks, tabs and ends of line are white space; letters, digits and signs are not.
pub proof fn white_space_told(c: char)
    ensures
        c == ' ' || c == '\t' || c == '\n' || c == '\r' ==> text::is_space(c),
        '!' <= c <= '~' ==> !text::is_space(c),
{
}

/// A number is read from its digits, one at a time, with a sign before them.
pub proof fn numbers_are_read(s: Seq<char>, c: char)
    requires
        s.len() > 0,
    ensures
        '0' <= c <= '9' ==> text::digits_value(seq![c]) == Some(c as int - 48),
        !('0' <= c <= '9') ==> text::digits_value(seq![c]) is None,
        text::digits_value(s) is Some && '0' <= c <= '9' ==> text::digits_value(s.push(c)) == Some(
            text::digits_value(s)->0 * 10 + (c as int - 48),
        ),
        text::digits_value(s) is None || !('0' <= c <= '9') ==> text::digits_value(
            s.push(c),
        ) is None,
{
    assert(s.push(c).drop_last() =~= s);
}

/// A sign may stand before the digits of a number, and the number must fit.
pub proof fn signs_are_read(s: Seq<char>)
    requires
        s.len() > 0,
        s[0] != '-' && s[0] != '+',
    ensures
        ({
            let v = text::digits_value(s);
            &&& v is None ==> text::parsed_i64(s) is None && text::parsed_i64(
                seq!['-'] + s,
            ) is None && text::parsed_i64(seq!['+'] + s) is None
            &&& v is Some && -0x8000_0000_0000_0000 <= v->0 <= 0x7fff_ffff_ffff_ffff
                ==> text::parsed_i64(s) == v && text::parsed_i64(seq!['+'] + s) == v
            &&& v is Some && v->0 > 0x7fff_ffff_ffff_ffff ==> text::parsed_i64(s) is None
            &&& v is Some && -0x8000_0000_0000_0000 <= -v->0 <= 0x7fff_ffff_ffff_ffff
                ==> text::parsed_i64(seq!['-'] + s) == Some(-v->0)
            &&& v is Some && -v->0 < -0x8000_0000_0000_0000 ==> text::parsed_i64(
                seq!['-'] + s,
            ) is None
        }),
        text::parsed_i64(Seq::<char>::empty()) is None,
{
    assert((seq!['-'] + s).drop_first() =~= s);
    assert((seq!['+'] + s).drop_first() =~= s);
}

/// A number is written in decimal digits, without leading zeros, with a minus before it where it
/// is negative; and is read back as itself.
pub proof fn numbers_are_written(n: int)
    ensures
        n >= 0 ==> text::digits_value(text::decimal(n)) == Some(n),
        n < 0 ==> text::decimal(n)[0] == '-' && text::digits_value(text::decimal(n).drop_first())
            == Some(-n),
        n == 0 ==> text::decimal(n) == seq!['0'],
        n > 0 ==> text::decimal(n)[0] != '0',
{
    if n >= 0 {
        text::natural_text_value(n);
    } else {
        text::natural_text_value(-n);
        assert((seq!['-'] + text::natural_text(-n)).drop_first() =~= text::natural_text(-n));
    }
    if n > 0 {
        no_leading_zero(n);
    }
}

proof fn no_leading_zero(n: int)
    requires
        n > 0,
    ensures
        text::natural_text(n).len() > 0,
        text::natural_text(n)[0] != '0',
    decreases n,
{
    if n >= 10 {
        no_leading_zero(n / 10);
        assert(text::natural_text(n)[0] == text::natural_text(n / 10)[0]);
    }
}

/// Texts are ordered by the first character in which they differ; a text comes after each of its
/// beginnings.
pub proof fn texts_are_ordered(a: Seq<char>, x: char, y: char, b: Seq<char>, c: Seq<char>)
    ensures
        x < y ==> text::lt(a + seq![x] + b, a + seq![y] + c),
        text::lt(a, a + seq![x] + b),
        !text::lt(a + seq![x] + b, a),
        !text::lt(a, a),
    decreases a.len(),
{
    let s = a + seq![x] + b;
    let t = a + seq![y] + c;
    if a.len() > 0 {
        let d = a.drop_first();
        texts_are_ordered(d, x, y, b, c);
        assert(s.drop_first() =~= d + seq![x] + b);
        assert(t.drop_first() =~= d + seq![y] + c);
        assert(s[0] == a[0] && t[0] == a[0]);
    } else {
        assert(s[0] == x && t[0] == y);
    }
}

/// What is compared, joined, cut and looked for in texts is what it says.
pub proof fn texts_are_handled(
    a: &str,
    b: &str,
    c: &str,
    d: &str,
    eq: bool,
    lt: bool,
    two: String,
    three: String,
    four: String,
    starts: bool,
    holds: bool,
    x: char,
    has: bool,
    same: bool,
)
    requires
        call_ensures(text::str_eq, (a, b), eq),
        call_ensures(text::str_lt, (a, b), lt),
        call_ensures(text::cat2, (a, b), two),
        call_ensures(text::cat3, (a, b, c), three),
        call_ensures(text::cat4, (a, b, c, d), four),
        call_ensures(text::starts_with, (a, b), starts),
        call_ensures(text::contains, (a, b), holds),
        call_ensures(text::contains_char, (a, x), has),
        call_ensures(text::eq_ignore_case, (a, b), same),
    ensures
        eq <==> a@ == b@,
        lt <==> text::lt(a@, b@),
        two@ == a@ + b@ && three@ == a@ + b@ + c@ && four@ == a@ + b@ + c@ + d@,
        starts <==> b@.len() <= a@.len() && a@.take(b@.len() as int) == b@,
        holds <==> exists|i: int|
            0 <= i && i + b@.len() <= a@.len() && #[trigger] a@.subrange(i, i + b@.len()) == b@,
        has <==> exists|i: int| 0 <= i < a@.len() && a@[i] == x,
        same <==> text::lowered(a@) == text::lowered(b@),
{
    if starts {
        assert(a@.take(b@.len() as int) =~= b@);
    }
    if b@.len() <= a@.len() && a@.take(b@.len() as int) == b@ {
        assert(b@.is_prefix_of(a@));
    }
    if text::occurs(a@, b@) {
        let i = choose|i: int| text::stands_at(a@, b@, i);
        assert(a@.subrange(i, i + b@.len()) == b@);
    }
    if exists|i: int|
        0 <= i && i + b@.len() <= a@.len() && #[trigger] a@.subrange(i, i + b@.len()) == b@ {
        let i = choose|i: int|
            0 <= i && i + b@.len() <= a@.len() && #[trigger] a@.subrange(i, i + b@.len()) == b@;
        assert(text::stands_at(a@, b@, i));
    }
}

/// Texts change case, are trimmed, are cut and are read as numbers as was said.
pub proof fn texts_are_read(
    s: &str,
    low: String,
    up: String,
    bare: String,
    n: Option<i64>,
    m: i128,
    t: String,
    c: char,
    space: bool,
    chars: Vec<char>,
)
    requires
        call_ensures(text::to_lowercase, (s,), low),
        call_ensures(text::to_uppercase, (s,), up),
        call_ensures(text::trim, (s,), bare),
        call_ensures(text::parse_i64, (s,), n),
        call_ensures(text::int_text, (m,), t),
        call_ensures(text::is_whitespace, (c,), space),
        call_ensures(text::chars_of, (s,), chars),
    ensures
        low@ == text::lowered(s@) && up@ == text::raised(s@) && bare@ == text::trimmed(s@),
        n is Some <==> text::parsed_i64(s@) is Some,
        n is Some ==> text::parsed_i64(s@) == Some(n->0 as int),
        t@ == text::decimal(m as int),
        space <==> text::is_space(c),
        chars@ == s@,
{
}

/// A map holds what was last put in under a key, until it is taken out; its keys are in order.
pub proof fn maps_hold<V>(
    fresh: StringMap<V>,
    m: StringMap<V>,
    k: &str,
    found: Option<&V>,
    has: bool,
    n: usize,
    none: bool,
    p: &mut StringMap<V>,
    key: String,
    value: V,
    before: Option<V>,
    q: &mut StringMap<V>,
    gone: Option<V>,
    w: &mut StringMap<V>,
    other: Seq<char>,
)
    requires
        call_ensures(StringMap::<V>::new, (), fresh),
        call_ensures(StringMap::<V>::get, (&m, k), found),
        call_ensures(StringMap::<V>::contains_key, (&m, k), has),
        call_ensures(StringMap::<V>::len, (&m,), n),
        call_ensures(StringMap::<V>::is_empty, (&m,), none),
        call_ensures(StringMap::<V>::insert, (p, key, value), before),
        call_ensures(StringMap::<V>::remove, (q, k), gone),
        call_ensures(StringMap::<V>::clear, (w,), ()),
    ensures
        fresh@.dom() == Set::<Seq<char>>::empty() && fresh.order().len() == 0,
        found is Some <==> m@.dom().contains(k@),
        has <==> m@.dom().contains(k@),
        found is Some ==> *found->0 == m@[k@],
        n == m@.dom().len() && n == m.order().len() && (none <==> n == 0),
        string_map::increasing(m.order()) && m.order().to_set() == m@.dom(),
        final(p)@.dom().contains(key@) && final(p)@[key@] == value,
        other != key@ ==> final(p)@.dom().contains(other) == old(p)@.dom().contains(other) && final(p)@[other] == old(p)@[other],
        before is Some <==> old(p)@.dom().contains(key@),
        before is Some ==> before->0 == old(p)@[key@],
        !final(q)@.dom().contains(k@),
        other != k@ ==> final(q)@.dom().contains(other) == old(q)@.dom().contains(other) && final(q)@[other] == old(q)@[other],
        gone is Some <==> old(q)@.dom().contains(k@),
        gone is Some ==> gone->0 == old(q)@[k@],
        final(w)@.dom() == Set::<Seq<char>>::empty(),
{
}

/// A member of an object is the last of its name, and setting it changes that member alone.
pub proof fn members_are_found(o: Seq<MemberView>, k: Seq<char>, v: JsonView, q: Seq<char>)
    ensures
        json::lookup(o.push(json::member(k, v)), k) == Some(v),
        q != k ==> json::lookup(o.push(json::member(k, v)), q) == json::lookup(o, q),
        json::lookup(seq![], k) is None,
        json::lookup(json::put_member(o, k, v), k) == Some(v),
        q != k ==> json::lookup(json::put_member(o, k, v), q) == json::lookup(o, q),
        json::lookup(o, k) is None ==> json::put_member(o, k, v) == o.push(json::member(k, v)),
        json::lookup(o, k) is Some ==> json::put_member(o, k, v).len() == o.len(),
{
    json::lookup_push(o, k, v, k);
    json::lookup_push(o, k, v, q);
    json::lookup_put_member(o, k, v, k);
    json::lookup_put_member(o, k, v, q);
    replaced_keeps_length(o, k, v);
}

proof fn replaced_keeps_length(o: Seq<MemberView>, k: Seq<char>, v: JsonView)
    ensures
        json::replaced(o, k, v).len() == o.len(),
    decreases o.len(),
{
    if o.len() > 0 {
        replaced_keeps_length(o.drop_last(), k, v);
    }
}

/// A value of JSON tells what it is and what it holds.
pub proof fn values_tell(
    j: Json,
    k: &str,
    member: Option<&Json>,
    s: Option<&str>,
    b: Option<bool>,
    i: Option<i64>,
    u: Option<u64>,
    o: bool,
    n: bool,
    copy: Json,
    again: Json,
)
    requires
        call_ensures(Json::get, (&j, k), member),
        call_ensures(Json::as_str, (&j,), s),
        call_ensures(Json::as_bool, (&j,), b),
        call_ensures(Json::as_i64, (&j,), i),
        call_ensures(Json::as_u64, (&j,), u),
        call_ensures(Json::is_object, (&j,), o),
        call_ensures(Json::is_null, (&j,), n),
        call_ensures(Json::duplicate, (&j,), copy),
        call_ensures(<Json as Clone>::clone, (&j,), again),
    ensures
        j@ matches JsonView::Object(m) ==> (member is Some <==> json::lookup(m, k@) is Some),
        member is Some ==> j@ is Object && json::lookup(j@->Object_0, k@) == Some(member->0@),
        s is Some <==> j@ is String,
        s is Some ==> j@ == JsonView::String(s->0@),
        b is Some <==> j@ is Bool,
        b is Some ==> j@ == JsonView::Bool(b->0),
        j@ matches JsonView::Number(NumberView::Whole(x)) ==> (i is Some <==> x
            <= 0x7fff_ffff_ffff_ffff),
        i is Some ==> j@ == JsonView::Number(NumberView::Whole(i->0 as int)),
        j@ matches JsonView::Number(NumberView::Whole(x)) ==> (u is Some <==> x >= 0),
        u is Some ==> j@ == JsonView::Number(NumberView::Whole(u->0 as int)),
        o <==> j@ is Object,
        n <==> j@ is Null,
        copy@ == j@ && again@ == j@,
{
}

/// A value of JSON is made of what it holds.
pub proof fn values_made(
    s: &str,
    a: Json,
    i: i64,
    b: Json,
    v: Vec<(String, Json)>,
    c: Json,
    d: Json,
    m: &mut Vec<(String, Json)>,
    k: &str,
    x: Json,
)
    requires
        call_ensures(Json::string, (s,), a),
        call_ensures(Json::integer, (i,), b),
        call_ensures(Json::object, (v,), c),
        call_ensures(Json::empty_object, (), d),
        call_ensures(json::set_member, (m, k, x), ()),
    ensures
        a@ == JsonView::String(s@),
        b@ == JsonView::Number(NumberView::Whole(i as int)),
        c@ == JsonView::Object(json::entries(v@)),
        d@ == JsonView::Object(seq![]),
        json::lookup(json::entries(final(m)@), k@) == Some(x@),
{
    json::lookup_put_member(json::entries(old(m)@), k@, x@, k@);
}

/// Two values are the same where they are of one kind and hold the same, objects in whatever
/// order of their members.
pub proof fn values_compared(a: JsonView, b: JsonView)
    ensures
        (a is Null) != (b is Null) ==> !a.same(b),
        (a is String) != (b is String) ==> !a.same(b),
        (a is Bool) != (b is Bool) ==> !a.same(b),
        (a is Number) != (b is Number) ==> !a.same(b),
        (a is Array) != (b is Array) ==> !a.same(b),
        (a is Object) != (b is Object) ==> !a.same(b),
        a is Null && b is Null ==> a.same(b),
        a is String && b is String ==> (a.same(b) <==> a == b),
        a is Bool && b is Bool ==> (a.same(b) <==> a == b),
        a is Array && b is Array ==> (a.same(b) <==> a->Array_0.len() == b->Array_0.len()
            && forall|i: int|
            0 <= i < a->Array_0.len() ==> (#[trigger] a->Array_0[i]).same(b->Array_0[i])),
        a is Object && b is Object && a.same(b) ==> a->Object_0.len() == b->Object_0.len()
            && forall|i: int|
            0 <= i < a->Object_0.len() ==> json::lookup(
                b->Object_0,
                (#[trigger] a->Object_0[i]).name,
            ) is Some,
{
}

/// Numbers are the same where both are whole and equal, or both doubles of equal value; the two
/// zeros are.
pub proof fn numbers_compared(i: int, j: int)
    ensures
        NumberView::Whole(i).same_number(NumberView::Whole(j)) <==> i == j,
        !NumberView::Whole(i).same_number(NumberView::Double(j)),
        NumberView::Double(0).same_number(NumberView::Double(0x8000_0000_0000_0000)),
        0 <= i < 0x8000_0000_0000_0000 && 0 <= j < 0x8000_0000_0000_0000 ==> (NumberView::Double(
            i,
        ).same_number(NumberView::Double(j)) <==> i == j),
{
}

/// The exponent of a number is the power of two that it reaches and whose double it does not.
pub proof fn exponents_are_powers(n: nat)
    requires
        n > 0,
    ensures
        power2::pow2(double::exponent(n)) <= n < 2 * power2::pow2(double::exponent(n)),
    decreases n,
{
    if n < 2 {
        power2::lemma2_to64();
    } else {
        exponents_are_powers(n / 2);
        power2::lemma_pow2_unfold(double::exponent(n));
    }
}

/// A quotient is rounded to the nearest whole number, and to the even one of two that are as near.
pub proof fn quotients_are_rounded(n: int, d: int)
    requires
        0 <= n,
        0 < d,
    ensures
        -d <= 2 * (n - double::rounded(n, d) * d) <= d,
        2 * (n - double::rounded(n, d) * d) == d || 2 * (n - double::rounded(n, d) * d) == -d
            ==> double::rounded(n, d) % 2 == 0,
{
    let q = n / d;
    let r = n % d;
    assert(n == d * q + r && 0 <= r < d) by (nonlinear_arith)
        requires
            d > 0,
            q == n / d,
            r == n % d,
    ;
    assert(q * d == d * q && (q + 1) * d == d * q + d) by (nonlinear_arith);
}

/// A whole number is written as the double that is nearest: its sign, its exponent, and the 53
/// digits of its significand, exact where it has no more.
pub proof fn whole_numbers_are_doubles(n: nat)
    requires
        0 < n,
    ensures
        double::nearest_double(n as int) == (double::exponent(n) + 1022) * 0x10_0000_0000_0000
            + double::significand(n),
        double::nearest_double(-(n as int)) == 0x8000_0000_0000_0000 + double::nearest_double(
            n as int,
        ),
        double::nearest_double(0) == 0,
        double::exponent(n) <= 52 ==> double::significand(n) == n * power2::pow2(
            (52 - double::exponent(n)) as nat,
        ),
        double::exponent(n) > 52 ==> double::significand(n) == double::rounded(
            n as int,
            power2::pow2((double::exponent(n) - 52) as nat) as int,
        ),
{
}

} // verus!
