//! The shapes of texts and numbers that the rest is told by: hosts and ports, identities, white
//! space, and whole numbers among doubles.
use vstd::arithmetic::power2;
use vstd::prelude::*;

use crate::double;
use crate::json;
use crate::json::{JsonView, NumberView};
use crate::protocol::endpoint;
use crate::schema;
use crate::server::manager;
use crate::text;
use crate::transport::streamable_http_server as server;

verus! {

/// A text is cut at the first of a character: what stands before it has none of them.
pub proof fn texts_are_cut(a: Seq<char>, c: char, b: Seq<char>)
    requires
        !a.contains(c),
    ensures
        endpoint::before(a + seq![c] + b, c) == a,
        endpoint::after(a + seq![c] + b, c) == Some(b),
        endpoint::from(a + seq![c] + b, c) == seq![c] + b,
        endpoint::before(a, c) == a,
        endpoint::after(a, c) is None,
        endpoint::from(a, c).len() == 0,
{
    let s = a + seq![c] + b;
    text::first_at_found(s, c, 0);
    text::first_at_found(a, c, 0);
    assert(s[a.len() as int] == c);
    if text::first_at(a, c, 0) is Some {
        assert(a.contains(a[text::first_at(a, c, 0)->0]));
    }
    let i = text::first_at(s, c, 0)->0;
    if i < a.len() {
        assert(s[i] == a[i]);
        assert(a.contains(a[i]));
    }
    assert(s.take(a.len() as int) =~= a);
    assert(s.skip(a.len() as int + 1) =~= b);
    assert(s.skip(a.len() as int) =~= seq![c] + b);
}

/// Neither a host nor a path holds white space or the sign of a fragment, and a host holds no
/// sign of a query either.
pub proof fn hosts_and_paths(s: Seq<char>, i: int)
    ensures
        s.contains('?') || s.contains('#') ==> !endpoint::clean_authority(s),
        s.contains('#') ==> !endpoint::clean_path(s),
        0 <= i < s.len() && text::is_space(s[i]) ==> !endpoint::clean_authority(s)
            && !endpoint::clean_path(s),
        !s.contains('#') && (forall|k: int|
            0 <= k < s.len() ==> !text::is_space(#[trigger] s[k])) ==> endpoint::clean_path(s),
        endpoint::clean_path(s) && !s.contains('?') ==> endpoint::clean_authority(s),
{
    if !s.contains('#') && (forall|k: int| 0 <= k < s.len() ==> !text::is_space(#[trigger] s[k])) {
        assert forall|k: int| 0 <= k < s.len() implies !text::is_space(#[trigger] s[k]) && s[k]
            != '#' by {
            assert(s.contains(s[k]));
        }
    }
    if endpoint::clean_path(s) && !s.contains('?') {
        assert forall|k: int| 0 <= k < s.len() implies !text::is_space(#[trigger] s[k]) && s[k]
            != '?' && s[k] != '#' by {
            assert(s.contains(s[k]));
        }
    }
}

/// A port is made of digits where they have a value.
pub proof fn ports_have_values(s: Seq<char>)
    ensures
        endpoint::all_digits(s) <==> text::digits_value(s) is Some,
    decreases s.len(),
{
    if s.len() == 1 {
        assert(s[0] == s.last());
    } else if s.len() > 1 {
        let d = s.drop_last();
        ports_have_values(d);
        assert forall|i: int| 0 <= i < d.len() implies #[trigger] d[i] == s[i] by {}
        if endpoint::all_digits(s) {
            assert('0' <= s[s.len() - 1] <= '9');
            assert forall|i: int| 0 <= i < d.len() implies '0' <= #[trigger] d[i] <= '9' by {
                assert('0' <= s[i] <= '9');
            }
        }
        if text::digits_value(s) is Some {
            assert forall|i: int| 0 <= i < s.len() implies '0' <= #[trigger] s[i] <= '9' by {
                if i < d.len() {
                    assert('0' <= d[i] <= '9');
                }
            }
        }
    }
}

/// The brackets around the address of a host are no part of it.
pub proof fn brackets_are_dropped(h: Seq<char>)
    requires
        h.len() > 0,
        h[0] != '[',
        h.last() != ']',
    ensures
        endpoint::unbracket_end(endpoint::unbracket_start(h)) == h,
        endpoint::unbracket_end(endpoint::unbracket_start(seq!['['] + h + seq![']'])) == h,
{
    let s = seq!['['] + h + seq![']'];
    let t = h + seq![']'];
    assert(s[0] == '[');
    assert(s.drop_first() =~= t);
    assert(t[0] == h[0]);
    assert(endpoint::unbracket_start(t) == t);
    assert(endpoint::unbracket_start(s) == t);
    assert(t.last() == ']');
    assert(t.drop_last() =~= h);
    assert(endpoint::unbracket_end(h) == h);
}

/// An identity of visible characters holds those from the exclamation mark to the tilde.
pub proof fn visible_characters(s: Seq<char>, i: int)
    ensures
        server::visible_ascii(s) && 0 <= i < s.len() ==> 33 <= s[i] as u32 <= 126,
        0 <= i < s.len() && (s[i] as u32 <= 32 || s[i] as u32 >= 127) ==> !server::visible_ascii(s),
        server::visible_ascii(seq![]),
{
}

/// A text of visible characters stays one with one more of them.
pub proof fn visible_characters_added(s: Seq<char>, c: char)
    requires
        server::visible_ascii(s),
    ensures
        server::visible_ascii(s.push(c)) <==> 33 <= c as u32 <= 126,
{
    if server::visible_ascii(s.push(c)) {
        assert(s.push(c)[s.len() as int] == c);
    }
}

/// The identity of a session is a random one: 32 hexadecimal digits in five groups, of which one
/// tells that it is random and one how it is laid out.
pub proof fn identities_are_random(r: String, i: int)
    requires
        call_ensures(manager::generate_session_id, (), r),
    ensures
        r@.len() == 36,
        r@[8] == '-' && r@[13] == '-' && r@[18] == '-' && r@[23] == '-',
        r@[14] == '4',
        r@[19] == '8' || r@[19] == '9' || r@[19] == 'a' || r@[19] == 'b',
        0 <= i < 36 && i != 8 && i != 13 && i != 18 && i != 23 ==> ('0' <= r@[i] <= '9' || 'a'
            <= r@[i] <= 'f'),
        server::visible_ascii(r@),
{
    assert(r@[8] == '-');
    assert(r@[13] == '-');
    assert(r@[18] == '-');
    assert(r@[23] == '-');
    if 0 <= i < 36 && i != 8 && i != 13 && i != 18 && i != 23 {
        assert(manager::hex_digit(r@[i]));
    }
}

/// White space is told by the number of the character.
pub proof fn white_space_numbered(c: char)
    ensures
        ({
            let n = c as u32;
            text::is_space(c) <==> 9 <= n <= 13 || n == 32 || n == 133 || n == 160 || n == 5760 || (
            8192 <= n <= 8202) || n == 8232 || n == 8233 || n == 8239 || n == 8287 || n == 12288
        }),
{
}

/// A document that is written holds what was there: numbers that are not finite are written as
/// null, and everything else as itself.
pub proof fn documents_keep_values(j: JsonView, k: Seq<char>, i: int)
    ensures
        j is Null || j is Bool || j is String ==> j.normal() == j,
        j matches JsonView::Number(NumberView::Whole(n)) ==> j.normal() == j,
        j matches JsonView::Number(NumberView::Double(b)) ==> (0 <= b < 0x7ff0_0000_0000_0000 || (
        0x8000_0000_0000_0000 <= b < 0xfff0_0000_0000_0000) ==> j.normal() == j),
        j matches JsonView::Number(NumberView::Double(b)) ==> (0x7ff0_0000_0000_0000 <= b
            < 0x8000_0000_0000_0000 || b >= 0xfff0_0000_0000_0000 ==> j.normal() is Null),
        j matches JsonView::Array(a) ==> j.normal() is Array && j.normal()->Array_0.len() == a.len()
            && (0 <= i < a.len() ==> j.normal()->Array_0[i] == a[i].normal()),
        j is Object ==> j.normal() is Object && (j.normal().get(k) is Some <==> j.get(k) is Some)
            && (j.get(k) is Some ==> j.normal().get(k) == Some(j.get(k)->0.normal())),
{
    json::get_normal(j, k);
}

/// The zeros that a power of two brings are at the end.
proof fn powers_end_in_zeros(m: int, j: nat, e: int)
    requires
        e >= 0,
        m >= 0,
    ensures
        schema::ends_in_zeros(m * power2::pow2(j), j + e) == schema::ends_in_zeros(m, e),
    decreases j,
{
    if j == 0 {
        power2::lemma2_to64();
        assert(m * 1 == m);
    } else {
        let half = m * power2::pow2((j - 1) as nat);
        power2::lemma_pow2_unfold(j);
        assert(m * power2::pow2(j) == 2 * half) by (nonlinear_arith)
            requires
                power2::pow2(j) == 2 * power2::pow2((j - 1) as nat),
                half == m * power2::pow2((j - 1) as nat),
        ;
        powers_end_in_zeros(m, (j - 1) as nat, e);
        assert((2 * half) % 2 == 0 && (2 * half) / 2 == half);
    }
}

/// The bits of a whole number below two to the power of 53: its exponent, and what follows its
/// first digit.
proof fn bits_of_whole(n: nat) -> (k: nat)
    requires
        0 < n < 0x20_0000_0000_0000,
    ensures
        k == double::exponent(n),
        k <= 52,
        power2::pow2(k) <= n < 2 * power2::pow2(k),
        double::nearest_double(n as int) == (k + 1023) * 0x10_0000_0000_0000 + (n - power2::pow2(k))
            * power2::pow2((52 - k) as nat),
        0 <= (n - power2::pow2(k)) * power2::pow2((52 - k) as nat) < 0x10_0000_0000_0000,
{
    let k = double::exponent(n);
    crate::laws::texts::exponents_are_powers(n);
    power2::lemma2_to64();
    power2::lemma2_to64_rest();
    if k > 52 {
        if k > 53 {
            power2::lemma_pow2_strictly_increases(53, k);
        }
        assert(false);
    }
    let p = power2::pow2(k);
    let q = power2::pow2((52 - k) as nat);
    power2::lemma_pow2_adds(k, (52 - k) as nat);
    assert(p * q == 0x10_0000_0000_0000);
    assert((n - p) * q == n * q - p * q) by (nonlinear_arith);
    assert(0 <= (n - p) * q < p * q) by (nonlinear_arith)
        requires
            0 <= n - p < p,
            q > 0,
    ;
    k
}

/// Every whole number is one among doubles too, and half of an odd number is none.
pub proof fn whole_numbers_among_doubles(n: nat)
    requires
        0 < n < 0x20_0000_0000_0000,
    ensures
        schema::whole_double(double::nearest_double(n as int)),
        n % 2 == 1 ==> !schema::whole_double(
            double::nearest_double(n as int) - 0x10_0000_0000_0000,
        ),
        schema::whole_double(0),
{
    let k = bits_of_whole(n);
    let bits = double::nearest_double(n as int);
    let f = (n - power2::pow2(k)) * power2::pow2((52 - k) as nat);
    let m = n - power2::pow2(k);
    assert(bits == (k + 1023) * 0x10_0000_0000_0000 + f);
    assert(bits % 0x8000_0000_0000_0000 == bits);
    assert(bits / 0x10_0000_0000_0000 == k + 1023);
    assert(bits % 0x10_0000_0000_0000 == f);
    powers_end_in_zeros(m, (52 - k) as nat, 0);
    let low = bits - 0x10_0000_0000_0000;
    assert(low % 0x8000_0000_0000_0000 == low);
    assert(low / 0x10_0000_0000_0000 == k + 1022);
    assert(low % 0x10_0000_0000_0000 == f);
    if n % 2 == 1 && k > 0 {
        powers_end_in_zeros(m, (52 - k) as nat, 1);
        power2::lemma_pow2_unfold(k);
        assert(m % 2 == 1);
        assert(!schema::ends_in_zeros(m, 1));
    }
}

} // verus!
