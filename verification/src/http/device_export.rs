use vstd::prelude::*;

use crate::text;
use crate::text::push_char;

verus! {

/// The upper-case hexadecimal digit for `d` (0 to 15).
pub open spec fn upper_hex_digit(d: nat) -> char {
    if d < 10 {
        (d + 48) as char
    } else {
        (d + 55) as char
    }
}

/// The upper-case hexadecimal digits of a number, most significant first.
pub open spec fn upper_hex(n: nat) -> Seq<char>
    decreases n,
{
    if n < 16 {
        seq![upper_hex_digit(n)]
    } else {
        upper_hex(n / 16).push(upper_hex_digit(n % 16))
    }
}

/// At least two upper-case hexadecimal digits (`{:02X}`).
pub open spec fn upper_hex_2(n: nat) -> Seq<char> {
    if n < 16 {
        seq!['0', upper_hex_digit(n)]
    } else {
        upper_hex(n)
    }
}

/// A character that stands for itself in the query string.
pub open spec fn unreserved(c: char) -> bool {
    ||| ('A' <= c && c <= 'Z')
    ||| ('a' <= c && c <= 'z')
    ||| ('0' <= c && c <= '9')
    ||| c == '-' || c == '_' || c == '.' || c == '~'
}

/// How a character of the search term is written in the query string: itself
/// when unreserved, '+' for a space, otherwise '%' and its code point in
/// upper-case hexadecimal.
pub open spec fn query_char(c: char) -> Seq<char> {
    if unreserved(c) {
        seq![c]
    } else if c == ' ' {
        seq!['+']
    } else {
        seq!['%'] + upper_hex_2(c as nat)
    }
}

/// The search term as written in the query string.
pub open spec fn query_encode(s: Seq<char>) -> Seq<char>
    decreases s.len(),
{
    if s.len() == 0 {
        Seq::empty()
    } else {
        query_encode(s.drop_last()) + query_char(s.last())
    }
}

/// The link to the CSV export of the devices the list shows for a search term.
pub open spec fn export_href(term: Seq<char>) -> Seq<char> {
    if text::trim(term).len() == 0 {
        "/devices/export.csv"@
    } else {
        "/devices/export.csv?term="@ + query_encode(text::trim(term))
    }
}

/// The value of a hexadecimal digit.
pub open spec fn hex_value(c: char) -> int {
    if '0' <= c && c <= '9' {
        c as int - 48
    } else if 'A' <= c && c <= 'F' {
        c as int - 55
    } else if 'a' <= c && c <= 'f' {
        c as int - 87
    } else {
        0
    }
}

/// Form decoding (`application/x-www-form-urlencoded`) of a query value whose
/// escapes stand for ASCII characters: '+' is a space, '%' and two hexadecimal
/// digits is the character with that code, anything else is itself.
pub open spec fn form_decode(s: Seq<char>) -> Seq<char>
    decreases s.len(),
{
    if s.len() == 0 {
        Seq::empty()
    } else if s[0] == '%' && s.len() >= 3 {
        seq![(hex_value(s[1]) * 16 + hex_value(s[2])) as char] + form_decode(s.skip(3))
    } else if s[0] == '+' {
        seq![' '] + form_decode(s.skip(1))
    } else {
        seq![s[0]] + form_decode(s.skip(1))
    }
}

/// A character that can stand in an encoded query value: it is never '&',
/// '#', '=' or a space.
pub open spec fn query_safe(c: char) -> bool {
    unreserved(c) || c == '+' || c == '%'
}

proof fn lemma_hex_digit_unreserved(d: nat)
    requires
        d < 16,
    ensures
        unreserved(upper_hex_digit(d)),
{
    if d < 10 {
        assert(((d + 48) as char) as int == d + 48);
    } else {
        assert(((d + 55) as char) as int == d + 55);
    }
}

proof fn lemma_upper_hex_safe(n: nat)
    ensures
        forall|i: int| 0 <= i < upper_hex(n).len() ==> unreserved(#[trigger] upper_hex(n)[i]),
    decreases n,
{
    if n < 16 {
        lemma_hex_digit_unreserved(n);
    } else {
        lemma_upper_hex_safe(n / 16);
        lemma_hex_digit_unreserved(n % 16);
        let a = upper_hex(n / 16);
        assert forall|i: int| 0 <= i < upper_hex(n).len() implies unreserved(#[trigger] upper_hex(n)[i]) by {
            if i < a.len() {
                assert(upper_hex(n)[i] == a[i]);
            } else {
                assert(upper_hex(n)[i] == upper_hex_digit(n % 16));
            }
        }
    }
}

proof fn lemma_query_char_safe(c: char)
    ensures
        forall|i: int| 0 <= i < query_char(c).len() ==> query_safe(#[trigger] query_char(c)[i]),
{
    lemma_upper_hex_safe(c as nat);
}

proof fn lemma_query_encode_safe(s: Seq<char>)
    ensures
        forall|i: int| 0 <= i < query_encode(s).len() ==> query_safe(#[trigger] query_encode(s)[i]),
    decreases s.len(),
{
    if s.len() > 0 {
        lemma_query_encode_safe(s.drop_last());
        lemma_query_char_safe(s.last());
        let a = query_encode(s.drop_last());
        let b = query_char(s.last());
        assert forall|i: int| 0 <= i < query_encode(s).len() implies query_safe(
            #[trigger] query_encode(s)[i],
        ) by {
            if i < a.len() {
                assert(query_encode(s)[i] == a[i]);
            } else {
                assert(query_encode(s)[i] == b[i - a.len()]);
            }
        }
    }
}

proof fn lemma_decode_query_char(c: char, rest: Seq<char>)
    requires
        (c as int) < 128,
    ensures
        form_decode(query_char(c) + rest) == seq![c] + form_decode(rest),
{
    let q = query_char(c);
    let s = q + rest;
    if unreserved(c) {
        assert(s.skip(1) =~= rest);
    } else if c == ' ' {
        assert(s.skip(1) =~= rest);
    } else {
        let n = c as nat;
        let hi = n / 16;
        let lo = n % 16;
        if n < 16 {
            assert(q =~= seq!['%', '0', upper_hex_digit(n)]);
            assert(hi == 0 && lo == n);
        } else {
            assert(upper_hex(hi) == seq![upper_hex_digit(hi)]);
            assert(q =~= seq!['%', upper_hex_digit(hi), upper_hex_digit(lo)]);
        }
        assert(hex_value(upper_hex_digit(hi)) == hi);
        assert(hex_value(upper_hex_digit(lo)) == lo);
        assert(s.skip(3) =~= rest);
        assert(hi * 16 + lo == n);
        assert((n as int) as char == c);
    }
}

proof fn lemma_decode_encode_prefix(p: Seq<char>, rest: Seq<char>)
    requires
        forall|i: int| 0 <= i < p.len() ==> (#[trigger] p[i] as int) < 128,
    ensures
        form_decode(query_encode(p) + rest) == p + form_decode(rest),
    decreases p.len(),
{
    if p.len() == 0 {
        assert(query_encode(p) + rest =~= rest);
        assert(p + form_decode(rest) =~= form_decode(rest));
    } else {
        let front = p.drop_last();
        let c = p.last();
        assert((p[p.len() - 1] as int) < 128);
        let tail = query_char(c) + rest;
        assert(query_encode(p) + rest =~= query_encode(front) + tail);
        lemma_decode_encode_prefix(front, tail);
        lemma_decode_query_char(c, rest);
        assert(front + (seq![c] + form_decode(rest)) =~= p + form_decode(rest));
    }
}

/// The export link of a search term whose trimmed text is ASCII carries it
/// safely: the encoded value holds no '&', '#', '=' or space, and form
/// decoding it gives back the trimmed term.
pub proof fn lemma_export_href_round_trip(term: Seq<char>)
    requires
        text::trim(term).len() > 0,
        forall|i: int|
            0 <= i < text::trim(term).len() ==> (#[trigger] text::trim(term)[i] as int) < 128,
    ensures
        export_href(term) == "/devices/export.csv?term="@ + query_encode(text::trim(term)),
        forall|i: int|
            0 <= i < query_encode(text::trim(term)).len() ==> query_safe(
                #[trigger] query_encode(text::trim(term))[i],
            ),
        form_decode(query_encode(text::trim(term))) == text::trim(term),
{
    let t = text::trim(term);
    lemma_query_encode_safe(t);
    lemma_decode_encode_prefix(t, Seq::empty());
    assert(query_encode(t) + Seq::<char>::empty() =~= query_encode(t));
    assert(t + form_decode(Seq::<char>::empty()) =~= t);
}

fn push_upper_hex(s: &mut String, n: u32)
    ensures
        final(s)@ == old(s)@ + upper_hex(n as nat),
    decreases n,
{
    if n >= 16 {
        push_upper_hex(s, n / 16);
    }
    let d = n % 16;
    let c = if d < 10 {
        ((d as u8) + 48) as char
    } else {
        ((d as u8) + 55) as char
    };
    push_char(s, c);
}

fn push_query_char(s: &mut String, c: char)
    ensures
        final(s)@ == old(s)@ + query_char(c),
{
    if ('A' <= c && c <= 'Z') || ('a' <= c && c <= 'z') || ('0' <= c && c <= '9') || c == '-'
        || c == '_' || c == '.' || c == '~' {
        push_char(s, c);
    } else if c == ' ' {
        push_char(s, '+');
    } else {
        push_char(s, '%');
        let n = c as u32;
        if n < 16 {
            push_char(s, '0');
        }
        push_upper_hex(s, n);
    }
}

pub fn export_csv_href(search_term: &str) -> (r: String)
    ensures
        r@ == export_href(search_term@),
{
    let term = text::trimmed_chars(search_term);
    if term.len() == 0 {
        return String::from_str("/devices/export.csv");
    }
    let mut r = String::from_str("/devices/export.csv?term=");
    let ghost prefix = r@;
    let mut i: usize = 0;
    while i < term.len()
        invariant
            i <= term.len(),
            r@ == prefix + query_encode(term@.take(i as int)),
        decreases term.len() - i,
    {
        push_query_char(&mut r, term[i]);
        assert(term@.take(i + 1).drop_last() == term@.take(i as int));
        i += 1;
    }
    assert(term@.take(term.len() as int) == term@);
    r
}

} // verus!
