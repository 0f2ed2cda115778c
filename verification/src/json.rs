//! Hand-rolled JSON emission helpers: string escaping and decimal rendering.
//!
//! The request envelope is serialized by this crate itself, so the exact
//! text put on the wire is pinned down by the spec functions in this module.

use vstd::prelude::*;
use vstd::string::StrSliceExecFns;

verus! {

/// The decimal digit character for `d`.
pub open spec fn spec_digit_char(d: nat) -> char
    recommends
        d < 10,
{
    if d == 0 {
        '0'
    } else if d == 1 {
        '1'
    } else if d == 2 {
        '2'
    } else if d == 3 {
        '3'
    } else if d == 4 {
        '4'
    } else if d == 5 {
        '5'
    } else if d == 6 {
        '6'
    } else if d == 7 {
        '7'
    } else if d == 8 {
        '8'
    } else {
        '9'
    }
}

/// The lowercase hexadecimal digit character for `d`.
pub open spec fn spec_hex_digit_char(d: nat) -> char
    recommends
        d < 16,
{
    if d < 10 {
        spec_digit_char(d)
    } else if d == 10 {
        'a'
    } else if d == 11 {
        'b'
    } else if d == 12 {
        'c'
    } else if d == 13 {
        'd'
    } else if d == 14 {
        'e'
    } else {
        'f'
    }
}

/// The decimal rendering of `n`, most significant digit first, no sign and
/// no leading zeros (a single `'0'` for zero).
pub open spec fn spec_dec_digits(n: nat) -> Seq<char>
    decreases n,
{
    if n < 10 {
        seq![spec_digit_char(n)]
    } else {
        spec_dec_digits(n / 10) + seq![spec_digit_char(n % 10)]
    }
}

/// How one character is written inside a JSON string: the two-character
/// escapes of RFC 8259 for the quote, the backslash and the common control
/// characters, a `\u00..` escape for the remaining control characters, and
/// the character itself otherwise.
pub open spec fn spec_escape_char(c: char) -> Seq<char> {
    if c == '"' {
        seq!['\\', '"']
    } else if c == '\\' {
        seq!['\\', '\\']
    } else if c == '\u{8}' {
        seq!['\\', 'b']
    } else if c == '\u{c}' {
        seq!['\\', 'f']
    } else if c == '\n' {
        seq!['\\', 'n']
    } else if c == '\r' {
        seq!['\\', 'r']
    } else if c == '\t' {
        seq!['\\', 't']
    } else if (c as u32) < 0x20 {
        seq!['\\', 'u', '0', '0', spec_hex_digit_char(((c as u32) / 16) as nat), spec_hex_digit_char(
            ((c as u32) % 16) as nat,
        )]
    } else {
        seq![c]
    }
}

/// The body of a JSON string holding the characters `s`.
pub open spec fn spec_json_escape(s: Seq<char>) -> Seq<char>
    decreases s.len(),
{
    if s.len() == 0 {
        Seq::empty()
    } else {
        spec_escape_char(s[0]) + spec_json_escape(s.drop_first())
    }
}

/// A complete JSON string literal for the characters `s`, quotes included.
pub open spec fn spec_json_string(s: Seq<char>) -> Seq<char> {
    seq!['"'] + spec_json_escape(s) + seq!['"']
}

/// Escaping distributes over appending one character at the end.
pub proof fn lemma_json_escape_snoc(s: Seq<char>, c: char)
    ensures
        spec_json_escape(s.push(c)) == spec_json_escape(s) + spec_escape_char(c),
    decreases s.len(),
{
    if s.len() == 0 {
        assert(s.push(c)[0] == c);
        assert(s.push(c).drop_first() =~= Seq::<char>::empty());
        assert(spec_json_escape(s.push(c)) == spec_escape_char(c) + spec_json_escape(
            Seq::<char>::empty(),
        ));
        assert(spec_json_escape(s.push(c)) =~= spec_json_escape(s) + spec_escape_char(c));
    } else {
        assert(s.push(c).drop_first() =~= s.drop_first().push(c));
        lemma_json_escape_snoc(s.drop_first(), c);
        assert(spec_json_escape(s.push(c)) =~= spec_json_escape(s) + spec_escape_char(c));
    }
}

/// The items joined with a single comma between neighbours.
pub open spec fn spec_join_comma(items: Seq<Seq<char>>) -> Seq<char>
    decreases items.len(),
{
    if items.len() == 0 {
        Seq::empty()
    } else if items.len() == 1 {
        items[0]
    } else {
        items[0] + seq![','] + spec_join_comma(items.drop_first())
    }
}

/// Joining distributes over appending one item at the end.
pub proof fn lemma_join_comma_snoc(items: Seq<Seq<char>>, x: Seq<char>)
    ensures
        spec_join_comma(items.push(x)) == if items.len() == 0 {
            x
        } else {
            spec_join_comma(items) + seq![','] + x
        },
    decreases items.len(),
{
    if items.len() == 0 {
        assert(items.push(x)[0] == x);
        assert(spec_join_comma(items.push(x)) == x);
    } else if items.len() == 1 {
        assert(items.push(x)[0] == items[0]);
        assert(items.push(x).drop_first() =~= seq![x]);
        assert(spec_join_comma(seq![x]) == x);
        assert(spec_join_comma(items.push(x)) == spec_join_comma(items) + seq![','] + x);
    } else {
        assert(items.push(x)[0] == items[0]);
        assert(items.push(x).drop_first() =~= items.drop_first().push(x));
        lemma_join_comma_snoc(items.drop_first(), x);
        assert(spec_join_comma(items.push(x)) =~= spec_join_comma(items) + seq![','] + x);
    }
}

/// Relies on String::push, which appends the given character to the end of
/// the string.
#[verifier::external_body]
pub(crate) fn push_char(s: &mut String, c: char)
    ensures
        final(s)@ == old(s)@.push(c),
{
    s.push(c);
}

/// The views of a sequence of string slices.
pub open spec fn spec_views_of(items: Seq<&str>) -> Seq<Seq<char>> {
    items.map_values(|s: &str| s@)
}

/// Join string slices with a comma between neighbours.
pub fn join_comma(items: &Vec<&str>) -> (r: String)
    ensures
        r@ == spec_join_comma(spec_views_of(items@)),
{
    let ghost gitems = spec_views_of(items@);
    let mut out = String::new();
    let mut i: usize = 0;
    while i < items.len()
        invariant
            i <= items@.len(),
            gitems == spec_views_of(items@),
            gitems.len() == items@.len(),
            out@ == spec_join_comma(gitems.subrange(0, i as int)),
        decreases items@.len() - i,
    {
        if i > 0 {
            push_char(&mut out, ',');
        }
        out.append(items[i]);
        proof {
            assert(gitems[i as int] == items@[i as int]@);
            assert(gitems.subrange(0, i + 1) =~= gitems.subrange(0, i as int).push(
                gitems[i as int],
            ));
            lemma_join_comma_snoc(gitems.subrange(0, i as int), gitems[i as int]);
            if i == 0 {
                assert(out@ =~= gitems[0]);
            }
        }
        i = i + 1;
    }
    proof {
        assert(gitems.subrange(0, gitems.len() as int) =~= gitems);
    }
    out
}

/// The decimal digit character for `d`, executably.
fn digit_char(d: u64) -> (r: char)
    requires
        d < 10,
    ensures
        r == spec_digit_char(d as nat),
{
    if d == 0 {
        '0'
    } else if d == 1 {
        '1'
    } else if d == 2 {
        '2'
    } else if d == 3 {
        '3'
    } else if d == 4 {
        '4'
    } else if d == 5 {
        '5'
    } else if d == 6 {
        '6'
    } else if d == 7 {
        '7'
    } else if d == 8 {
        '8'
    } else {
        '9'
    }
}

/// The lowercase hexadecimal digit character for `d`, executably.
fn hex_digit_char(d: u32) -> (r: char)
    requires
        d < 16,
    ensures
        r == spec_hex_digit_char(d as nat),
{
    if d < 10 {
        digit_char(d as u64)
    } else if d == 10 {
        'a'
    } else if d == 11 {
        'b'
    } else if d == 12 {
        'c'
    } else if d == 13 {
        'd'
    } else if d == 14 {
        'e'
    } else {
        'f'
    }
}

/// Render `n` in decimal.
pub fn u64_to_dec(n: u64) -> (r: String)
    ensures
        r@ == spec_dec_digits(n as nat),
    decreases n,
{
    if n < 10 {
        let mut s = String::new();
        push_char(&mut s, digit_char(n));
        proof {
            assert(s@ =~= spec_dec_digits(n as nat));
        }
        s
    } else {
        let mut s = u64_to_dec(n / 10);
        push_char(&mut s, digit_char(n % 10));
        proof {
            assert(s@ =~= spec_dec_digits(n as nat));
        }
        s
    }
}

/// Append the escaped body of `s` to `out`.
pub fn append_escaped(out: &mut String, s: &str)
    ensures
        final(out)@ == old(out)@ + spec_json_escape(s@),
{
    let len = s.unicode_len();
    let mut i: usize = 0;
    proof {
        assert(out@ =~= old(out)@ + spec_json_escape(s@.subrange(0, 0)));
    }
    while i < len
        invariant
            i <= len,
            len == s@.len(),
            out@ == old(out)@ + spec_json_escape(s@.subrange(0, i as int)),
        decreases len - i,
    {
        let c = s.get_char(i);
        if c == '"' {
            push_char(out, '\\');
            push_char(out, '"');
        } else if c == '\\' {
            push_char(out, '\\');
            push_char(out, '\\');
        } else if c == '\u{8}' {
            push_char(out, '\\');
            push_char(out, 'b');
        } else if c == '\u{c}' {
            push_char(out, '\\');
            push_char(out, 'f');
        } else if c == '\n' {
            push_char(out, '\\');
            push_char(out, 'n');
        } else if c == '\r' {
            push_char(out, '\\');
            push_char(out, 'r');
        } else if c == '\t' {
            push_char(out, '\\');
            push_char(out, 't');
        } else if (c as u32) < 0x20 {
            let code = c as u32;
            push_char(out, '\\');
            push_char(out, 'u');
            push_char(out, '0');
            push_char(out, '0');
            push_char(out, hex_digit_char(code / 16));
            push_char(out, hex_digit_char(code % 16));
        } else {
            push_char(out, c);
        }
        proof {
            assert(out@ =~= old(out)@ + (spec_json_escape(s@.subrange(0, i as int))
                + spec_escape_char(s@[i as int])));
            assert(s@.subrange(0, i + 1) =~= s@.subrange(0, i as int).push(s@[i as int]));
            lemma_json_escape_snoc(s@.subrange(0, i as int), s@[i as int]);
        }
        i = i + 1;
    }
    proof {
        assert(s@.subrange(0, s@.len() as int) =~= s@);
    }
}

/// Append a complete JSON string literal for `s` to `out`.
pub fn append_json_string(out: &mut String, s: &str)
    ensures
        final(out)@ == old(out)@ + spec_json_string(s@),
{
    push_char(out, '"');
    append_escaped(out, s);
    push_char(out, '"');
    proof {
        assert(out@ =~= old(out)@ + spec_json_string(s@));
    }
}

} // verus!
