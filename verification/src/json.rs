//! JSON rendering of registry data.
//!
//! Every response body the presentation layer produces is specified
//! character by character: strings are escaped as JSON demands, numbers
//! are printed in decimal, and records and record lists are laid out in
//! a fixed field order. The spec functions here are the single source of
//! truth for what each body looks like.

use vstd::prelude::*;
use crate::registry::User;

verus! {

/// The hexadecimal digit character for a value below 16, lower case.
pub open spec fn hex_digit(d: int) -> char {
    if d == 0 {
        '0'
    } else if d == 1 {
        '1'
    } else if d == 2 {
        '2'
    } else if d == 3 {
        '3'
    } else if d == 4 {
        '4'
    } else if d == 5 {
        '5'
    } else if d == 6 {
        '6'
    } else if d == 7 {
        '7'
    } else if d == 8 {
        '8'
    } else if d == 9 {
        '9'
    } else if d == 10 {
        'a'
    } else if d == 11 {
        'b'
    } else if d == 12 {
        'c'
    } else if d == 13 {
        'd'
    } else if d == 14 {
        'e'
    } else {
        'f'
    }
}

/// The decimal digit character for a value below 10.
pub open spec fn digit_char(d: int) -> char {
    hex_digit(if 0 <= d < 10 {
        d
    } else {
        0
    })
}

/// How one character appears inside a JSON string literal: quote and
/// backslash are escaped, the common control characters get their short
/// escapes, the remaining control characters a `\u00..` escape, and
/// everything else stands as itself.
pub open spec fn escaped_char(c: char) -> Seq<char> {
    if c == '"' {
        seq!['\\', '"']
    } else if c == '\\' {
        seq!['\\', '\\']
    } else if c == '\n' {
        seq!['\\', 'n']
    } else if c == '\r' {
        seq!['\\', 'r']
    } else if c == '\t' {
        seq!['\\', 't']
    } else if (c as u32) < 0x20 {
        seq!['\\', 'u', '0', '0', hex_digit((c as u32) as int / 16), hex_digit((c as u32) as int % 16)]
    } else {
        seq![c]
    }
}

/// A character sequence escaped for use inside a JSON string literal.
pub open spec fn escaped(s: Seq<char>) -> Seq<char>
    decreases s.len(),
{
    if s.len() == 0 {
        Seq::empty()
    } else {
        escaped(s.drop_last()) + escaped_char(s.last())
    }
}

/// A JSON string literal: the escaped contents between double quotes.
pub open spec fn quoted(s: Seq<char>) -> Seq<char> {
    seq!['"'] + escaped(s) + seq!['"']
}

/// The decimal rendering of a natural number, most significant digit
/// first, no leading zeros (zero itself prints as "0").
pub open spec fn decimal(n: nat) -> Seq<char>
    decreases n,
{
    if n < 10 {
        seq![digit_char(n as int)]
    } else {
        decimal(n / 10) + seq![digit_char((n % 10) as int)]
    }
}

/// The JSON value for an optional bio: the string literal when present,
/// `null` when absent. An absent bio is never rendered as an empty
/// string.
pub open spec fn bio_json(b: Option<String>) -> Seq<char> {
    match b {
        Option::None => "null"@,
        Option::Some(s) => quoted(s@),
    }
}

/// The JSON object for one user record: fields in the order id,
/// username, email, bio.
pub open spec fn user_json(u: User) -> Seq<char> {
    "{\"id\":"@ + decimal(u.id as nat) + ",\"username\":"@ + quoted(u.username@) + ",\"email\":"@
        + quoted(u.email@) + ",\"bio\":"@ + bio_json(u.bio) + seq!['}']
}

/// The comma-separated JSON objects of a record sequence, in order.
pub open spec fn users_json_items(s: Seq<User>) -> Seq<char>
    decreases s.len(),
{
    if s.len() == 0 {
        Seq::empty()
    } else if s.len() == 1 {
        user_json(s[0])
    } else {
        users_json_items(s.drop_last()) + seq![','] + user_json(s.last())
    }
}

/// The JSON array of a record sequence, in order.
pub open spec fn users_json(s: Seq<User>) -> Seq<char> {
    seq!['['] + users_json_items(s) + seq![']']
}

/// Law used while escaping a string left to right: extending the input
/// by one character extends the escaped output by that character's
/// escape sequence.
proof fn lemma_escaped_snoc(s: Seq<char>, j: int)
    requires
        0 <= j < s.len(),
    ensures
        escaped(s.take(j + 1)) == escaped(s.take(j)) + escaped_char(s[j]),
{
    assert(s.take(j + 1).drop_last() =~= s.take(j));
    assert(s.take(j + 1).last() == s[j]);
}

/// Relies on `String`'s `FromIterator<char>` implementation (std):
/// collecting characters yields the string of exactly those characters,
/// in order.
#[verifier::external_body]
fn chars_to_string(v: Vec<char>) -> (r: String)
    ensures
        r@ == v@,
{
    String::from_iter(v)
}

/// Appends every character of `s` to `out`.
fn push_str_chars(out: &mut Vec<char>, s: &str)
    ensures
        final(out)@ == old(out)@ + s@,
{
    let n = s.unicode_len();
    let mut i: usize = 0;
    while i < n
        invariant
            i <= n,
            n == s@.len(),
            out@ == old(out)@ + s@.take(i as int),
        decreases n - i,
    {
        out.push(s.get_char(i));
        proof {
            assert(s@.take(i + 1) =~= s@.take(i as int).push(s@[i as int]));
            assert(out@ =~= old(out)@ + s@.take(i + 1));
        }
        i = i + 1;
    }
    proof {
        assert(s@.take(n as int) =~= s@);
    }
}

/// The decimal digit character for a value below 10.
fn digit_char_exec(d: u32) -> (c: char)
    requires
        d < 10,
    ensures
        c == digit_char(d as int),
{
    if d == 0 {
        '0'
    } else if d == 1 {
        '1'
    } else if d == 2 {
        '2'
    } else if d == 3 {
        '3'
    } else if d == 4 {
        '4'
    } else if d == 5 {
        '5'
    } else if d == 6 {
        '6'
    } else if d == 7 {
        '7'
    } else if d == 8 {
        '8'
    } else {
        '9'
    }
}

/// The hexadecimal digit character for a value below 16, lower case.
fn hex_digit_exec(d: u32) -> (c: char)
    requires
        d < 16,
    ensures
        c == hex_digit(d as int),
{
    if d < 10 {
        digit_char_exec(d)
    } else if d == 10 {
        'a'
    } else if d == 11 {
        'b'
    } else if d == 12 {
        'c'
    } else if d == 13 {
        'd'
    } else if d == 14 {
        'e'
    } else {
        'f'
    }
}

/// Appends the escape of one character to `out`.
fn push_escaped_char(out: &mut Vec<char>, c: char)
    ensures
        final(out)@ == old(out)@ + escaped_char(c),
{
    if c == '"' {
        out.push('\\');
        out.push('"');
    } else if c == '\\' {
        out.push('\\');
        out.push('\\');
    } else if c == '\n' {
        out.push('\\');
        out.push('n');
    } else if c == '\r' {
        out.push('\\');
        out.push('r');
    } else if c == '\t' {
        out.push('\\');
        out.push('t');
    } else if (c as u32) < 0x20 {
        out.push('\\');
        out.push('u');
        out.push('0');
        out.push('0');
        out.push(hex_digit_exec((c as u32) / 16));
        out.push(hex_digit_exec((c as u32) % 16));
    } else {
        out.push(c);
    }
    proof {
        assert(out@ =~= old(out)@ + escaped_char(c));
    }
}

/// Appends the JSON string literal for `s` — quotes and escaping
/// included — to `out`.
fn push_quoted(out: &mut Vec<char>, s: &str)
    ensures
        final(out)@ == old(out)@ + quoted(s@),
{
    out.push('"');
    let n = s.unicode_len();
    let mut i: usize = 0;
    while i < n
        invariant
            i <= n,
            n == s@.len(),
            out@ == old(out)@ + seq!['"'] + escaped(s@.take(i as int)),
        decreases n - i,
    {
        push_escaped_char(out, s.get_char(i));
        proof {
            lemma_escaped_snoc(s@, i as int);
            assert(out@ =~= old(out)@ + seq!['"'] + escaped(s@.take(i + 1)));
        }
        i = i + 1;
    }
    out.push('"');
    proof {
        assert(s@.take(n as int) =~= s@);
        assert(out@ =~= old(out)@ + quoted(s@));
    }
}

/// Appends the decimal rendering of `n` to `out`.
fn push_decimal(out: &mut Vec<char>, n: u32)
    ensures
        final(out)@ == old(out)@ + decimal(n as nat),
{
    let mut digits: Vec<char> = Vec::new();
    let mut m: u32 = n;
    proof {
        assert(decimal(n as nat) =~= decimal(n as nat) + digits@);
    }
    loop
        invariant_except_break
            decimal(n as nat) == decimal(m as nat) + digits@,
        ensures
            digits@ == decimal(n as nat),
        decreases m,
    {
        let d: u32 = m % 10;
        let ghost pre = digits@;
        digits.insert(0, digit_char_exec(d));
        proof {
            assert(digits@ =~= seq![digit_char(d as int)] + pre);
        }
        m = m / 10;
        if m == 0 {
            proof {
                assert(digits@ =~= decimal(n as nat));
            }
            break;
        }
        proof {
            assert(decimal(n as nat) =~= decimal(m as nat) + digits@);
        }
    }
    let mut j: usize = 0;
    while j < digits.len()
        invariant
            j <= digits.len(),
            digits@ == decimal(n as nat),
            out@ == old(out)@ + digits@.take(j as int),
        decreases digits.len() - j,
    {
        out.push(digits[j]);
        proof {
            assert(out@ =~= old(out)@ + digits@.take(j + 1));
        }
        j = j + 1;
    }
    proof {
        assert(digits@.take(digits@.len() as int) =~= digits@);
    }
}

/// Law used while rendering a record list left to right: extending the
/// list by one record extends the rendered items by a comma (except in
/// front of the first record) and that record's object.
proof fn lemma_items_snoc(s: Seq<User>, j: int)
    requires
        0 <= j < s.len(),
    ensures
        j == 0 ==> users_json_items(s.take(1)) == user_json(s[0]),
        j > 0 ==> users_json_items(s.take(j + 1)) == users_json_items(s.take(j)) + seq![',']
            + user_json(s[j]),
{
    assert(s.take(j + 1).drop_last() =~= s.take(j));
    assert(s.take(j + 1).last() == s[j]);
    if j == 0 {
        assert(s.take(1)[0] == s[0]);
    }
}

/// Appends the JSON object for `u` to `out`.
fn push_user_json(out: &mut Vec<char>, u: &User)
    ensures
        final(out)@ == old(out)@ + user_json(*u),
{
    push_str_chars(out, "{\"id\":");
    push_decimal(out, u.id);
    push_str_chars(out, ",\"username\":");
    push_quoted(out, u.username.as_str());
    push_str_chars(out, ",\"email\":");
    push_quoted(out, u.email.as_str());
    push_str_chars(out, ",\"bio\":");
    match &u.bio {
        Option::None => push_str_chars(out, "null"),
        Option::Some(b) => push_quoted(out, b.as_str()),
    }
    out.push('}');
    proof {
        assert(out@ =~= old(out)@ + user_json(*u));
    }
}

/// Renders one user record as a JSON object.
pub fn user_to_json(u: &User) -> (r: String)
    ensures
        r@ == user_json(*u),
{
    let mut out: Vec<char> = Vec::new();
    push_user_json(&mut out, u);
    proof {
        assert(out@ =~= user_json(*u));
    }
    chars_to_string(out)
}

/// Renders a list of user records as a JSON array, in list order.
pub fn users_to_json(list: &Vec<User>) -> (r: String)
    ensures
        r@ == users_json(list@),
{
    let mut out: Vec<char> = Vec::new();
    out.push('[');
    proof {
        assert(out@ =~= seq!['['] + users_json_items(list@.take(0)));
    }
    let mut i: usize = 0;
    while i < list.len()
        invariant
            i <= list.len(),
            out@ == seq!['['] + users_json_items(list@.take(i as int)),
        decreases list.len() - i,
    {
        if i > 0 {
            out.push(',');
        }
        push_user_json(&mut out, &list[i]);
        proof {
            lemma_items_snoc(list@, i as int);
            assert(out@ =~= seq!['['] + users_json_items(list@.take(i + 1)));
        }
        i = i + 1;
    }
    out.push(']');
    proof {
        assert(list@.take(list@.len() as int) =~= list@);
        assert(out@ =~= users_json(list@));
    }
    chars_to_string(out)
}

} // verus!
