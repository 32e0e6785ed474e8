//! Rendering integers as decimal text, with optional zero padding.

use vstd::prelude::*;

verus! {

/// The decimal digit character for `d`.
pub open spec fn spec_digit_char(d: int) -> char {
    if d == 0 {
        '0'
    } else if d == 1 {
        '1'
    } else if d == 2 {
        '2'
    } else if d == 3 {
        '3'
    } else if d == 4 {
        '4'
    } else if d == 5 {
        '5'
    } else if d == 6 {
        '6'
    } else if d == 7 {
        '7'
    } else if d == 8 {
        '8'
    } else {
        '9'
    }
}

/// The decimal digits of a non-negative integer, most significant first.
pub open spec fn spec_dec_digits(n: int) -> Seq<char>
    recommends
        n >= 0,
    decreases n,
{
    if n < 10 {
        seq![spec_digit_char(n)]
    } else {
        spec_dec_digits(n / 10) + seq![spec_digit_char(n % 10)]
    }
}

/// The decimal rendering of an integer: digits, with a leading `-` when
/// negative.
pub open spec fn spec_int_str(v: int) -> Seq<char> {
    if v < 0 {
        seq!['-'] + spec_dec_digits(-v)
    } else {
        spec_dec_digits(v)
    }
}

/// `s` left-padded with `'0'` up to `width` characters.
pub open spec fn spec_zero_pad(s: Seq<char>, width: int) -> Seq<char> {
    if s.len() >= width {
        s
    } else {
        Seq::new((width - s.len()) as nat, |i: int| '0') + s
    }
}

fn digit_str(d: u64) -> (r: &'static str)
    requires
        d < 10,
    ensures
        r@ == seq![spec_digit_char(d as int)],
{
    if d == 0 {
        proof { reveal_strlit("0"); }
        assert("0"@ =~= seq![spec_digit_char(d as int)]);
        "0"
    } else if d == 1 {
        proof { reveal_strlit("1"); }
        assert("1"@ =~= seq![spec_digit_char(d as int)]);
        "1"
    } else if d == 2 {
        proof { reveal_strlit("2"); }
        assert("2"@ =~= seq![spec_digit_char(d as int)]);
        "2"
    } else if d == 3 {
        proof { reveal_strlit("3"); }
        assert("3"@ =~= seq![spec_digit_char(d as int)]);
        "3"
    } else if d == 4 {
        proof { reveal_strlit("4"); }
        assert("4"@ =~= seq![spec_digit_char(d as int)]);
        "4"
    } else if d == 5 {
        proof { reveal_strlit("5"); }
        assert("5"@ =~= seq![spec_digit_char(d as int)]);
        "5"
    } else if d == 6 {
        proof { reveal_strlit("6"); }
        assert("6"@ =~= seq![spec_digit_char(d as int)]);
        "6"
    } else if d == 7 {
        proof { reveal_strlit("7"); }
        assert("7"@ =~= seq![spec_digit_char(d as int)]);
        "7"
    } else if d == 8 {
        proof { reveal_strlit("8"); }
        assert("8"@ =~= seq![spec_digit_char(d as int)]);
        "8"
    } else {
        proof { reveal_strlit("9"); }
        assert("9"@ =~= seq![spec_digit_char(d as int)]);
        "9"
    }
}

/// Render a `u64` in decimal.
pub fn u64_to_string(n: u64) -> (r: String)
    ensures
        r@ == spec_dec_digits(n as int),
    decreases n,
{
    if n < 10 {
        digit_str(n).to_owned()
    } else {
        let prefix = u64_to_string(n / 10);
        prefix.concat(digit_str(n % 10))
    }
}

/// Render a `u128` in decimal.
pub fn u128_to_string(n: u128) -> (r: String)
    ensures
        r@ == spec_dec_digits(n as int),
    decreases n,
{
    if n < 10 {
        digit_str(n as u64).to_owned()
    } else {
        let prefix = u128_to_string(n / 10);
        prefix.concat(digit_str((n % 10) as u64))
    }
}

/// Render an `i64` in decimal, with a leading `-` when negative.
pub fn i64_to_string(n: i64) -> (r: String)
    ensures
        r@ == spec_int_str(n as int),
{
    if n >= 0 {
        u64_to_string(n as u64)
    } else {
        let mag: u64 = (-(n as i128)) as u64;
        proof { reveal_strlit("-"); }
        let s = "-".to_owned().concat(u64_to_string(mag).as_str());
        assert(s@ =~= seq!['-'] + spec_dec_digits(-(n as int)));
        s
    }
}

/// Render an `i128` in decimal, with a leading `-` when negative.
pub fn i128_to_string(n: i128) -> (r: String)
    ensures
        r@ == spec_int_str(n as int),
{
    if n >= 0 {
        u128_to_string(n as u128)
    } else if n == i128::MIN {
        let mag: u128 = (i128::MAX as u128) + 1;
        proof { reveal_strlit("-"); }
        let s = "-".to_owned().concat(u128_to_string(mag).as_str());
        assert(s@ =~= seq!['-'] + spec_dec_digits(-(n as int)));
        s
    } else {
        let mag: u128 = (-n) as u128;
        proof { reveal_strlit("-"); }
        let s = "-".to_owned().concat(u128_to_string(mag).as_str());
        assert(s@ =~= seq!['-'] + spec_dec_digits(-(n as int)));
        s
    }
}

/// Left-pad `s` with `'0'` up to `width` characters.
pub fn zero_pad(s: String, width: usize) -> (r: String)
    ensures
        r@ == spec_zero_pad(s@, width as int),
{
    let len = s.as_str().unicode_len();
    if len >= width {
        return s;
    }
    let missing = width - len;
    let mut pad = String::new();
    let mut k: usize = 0;
    while k < missing
        invariant
            k <= missing,
            pad@ =~= Seq::new(k as nat, |i: int| '0'),
        decreases missing - k,
    {
        proof { reveal_strlit("0"); }
        pad.append("0");
        assert(pad@ =~= Seq::new((k + 1) as nat, |i: int| '0'));
        k += 1;
    }
    let r = pad.concat(s.as_str());
    assert(r@ =~= spec_zero_pad(s@, width as int));
    r
}

/// The views of a sequence of strings, in order.
pub open spec fn spec_str_views(ss: Seq<String>) -> Seq<Seq<char>> {
    ss.map_values(|s: String| s@)
}

/// `parts` joined by `sep`.
pub open spec fn spec_join(parts: Seq<Seq<char>>, sep: Seq<char>) -> Seq<char>
    decreases parts.len(),
{
    if parts.len() == 0 {
        Seq::<char>::empty()
    } else if parts.len() == 1 {
        parts[0]
    } else {
        parts[0] + sep + spec_join(parts.drop_first(), sep)
    }
}

/// Joining one more part appends a separator and the part.
pub proof fn lemma_join_push(parts: Seq<Seq<char>>, sep: Seq<char>, x: Seq<char>)
    requires
        parts.len() >= 1,
    ensures
        spec_join(parts.push(x), sep) == spec_join(parts, sep) + sep + x,
    decreases parts.len(),
{
    if parts.len() == 1 {
        assert(parts.push(x).drop_first() =~= seq![x]);
        assert(parts.push(x)[0] == parts[0]);
        assert(spec_join(seq![x], sep) == x);
        assert(spec_join(parts.push(x), sep) == parts[0] + sep + x);
    } else {
        assert(parts.push(x).drop_first() =~= parts.drop_first().push(x));
        lemma_join_push(parts.drop_first(), sep, x);
        assert(spec_join(parts.push(x), sep) =~= spec_join(parts, sep) + sep + x);
    }
}

/// Render a `u64` in decimal, zero-padded to `width`.
pub fn u64_to_padded_string(n: u64, width: usize) -> (r: String)
    ensures
        r@ == spec_zero_pad(spec_dec_digits(n as int), width as int),
{
    zero_pad(u64_to_string(n), width)
}

/// The value of a decimal digit character.
pub open spec fn spec_digit_val(c: char) -> int {
    if c == '0' {
        0
    } else if c == '1' {
        1
    } else if c == '2' {
        2
    } else if c == '3' {
        3
    } else if c == '4' {
        4
    } else if c == '5' {
        5
    } else if c == '6' {
        6
    } else if c == '7' {
        7
    } else if c == '8' {
        8
    } else {
        9
    }
}

/// Whether a character is a decimal digit.
pub open spec fn spec_is_digit(c: char) -> bool {
    c == '0' || c == '1' || c == '2' || c == '3' || c == '4' || c == '5' || c == '6' || c == '7'
        || c == '8' || c == '9'
}

/// The non-negative integer a digit sequence denotes.
pub open spec fn spec_parse_dec(s: Seq<char>) -> int
    decreases s.len(),
{
    if s.len() == 0 {
        0
    } else {
        spec_parse_dec(s.drop_last()) * 10 + spec_digit_val(s.last())
    }
}

/// The integer a rendered number denotes: a leading `-` negates the
/// digits after it.
pub open spec fn spec_parse_int(s: Seq<char>) -> int {
    if s.len() > 0 && s[0] == '-' {
        -spec_parse_dec(s.drop_first())
    } else {
        spec_parse_dec(s)
    }
}

/// Every character of a decimal rendering is a digit.
pub proof fn lemma_dec_digits_are_digits(n: int)
    requires
        n >= 0,
    ensures
        forall|i: int|
            0 <= i < spec_dec_digits(n).len() ==> spec_is_digit(#[trigger] spec_dec_digits(n)[i]),
    decreases n,
{
    if n < 10 {
        assert(spec_dec_digits(n)[0] == spec_digit_char(n));
    } else {
        lemma_dec_digits_are_digits(n / 10);
        let prefix = spec_dec_digits(n / 10);
        assert forall|i: int| 0 <= i < spec_dec_digits(n).len() implies spec_is_digit(
            #[trigger] spec_dec_digits(n)[i],
        ) by {
            if i < prefix.len() {
                assert(spec_dec_digits(n)[i] == prefix[i]);
            } else {
                assert(spec_dec_digits(n)[i] == spec_digit_char(n % 10));
            }
        }
    }
}

/// Round trip: parsing the decimal rendering of a non-negative integer
/// recovers the integer.
pub proof fn lemma_parse_dec_digits(n: int)
    requires
        n >= 0,
    ensures
        spec_parse_dec(spec_dec_digits(n)) == n,
    decreases n,
{
    if n < 10 {
        assert(spec_dec_digits(n) == seq![spec_digit_char(n)]);
        let s = seq![spec_digit_char(n)];
        assert(s.drop_last() =~= Seq::<char>::empty());
        assert(spec_parse_dec(Seq::<char>::empty()) == 0);
        assert(spec_parse_dec(s) == spec_digit_val(spec_digit_char(n)));
    } else {
        lemma_parse_dec_digits(n / 10);
        let prefix = spec_dec_digits(n / 10);
        let whole = spec_dec_digits(n);
        assert(whole == prefix + seq![spec_digit_char(n % 10)]);
        assert(whole.drop_last() =~= prefix);
        assert(whole.last() == spec_digit_char(n % 10));
        assert(spec_digit_val(spec_digit_char(n % 10)) == n % 10);
        assert(spec_parse_dec(whole) == (n / 10) * 10 + n % 10);
        assert((n / 10) * 10 + n % 10 == n) by {
            vstd::arithmetic::div_mod::lemma_fundamental_div_mod(n, 10);
        }
    }
}

/// Round trip: parsing the rendering of any integer recovers the
/// integer.
pub proof fn lemma_parse_int_str(v: int)
    ensures
        spec_parse_int(spec_int_str(v)) == v,
{
    if v < 0 {
        let s = spec_int_str(v);
        assert(s == seq!['-'] + spec_dec_digits(-v));
        assert(s[0] == '-');
        assert(s.drop_first() =~= spec_dec_digits(-v));
        lemma_parse_dec_digits(-v);
    } else {
        lemma_dec_digits_are_digits(v);
        let s = spec_int_str(v);
        assert(s.len() > 0) by {
            if v < 10 {
            }
        }
        assert(spec_is_digit(s[0]));
        assert(s[0] != '-');
        lemma_parse_dec_digits(v);
    }
}

} // verus!
