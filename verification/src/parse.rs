//! Schema-boundary parsing: numbers written in decimal, hexadecimal or
//! binary, bit ranges written `"[h:l]"` or `"[b]"`, and the closed set
//! of access-mode tokens.
//!
//! All schema values are parsed exactly once, here; nothing downstream
//! re-parses a string.
use vstd::prelude::*;
use vstd::string::StrSliceExecFns;
use vstd::string::StringExecFns;

verus! {

/// A defect in the schema text, fatal to the whole run.
#[derive(Clone, Copy, Debug, PartialEq, Eq, Structural)]
pub enum SchemaError {
    /// A number string matches no recognized radix grammar, or its
    /// value does not fit a machine word.
    MalformedNumber,
    /// A bit-range string is not `"[h:l]"` or `"[b]"`.
    MalformedBitRange,
    /// An access string is none of the four recognized tokens.
    UnknownAccessMode,
}

/// The digit value of `c` in the given radix, if it is a digit there.
/// Hexadecimal accepts both letter cases.
pub open spec fn spec_digit_val(c: char, base: nat) -> Option<nat> {
    let v = c as u32;
    if 48 <= v && v <= 57 && ((v - 48) as nat) < base {
        Some((v - 48) as nat)
    } else if base == 16 && 97 <= v && v <= 102 {
        Some((v - 87) as nat)
    } else if base == 16 && 65 <= v && v <= 70 {
        Some((v - 55) as nat)
    } else {
        None
    }
}

/// Whether `s` is a nonempty run of digits of the given radix.
pub open spec fn is_digits(s: Seq<char>, base: nat) -> bool {
    s.len() > 0 && forall|i: int| 0 <= i < s.len() ==> spec_digit_val(s[i], base) is Some
}

/// The number a digit run denotes, most significant digit first.
/// A non-digit counts as zero; `is_digits` rules that case out.
pub open spec fn digits_val(s: Seq<char>, base: nat) -> nat
    decreases s.len(),
{
    if s.len() == 0 {
        0
    } else {
        digits_val(s.drop_last(), base) * base + match spec_digit_val(s.last(), base) {
            Some(d) => d,
            None => 0,
        }
    }
}

/// A digit run denotes at least what any of its prefixes denotes.
pub proof fn lemma_digits_val_prefix_le(s: Seq<char>, k: int, base: nat)
    requires
        0 <= k <= s.len(),
        base >= 1,
    ensures
        digits_val(s.take(k), base) <= digits_val(s, base),
    decreases s.len() - k,
{
    if k < s.len() {
        lemma_digits_val_prefix_le(s.drop_last(), k, base);
        assert(s.drop_last().take(k) =~= s.take(k));
        let front = digits_val(s.drop_last(), base);
        assert(front * base >= front * 1) by (nonlinear_arith)
            requires
                base >= 1,
                front >= 0,
        ;
    } else {
        assert(s.take(k) =~= s);
    }
}

/// Exact digit recognition for the radices the schema grammar allows.
pub fn digit_of_char(c: char, base: u32) -> (r: Option<u32>)
    requires
        base == 2 || base == 10 || base == 16,
    ensures
        match r {
            Some(d) => spec_digit_val(c, base as nat) == Some(d as nat),
            None => spec_digit_val(c, base as nat) is None,
        },
{
    let v = c as u32;
    if 48 <= v && v <= 57 && (v - 48) < base {
        Some(v - 48)
    } else if base == 16 && 97 <= v && v <= 102 {
        Some(v - 87)
    } else if base == 16 && 65 <= v && v <= 70 {
        Some(v - 55)
    } else {
        None
    }
}

/// Parses the digit run `s[from..to]` in the given radix.
///
/// Returns the denoted value exactly when the run is nonempty, every
/// character is a digit of the radix, and the value fits a machine
/// word; `MalformedNumber` otherwise.
pub fn parse_digits(s: &str, from: usize, to: usize, base: u32) -> (r: Result<
    usize,
    SchemaError,
>)
    requires
        from <= to <= s@.len(),
        base == 2 || base == 10 || base == 16,
    ensures
        match r {
            Ok(n) => is_digits(s@.subrange(from as int, to as int), base as nat) && n as nat
                == digits_val(s@.subrange(from as int, to as int), base as nat),
            Err(e) => e == SchemaError::MalformedNumber && !(is_digits(
                s@.subrange(from as int, to as int),
                base as nat,
            ) && digits_val(s@.subrange(from as int, to as int), base as nat) <= usize::MAX),
        },
{
    let ghost whole = s@.subrange(from as int, to as int);
    if from == to {
        return Err(SchemaError::MalformedNumber);
    }
    let mut acc: usize = 0;
    let mut i: usize = from;
    while i < to
        invariant
            from <= i <= to <= s@.len(),
            base == 2 || base == 10 || base == 16,
            whole == s@.subrange(from as int, to as int),
            forall|j: int|
                from <= j < i ==> spec_digit_val(s@[j], base as nat) is Some,
            acc as nat == digits_val(s@.subrange(from as int, i as int), base as nat),
        decreases to - i,
    {
        let ghost prefix = s@.subrange(from as int, i as int);
        let c = s.get_char(i);
        let d_opt = digit_of_char(c, base);
        proof {
            assert(s@.subrange(from as int, i + 1).drop_last() =~= prefix);
            assert(s@.subrange(from as int, i + 1).last() == s@[i as int]);
        }
        match d_opt {
            None => {
                proof {
                    assert(whole[i - from] == s@[i as int]);
                }
                return Err(SchemaError::MalformedNumber);
            },
            Some(d) => {
                let stepped = match acc.checked_mul(base as usize) {
                    Some(m) => m.checked_add(d as usize),
                    None => None,
                };
                match stepped {
                    None => {
                        proof {
                            let grown = s@.subrange(from as int, i + 1);
                            assert(digits_val(grown, base as nat) == acc as nat * base + d);
                            assert(digits_val(grown, base as nat) > usize::MAX) by (nonlinear_arith)
                                requires
                                    digits_val(grown, base as nat) == acc as nat * base + d,
                                    acc as nat * (base as nat) + d > usize::MAX,
                            ;
                            assert(grown =~= whole.take(i + 1 - from));
                            lemma_digits_val_prefix_le(whole, i + 1 - from, base as nat);
                        }
                        return Err(SchemaError::MalformedNumber);
                    },
                    Some(x) => {
                        acc = x;
                    },
                }
            },
        }
        i = i + 1;
    }
    proof {
        assert(s@.subrange(from as int, i as int) =~= whole);
        assert(forall|j: int| 0 <= j < whole.len() ==> whole[j] == s@[from + j]);
    }
    Ok(acc)
}

/// Whether `s` opens with the radix marker `0` followed by `c`.
pub open spec fn has_radix_prefix(s: Seq<char>, c: char) -> bool {
    s.len() >= 2 && s[0] == '0' && s[1] == c
}

/// The digit run of a radix-prefixed string: everything after the
/// marker when one is present, the whole string otherwise.
pub open spec fn radix_body(s: Seq<char>, c: char) -> Seq<char> {
    if has_radix_prefix(s, c) {
        s.skip(2)
    } else {
        s
    }
}

/// Whether a digit run parses in the given radix to a value that fits
/// a machine word.
pub open spec fn radix_ok(s: Seq<char>, base: nat) -> bool {
    is_digits(s, base) && digits_val(s, base) <= usize::MAX
}

/// The number a schema string denotes: `0x` opens hexadecimal, `0b`
/// opens binary, anything else must be decimal.
pub open spec fn spec_parse_num(s: Seq<char>) -> Option<nat> {
    if has_radix_prefix(s, 'x') {
        if is_digits(s.skip(2), 16) {
            Some(digits_val(s.skip(2), 16))
        } else {
            None
        }
    } else if has_radix_prefix(s, 'b') {
        if is_digits(s.skip(2), 2) {
            Some(digits_val(s.skip(2), 2))
        } else {
            None
        }
    } else {
        if is_digits(s, 10) {
            Some(digits_val(s, 10))
        } else {
            None
        }
    }
}

/// Checks for the two-character radix marker `0` then `c`.
fn has_radix_prefix_exec(s: &str, c: char) -> (r: bool)
    ensures
        r == has_radix_prefix(s@, c),
{
    if s.unicode_len() >= 2 {
        let c0 = s.get_char(0);
        let c1 = s.get_char(1);
        c0 == '0' && c1 == c
    } else {
        false
    }
}

/// Parses a hexadecimal string, with or without its `0x` marker.
pub fn parse_hex_string(hex_string: &str) -> (r: Result<usize, SchemaError>)
    ensures
        match r {
            Ok(n) => radix_ok(radix_body(hex_string@, 'x'), 16) && n as nat == digits_val(
                radix_body(hex_string@, 'x'),
                16,
            ),
            Err(e) => e == SchemaError::MalformedNumber && !radix_ok(
                radix_body(hex_string@, 'x'),
                16,
            ),
        },
{
    let len = hex_string.unicode_len();
    proof {
        assert(hex_string@.subrange(2, len as int) =~= hex_string@.skip(2));
        assert(hex_string@.subrange(0, len as int) =~= hex_string@);
    }
    if has_radix_prefix_exec(hex_string, 'x') {
        parse_digits(hex_string, 2, len, 16)
    } else {
        parse_digits(hex_string, 0, len, 16)
    }
}

/// Parses a binary string, with or without its `0b` marker.
pub fn parse_bin_string(bin_string: &str) -> (r: Result<usize, SchemaError>)
    ensures
        match r {
            Ok(n) => radix_ok(radix_body(bin_string@, 'b'), 2) && n as nat == digits_val(
                radix_body(bin_string@, 'b'),
                2,
            ),
            Err(e) => e == SchemaError::MalformedNumber && !radix_ok(
                radix_body(bin_string@, 'b'),
                2,
            ),
        },
{
    let len = bin_string.unicode_len();
    proof {
        assert(bin_string@.subrange(2, len as int) =~= bin_string@.skip(2));
        assert(bin_string@.subrange(0, len as int) =~= bin_string@);
    }
    if has_radix_prefix_exec(bin_string, 'b') {
        parse_digits(bin_string, 2, len, 2)
    } else {
        parse_digits(bin_string, 0, len, 2)
    }
}

/// Parses a decimal string.
pub fn parse_dec_string(dec_string: &str) -> (r: Result<usize, SchemaError>)
    ensures
        match r {
            Ok(n) => radix_ok(dec_string@, 10) && n as nat == digits_val(dec_string@, 10),
            Err(e) => e == SchemaError::MalformedNumber && !radix_ok(dec_string@, 10),
        },
{
    let len = dec_string.unicode_len();
    proof {
        assert(dec_string@.subrange(0, len as int) =~= dec_string@);
    }
    parse_digits(dec_string, 0, len, 10)
}

/// Parses a schema number string of any of the three radix grammars,
/// dispatching on the `0x` / `0b` marker.
pub fn parse_num_string(num_string: &str) -> (r: Result<usize, SchemaError>)
    ensures
        match r {
            Ok(n) => spec_parse_num(num_string@) == Some(n as nat),
            Err(e) => e == SchemaError::MalformedNumber && (spec_parse_num(num_string@) is None
                || spec_parse_num(num_string@).unwrap() > usize::MAX),
        },
{
    let len = num_string.unicode_len();
    proof {
        assert(num_string@.subrange(2, len as int) =~= num_string@.skip(2));
        assert(num_string@.subrange(0, len as int) =~= num_string@);
    }
    if has_radix_prefix_exec(num_string, 'x') {
        parse_digits(num_string, 2, len, 16)
    } else if has_radix_prefix_exec(num_string, 'b') {
        parse_digits(num_string, 2, len, 2)
    } else {
        parse_digits(num_string, 0, len, 10)
    }
}

/// The character that renders the digit `d`, lower case for the
/// hexadecimal letters.
pub open spec fn spec_digit_char(d: nat) -> char {
    if d == 0 {
        '0'
    } else if d == 1 {
        '1'
    } else if d == 2 {
        '2'
    } else if d == 3 {
        '3'
    } else if d == 4 {
        '4'
    } else if d == 5 {
        '5'
    } else if d == 6 {
        '6'
    } else if d == 7 {
        '7'
    } else if d == 8 {
        '8'
    } else if d == 9 {
        '9'
    } else if d == 10 {
        'a'
    } else if d == 11 {
        'b'
    } else if d == 12 {
        'c'
    } else if d == 13 {
        'd'
    } else if d == 14 {
        'e'
    } else {
        'f'
    }
}

/// The digit run that renders `n` in the given radix, most significant
/// digit first, without leading zeros (a lone zero for `n == 0`).
pub open spec fn spec_render_digits(n: nat, base: nat) -> Seq<char>
    decreases n,
    when base >= 2
    via spec_render_digits_decreases
{
    if n < base {
        seq![spec_digit_char(n)]
    } else {
        spec_render_digits(n / base, base).push(spec_digit_char(n % base))
    }
}

#[via_fn]
proof fn spec_render_digits_decreases(n: nat, base: nat) {
    assert(n >= base ==> n / base < n) by (nonlinear_arith)
        requires
            base >= 2,
    ;
}

/// Rendering a digit and reading it back is the identity, in every
/// radix the schema grammar allows.
proof fn lemma_digit_char_val(d: nat, base: nat)
    requires
        d < base,
        base == 2 || base == 10 || base == 16,
    ensures
        spec_digit_val(spec_digit_char(d), base) == Some(d),
{
}

/// What a rendered digit run denotes is the number it was rendered
/// from, in every radix the schema grammar allows.
pub proof fn lemma_render_digits_val(n: nat, base: nat)
    requires
        base == 2 || base == 10 || base == 16,
    ensures
        is_digits(spec_render_digits(n, base), base),
        digits_val(spec_render_digits(n, base), base) == n,
    decreases n,
{
    if n < base {
        let s = seq![spec_digit_char(n)];
        lemma_digit_char_val(n, base);
        assert(s.len() == 1);
        assert(s.last() == spec_digit_char(n));
        assert(spec_digit_val(s.last(), base) == Some(n));
        assert(s.drop_last() =~= Seq::<char>::empty());
        assert(digits_val(s.drop_last(), base) == 0);
        assert(digits_val(s, base) == 0 * base + n);
        assert(digits_val(s, base) == n);
    } else {
        assert(n / base < n) by (nonlinear_arith)
            requires
                n >= base,
                base >= 2,
        ;
        lemma_render_digits_val(n / base, base);
        let front = spec_render_digits(n / base, base);
        let s = front.push(spec_digit_char(n % base));
        assert(n % base < base) by (nonlinear_arith)
            requires
                base >= 2,
        ;
        lemma_digit_char_val(n % base, base);
        assert(s.drop_last() =~= front);
        assert(s.last() == spec_digit_char(n % base));
        assert(digits_val(s, base) == (n / base) * base + n % base);
        assert((n / base) * base + n % base == n) by (nonlinear_arith)
            requires
                base >= 2,
        ;
        assert(forall|i: int|
            0 <= i < s.len() - 1 ==> s[i] == front[i]);
    }
}

/// The string slice that renders the digit `d`.
fn digit_str(d: usize) -> (r: &'static str)
    requires
        d < 16,
    ensures
        r@ == seq![spec_digit_char(d as nat)],
{
    if d == 0 {
        proof {
            reveal_strlit("0");
            assert("0"@ =~= seq![spec_digit_char(0)]);
        }
        "0"
    } else if d == 1 {
        proof {
            reveal_strlit("1");
            assert("1"@ =~= seq![spec_digit_char(1)]);
        }
        "1"
    } else if d == 2 {
        proof {
            reveal_strlit("2");
            assert("2"@ =~= seq![spec_digit_char(2)]);
        }
        "2"
    } else if d == 3 {
        proof {
            reveal_strlit("3");
            assert("3"@ =~= seq![spec_digit_char(3)]);
        }
        "3"
    } else if d == 4 {
        proof {
            reveal_strlit("4");
            assert("4"@ =~= seq![spec_digit_char(4)]);
        }
        "4"
    } else if d == 5 {
        proof {
            reveal_strlit("5");
            assert("5"@ =~= seq![spec_digit_char(5)]);
        }
        "5"
    } else if d == 6 {
        proof {
            reveal_strlit("6");
            assert("6"@ =~= seq![spec_digit_char(6)]);
        }
        "6"
    } else if d == 7 {
        proof {
            reveal_strlit("7");
            assert("7"@ =~= seq![spec_digit_char(7)]);
        }
        "7"
    } else if d == 8 {
        proof {
            reveal_strlit("8");
            assert("8"@ =~= seq![spec_digit_char(8)]);
        }
        "8"
    } else if d == 9 {
        proof {
            reveal_strlit("9");
            assert("9"@ =~= seq![spec_digit_char(9)]);
        }
        "9"
    } else if d == 10 {
        proof {
            reveal_strlit("a");
            assert("a"@ =~= seq![spec_digit_char(10)]);
        }
        "a"
    } else if d == 11 {
        proof {
            reveal_strlit("b");
            assert("b"@ =~= seq![spec_digit_char(11)]);
        }
        "b"
    } else if d == 12 {
        proof {
            reveal_strlit("c");
            assert("c"@ =~= seq![spec_digit_char(12)]);
        }
        "c"
    } else if d == 13 {
        proof {
            reveal_strlit("d");
            assert("d"@ =~= seq![spec_digit_char(13)]);
        }
        "d"
    } else if d == 14 {
        proof {
            reveal_strlit("e");
            assert("e"@ =~= seq![spec_digit_char(14)]);
        }
        "e"
    } else {
        proof {
            reveal_strlit("f");
            assert("f"@ =~= seq![spec_digit_char(15)]);
        }
        "f"
    }
}

/// Renders `n` as a digit run in the given radix.
fn render_digits(n: usize, base: usize) -> (r: String)
    requires
        base == 2 || base == 10 || base == 16,
    ensures
        r@ == spec_render_digits(n as nat, base as nat),
    decreases n,
{
    if n < base {
        let s = digit_str(n);
        let owned = String::from_str(s);
        owned
    } else {
        proof {
            assert((n as nat) / (base as nat) < (n as nat)) by (nonlinear_arith)
                requires
                    n >= base,
                    base >= 2,
            ;
        }
        let mut front = render_digits(n / base, base);
        let last = digit_str(n % base);
        front.append(last);
        proof {
            assert((n / base) as nat == n as nat / base as nat);
            assert((n % base) as nat == n as nat % base as nat);
            assert(front@ =~= spec_render_digits(n as nat, base as nat));
        }
        front
    }
}

/// Renders `n` as a decimal schema string.
pub fn render_dec_string(n: usize) -> (r: String)
    ensures
        r@ == spec_render_digits(n as nat, 10),
{
    render_digits(n, 10)
}

/// Renders `n` as a `0x`-prefixed hexadecimal schema string.
pub fn render_hex_string(n: usize) -> (r: String)
    ensures
        r@ == seq!['0', 'x'] + spec_render_digits(n as nat, 16),
{
    let mut s = String::from_str("0x");
    let digits = render_digits(n, 16);
    s.append(digits.as_str());
    proof {
        reveal_strlit("0x");
        assert("0x"@ =~= seq!['0', 'x']);
    }
    s
}

/// Renders `n` as a `0b`-prefixed binary schema string.
pub fn render_bin_string(n: usize) -> (r: String)
    ensures
        r@ == seq!['0', 'b'] + spec_render_digits(n as nat, 2),
{
    let mut s = String::from_str("0b");
    let digits = render_digits(n, 2);
    s.append(digits.as_str());
    proof {
        reveal_strlit("0b");
        assert("0b"@ =~= seq!['0', 'b']);
    }
    s
}

/// Rendering a number and parsing the rendered string returns the
/// number, for each of the three radix grammars.
pub proof fn lemma_parse_render_roundtrip(n: usize)
    ensures
        spec_parse_num(seq!['0', 'x'] + spec_render_digits(n as nat, 16)) == Some(n as nat),
        spec_parse_num(seq!['0', 'b'] + spec_render_digits(n as nat, 2)) == Some(n as nat),
        spec_parse_num(spec_render_digits(n as nat, 10)) == Some(n as nat),
{
    lemma_render_digits_val(n as nat, 16);
    let hex = seq!['0', 'x'] + spec_render_digits(n as nat, 16);
    assert(has_radix_prefix(hex, 'x'));
    assert(hex.skip(2) =~= spec_render_digits(n as nat, 16));

    lemma_render_digits_val(n as nat, 2);
    let bin = seq!['0', 'b'] + spec_render_digits(n as nat, 2);
    assert(has_radix_prefix(bin, 'b'));
    assert(bin.skip(2) =~= spec_render_digits(n as nat, 2));

    lemma_render_digits_val(n as nat, 10);
    let dec = spec_render_digits(n as nat, 10);
    if dec.len() >= 2 {
        assert(spec_digit_val(dec[1], 10) is Some);
        assert(dec[1] != 'x' && dec[1] != 'b');
    }
}

/// A field's place in its register: one bit, or an inclusive span
/// written high bit first.
#[derive(Clone, Copy, Debug, PartialEq, Eq, Structural)]
pub enum BitRange {
    Single(usize),
    Range(usize, usize),
}

/// No character of `s[from..to]` is a colon.
pub open spec fn colon_free(s: Seq<char>, from: int, to: int) -> bool {
    forall|i: int| from <= i < to ==> s[i] != ':'
}

/// The index of the first colon of `s`, or `s.len()` when there is
/// none.
pub open spec fn first_colon(s: Seq<char>) -> int
    decreases s.len(),
{
    if s.len() == 0 {
        0
    } else if s[0] == ':' {
        0
    } else {
        1 + first_colon(s.skip(1))
    }
}

/// A pointwise scan determines `first_colon`.
proof fn lemma_first_colon(s: Seq<char>, k: int)
    requires
        0 <= k <= s.len(),
        colon_free(s, 0, k),
        k < s.len() ==> s[k] == ':',
    ensures
        first_colon(s) == k,
    decreases s.len(),
{
    if s.len() > 0 && s[0] != ':' {
        assert(colon_free(s.skip(1), 0, k - 1));
        lemma_first_colon(s.skip(1), k - 1);
    }
}

/// The bit range a schema string denotes: a bracketed decimal bit
/// index, or a bracketed colon-separated pair of decimal bit indices.
pub open spec fn spec_bit_range(s: Seq<char>) -> Option<BitRange> {
    if s.len() >= 2 && s.first() == '[' && s.last() == ']' {
        let core = s.subrange(1, s.len() - 1);
        let k = first_colon(core);
        if k == core.len() {
            if radix_ok(core, 10) {
                Some(BitRange::Single(digits_val(core, 10) as usize))
            } else {
                None
            }
        } else {
            let left = core.take(k);
            let right = core.skip(k + 1);
            if colon_free(core, k + 1, core.len() as int) && radix_ok(left, 10) && radix_ok(right, 10) {
                Some(
                    BitRange::Range(
                        digits_val(left, 10) as usize,
                        digits_val(right, 10) as usize,
                    ),
                )
            } else {
                None
            }
        }
    } else {
        None
    }
}

impl BitRange {
    /// Parses a schema bit-range string: `"[h:l]"` or `"[b]"`, with
    /// decimal bit indices. Anything else is `MalformedBitRange`.
    pub fn from_string(bit_range: &str) -> (r: Result<BitRange, SchemaError>)
        ensures
            match r {
                Ok(br) => spec_bit_range(bit_range@) == Some(br),
                Err(e) => e == SchemaError::MalformedBitRange && spec_bit_range(
                    bit_range@,
                ) is None,
            },
    {
        let len = bit_range.unicode_len();
        if len < 2 {
            return Err(SchemaError::MalformedBitRange);
        }
        let c0 = bit_range.get_char(0);
        let cl = bit_range.get_char(len - 1);
        if c0 != '[' || cl != ']' {
            return Err(SchemaError::MalformedBitRange);
        }
        let ghost core = bit_range@.subrange(1, len - 1);

        // Find the first colon between the brackets, if any.
        let mut i: usize = 1;
        let mut colon_at: usize = 0;
        let mut found: bool = false;
        while i < len - 1 && !found
            invariant
                1 <= i <= len - 1,
                len == bit_range@.len(),
                len >= 2,
                bit_range@[0] == '[',
                bit_range@[len - 1] == ']',
                core == bit_range@.subrange(1, len - 1),
                !found ==> colon_free(bit_range@, 1, i as int),
                found ==> 1 <= colon_at < len - 1 && bit_range@[colon_at as int] == ':'
                    && colon_free(bit_range@, 1, colon_at as int),
            decreases len - 1 - i + (if found { 0int } else { 1int }),
        {
            let c = bit_range.get_char(i);
            if c == ':' {
                colon_at = i;
                found = true;
            } else {
                i = i + 1;
            }
        }
        proof {
            assert(forall|j: int| 0 <= j < core.len() ==> core[j] == bit_range@[1 + j]);
        }
        if !found {
            proof {
                lemma_first_colon(core, core.len() as int);
            }
            match parse_digits(bit_range, 1, len - 1, 10) {
                Ok(b) => {
                    return Ok(BitRange::Single(b));
                },
                Err(_) => {
                    return Err(SchemaError::MalformedBitRange);
                },
            }
        }
        proof {
            lemma_first_colon(core, colon_at - 1);
        }

        // Any further colon makes a third part, which the grammar
        // rejects.
        let mut j: usize = colon_at + 1;
        while j < len - 1
            invariant
                colon_at + 1 <= j <= len - 1,
                len == bit_range@.len(),
                len >= 2,
                bit_range@[0] == '[',
                bit_range@[len - 1] == ']',
                core == bit_range@.subrange(1, len - 1),
                1 <= colon_at < len - 1,
                bit_range@[colon_at as int] == ':',
                first_colon(core) == colon_at - 1,
                forall|t: int| 0 <= t < core.len() ==> core[t] == bit_range@[1 + t],
                colon_free(bit_range@, colon_at + 1, j as int),
            decreases len - 1 - j,
        {
            let c = bit_range.get_char(j);
            if c == ':' {
                proof {
                    assert(core[j - 1] == ':');
                    assert(!colon_free(core, colon_at as int, core.len() as int));
                }
                return Err(SchemaError::MalformedBitRange);
            }
            j = j + 1;
        }
        let left = parse_digits(bit_range, 1, colon_at, 10);
        let right = parse_digits(bit_range, colon_at + 1, len - 1, 10);
        proof {
            assert(core.take(colon_at - 1) =~= bit_range@.subrange(1, colon_at as int));
            assert(core.skip(colon_at as int) =~= bit_range@.subrange(colon_at + 1, len - 1));
        }
        match (left, right) {
            (Ok(h), Ok(l)) => Ok(BitRange::Range(h, l)),
            _ => Err(SchemaError::MalformedBitRange),
        }
    }

    /// The normalized `(low, high)` pair of the range.
    pub open spec fn spec_normalized(self) -> (usize, usize) {
        match self {
            BitRange::Single(b) => (b, b),
            BitRange::Range(a, b) => if a <= b {
                (a, b)
            } else {
                (b, a)
            },
        }
    }

    /// Normalizes to `(low, high)` with `low <= high`, whichever order
    /// the schema wrote the span in.
    pub fn get_bit_range(&self) -> (r: (usize, usize))
        ensures
            r == self.spec_normalized(),
            r.0 <= r.1,
    {
        match *self {
            BitRange::Single(b) => (b, b),
            BitRange::Range(a, b) => if a <= b {
                (a, b)
            } else {
                (b, a)
            },
        }
    }

    /// Whether the range covers exactly one bit.
    pub fn is_single_bit(&self) -> (r: bool)
        ensures
            r == (self.spec_normalized().0 == self.spec_normalized().1),
    {
        match *self {
            BitRange::Single(_) => true,
            BitRange::Range(a, b) => a == b,
        }
    }

    /// The number of bits the range covers.
    pub fn width(&self) -> (r: usize)
        requires
            self.spec_normalized().1 < usize::MAX,
        ensures
            r == self.spec_normalized().1 - self.spec_normalized().0 + 1,
    {
        let (low, high) = self.get_bit_range();
        high - low + 1
    }
}

/// Character-wise string equality.
fn str_eq(a: &str, b: &str) -> (r: bool)
    ensures
        r == (a@ == b@),
{
    let la = a.unicode_len();
    let lb = b.unicode_len();
    if la != lb {
        return false;
    }
    let mut i: usize = 0;
    while i < la
        invariant
            0 <= i <= la,
            la == a@.len(),
            la == b@.len(),
            forall|j: int| 0 <= j < i ==> a@[j] == b@[j],
        decreases la - i,
    {
        let ca = a.get_char(i);
        let cb = b.get_char(i);
        if ca != cb {
            return false;
        }
        i = i + 1;
    }
    proof {
        assert(a@ =~= b@);
    }
    true
}

/// The read/write capability contract of a register or field.
#[derive(Clone, Copy, Debug, PartialEq, Eq, Structural)]
pub enum Access {
    ReadOnly,
    WriteOnly,
    ReadWrite,
    WriteToClear,
}

impl Access {
    /// Parses an access-mode token. Exactly four tokens are
    /// recognized, case-sensitively; anything else is
    /// `UnknownAccessMode`.
    pub fn from_string(access: &str) -> (r: Result<Access, SchemaError>)
        ensures
            access@ == "read-only"@ ==> r == Ok::<Access, SchemaError>(Access::ReadOnly),
            access@ == "write-only"@ ==> r == Ok::<Access, SchemaError>(Access::WriteOnly),
            access@ == "read-write"@ ==> r == Ok::<Access, SchemaError>(Access::ReadWrite),
            access@ == "write-to-clear"@ ==> r == Ok::<Access, SchemaError>(Access::WriteToClear),
            access@ != "read-only"@ && access@ != "write-only"@ && access@ != "read-write"@
                && access@ != "write-to-clear"@ ==> r == Err::<Access, SchemaError>(SchemaError::UnknownAccessMode),
    {
        proof {
            reveal_strlit("read-only");
            reveal_strlit("write-only");
            reveal_strlit("read-write");
            reveal_strlit("write-to-clear");
            assert("read-only"@.len() == 9);
            assert("write-only"@.len() == 10);
            assert("read-write"@.len() == 10);
            assert("write-to-clear"@.len() == 14);
            assert("write-only"@[0] == 'w' && "read-write"@[0] == 'r');
        }
        if str_eq(access, "read-only") {
            Ok(Access::ReadOnly)
        } else if str_eq(access, "write-only") {
            Ok(Access::WriteOnly)
        } else if str_eq(access, "read-write") {
            Ok(Access::ReadWrite)
        } else if str_eq(access, "write-to-clear") {
            Ok(Access::WriteToClear)
        } else {
            Err(SchemaError::UnknownAccessMode)
        }
    }

    /// Whether the mode grants read capability.
    pub open spec fn spec_can_read(self) -> bool {
        match self {
            Access::WriteOnly => false,
            _ => true,
        }
    }

    /// Whether the mode grants read capability.
    pub fn can_read(&self) -> (r: bool)
        ensures
            r == self.spec_can_read(),
    {
        match *self {
            Access::WriteOnly => false,
            _ => true,
        }
    }

    /// Whether the mode grants write capability.
    pub open spec fn spec_can_write(self) -> bool {
        match self {
            Access::ReadOnly => false,
            _ => true,
        }
    }

    /// Whether the mode grants write capability.
    pub fn can_write(&self) -> (r: bool)
        ensures
            r == self.spec_can_write(),
    {
        match *self {
            Access::ReadOnly => false,
            _ => true,
        }
    }
}

} // verus!
