//! Enum synthesis: turns the declared values of a field's enumeration
//! into decode tables. Exact values map directly; a wildcard
//! bit-pattern string becomes a `(mask, fixed)` pair, computed once
//! here and never re-derived at decode time. Decoding tries exact
//! values first, then wildcard patterns, each in declaration order.
use vstd::prelude::*;
use vstd::string::StringExecFns;

use crate::parse::{has_radix_prefix, parse_num_string, spec_parse_num, SchemaError};
use crate::schema::{Enum, EnumValue, StringOrNumber, ValidationError};

verus! {

/// The synthesized encoding of one enumerated value.
#[derive(Clone, Copy, Debug, PartialEq, Eq, Structural)]
pub enum EnumEncoding {
    /// The value matches one exact raw word.
    Exact(usize),
    /// The value matches every raw word that agrees with `fixed` on
    /// the bits set in `mask`; clear mask bits are don't-care.
    Wildcard { mask: usize, fixed: usize },
}

/// A character a binary wildcard pattern may hold: a literal bit or
/// the don't-care marker.
pub open spec fn is_pattern_char(c: char) -> bool {
    c == '0' || c == '1' || c == 'X'
}

/// Whether `s` is a nonempty binary pattern body.
pub open spec fn is_pattern(s: Seq<char>) -> bool {
    s.len() > 0 && forall|i: int| 0 <= i < s.len() ==> is_pattern_char(#[trigger] s[i])
}

/// Whether the pattern body holds at least one don't-care marker.
pub open spec fn has_wildcard_char(s: Seq<char>) -> bool {
    exists|i: int| 0 <= i < s.len() && s[i] == 'X'
}

/// The mask a pattern denotes: one in every fixed position, zero in
/// every don't-care position.
pub open spec fn pattern_mask(s: Seq<char>) -> nat
    decreases s.len(),
{
    if s.len() == 0 {
        0
    } else {
        pattern_mask(s.drop_last()) * 2 + if s.last() != 'X' {
            1nat
        } else {
            0nat
        }
    }
}

/// The fixed bits a pattern denotes: the literal ones, zero in every
/// don't-care position.
pub open spec fn pattern_fixed(s: Seq<char>) -> nat
    decreases s.len(),
{
    if s.len() == 0 {
        0
    } else {
        pattern_fixed(s.drop_last()) * 2 + if s.last() == '1' {
            1nat
        } else {
            0nat
        }
    }
}

/// The fixed bits of a pattern never exceed its mask.
pub proof fn lemma_pattern_fixed_le_mask(s: Seq<char>)
    ensures
        pattern_fixed(s) <= pattern_mask(s),
    decreases s.len(),
{
    if s.len() > 0 {
        lemma_pattern_fixed_le_mask(s.drop_last());
    }
}

/// A pattern's mask is at least the mask of any of its prefixes.
pub proof fn lemma_pattern_mask_prefix_le(s: Seq<char>, k: int)
    requires
        0 <= k <= s.len(),
    ensures
        pattern_mask(s.take(k)) <= pattern_mask(s),
    decreases s.len() - k,
{
    if k < s.len() {
        lemma_pattern_mask_prefix_le(s.drop_last(), k);
        assert(s.drop_last().take(k) =~= s.take(k));
    } else {
        assert(s.take(k) =~= s);
    }
}

/// Whether a schema string is a binary wildcard pattern: a `0b`
/// marker, then only pattern characters, at least one of them the
/// don't-care marker.
pub open spec fn spec_is_wildcard_text(s: Seq<char>) -> bool {
    has_radix_prefix(s, 'b') && is_pattern(s.skip(2)) && has_wildcard_char(s.skip(2))
}

/// The encoding a schema value denotes: a number, or a numeric
/// string, gives an exact encoding; a binary wildcard pattern gives
/// its `(mask, fixed)` pair. `None` where the string parses in no
/// grammar or the value does not fit a machine word.
pub open spec fn spec_encoding(v: StringOrNumber) -> Option<EnumEncoding> {
    match v {
        StringOrNumber::Number(n) => Some(EnumEncoding::Exact(n)),
        StringOrNumber::Text(s) => if spec_is_wildcard_text(s@) {
            if pattern_mask(s@.skip(2)) <= usize::MAX {
                Some(
                    EnumEncoding::Wildcard {
                        mask: pattern_mask(s@.skip(2)) as usize,
                        fixed: pattern_fixed(s@.skip(2)) as usize,
                    },
                )
            } else {
                None
            }
        } else {
            match spec_parse_num(s@) {
                Some(n) => if n <= usize::MAX {
                    Some(EnumEncoding::Exact(n as usize))
                } else {
                    None
                },
                None => None,
            }
        },
    }
}

/// Synthesizes the encoding of one declared enum value.
#[verifier::loop_isolation(false)]
pub fn parse_enum_encoding(v: &StringOrNumber) -> (r: Result<EnumEncoding, SchemaError>)
    ensures
        match r {
            Ok(enc) => spec_encoding(*v) == Some(enc),
            Err(e) => e == SchemaError::MalformedNumber && spec_encoding(*v) is None,
        },
{
    let s = match v {
        StringOrNumber::Number(n) => {
            return Ok(EnumEncoding::Exact(*n));
        },
        StringOrNumber::Text(s) => s.as_str(),
    };
    let len = s.unicode_len();

    // Decide whether the string is a wildcard pattern; anything else
    // takes the plain numeric path.
    let mut wild = false;
    if len >= 3 {
        let c0 = s.get_char(0);
        let c1 = s.get_char(1);
        if c0 == '0' && c1 == 'b' {
            let mut ok = true;
            let mut saw_x = false;
            let mut i: usize = 2;
            while ok && i < len
                invariant
                    2 <= i <= len,
                    ok ==> forall|j: int| 2 <= j < i ==> is_pattern_char(#[trigger] s@[j]),
                    !ok ==> !is_pattern(s@.skip(2)),
                    saw_x ==> ok,
                    saw_x == (ok && exists|j: int| 2 <= j < i && s@[j] == 'X'),
                decreases len - i + (if ok { 1int } else { 0int }),
            {
                let c = s.get_char(i);
                if c == '0' || c == '1' {
                    i = i + 1;
                } else if c == 'X' {
                    saw_x = true;
                    i = i + 1;
                } else {
                    proof {
                        assert(s@.skip(2)[i - 2] == s@[i as int]);
                    }
                    ok = false;
                    saw_x = false;
                }
            }
            proof {
                if ok {
                    assert(forall|j: int|
                        0 <= j < s@.skip(2).len() ==> s@.skip(2)[j] == s@[j + 2]);
                }
                if saw_x {
                    let j = choose|j: int| 2 <= j < len && s@[j] == 'X';
                    assert(s@.skip(2)[j - 2] == 'X');
                }
            }
            wild = ok && saw_x;
            proof {
                if !wild && ok && !saw_x {
                    assert(forall|j: int|
                        0 <= j < s@.skip(2).len() ==> s@.skip(2)[j] == s@[j + 2]);
                    assert(!has_wildcard_char(s@.skip(2)));
                }
            }
        }
    }
    if !wild {
        proof {
            if len < 3 && has_radix_prefix(s@, 'b') {
                assert(s@.skip(2).len() == 0);
            }
        }
        return match parse_num_string(s) {
            Ok(n) => Ok(EnumEncoding::Exact(n)),
            Err(e) => Err(e),
        };
    }

    // Fold the pattern into its mask and fixed bits, most significant
    // position first.
    let mut mask: usize = 0;
    let mut fixed: usize = 0;
    let mut i: usize = 2;
    while i < len
        invariant
            2 <= i <= len,
            mask as nat == pattern_mask(s@.subrange(2, i as int)),
            fixed as nat == pattern_fixed(s@.subrange(2, i as int)),
        decreases len - i,
    {
        let ghost prefix = s@.subrange(2, i as int);
        proof {
            assert(s@.subrange(2, i + 1).drop_last() =~= prefix);
            assert(s@.subrange(2, i + 1).last() == s@[i as int]);
            lemma_pattern_fixed_le_mask(s@.subrange(2, i + 1));
        }
        let c = s.get_char(i);
        let mask_bit: usize = if c != 'X' {
            1
        } else {
            0
        };
        let fixed_bit: usize = if c == '1' {
            1
        } else {
            0
        };
        let stepped = match mask.checked_mul(2) {
            Some(m) => m.checked_add(mask_bit),
            None => None,
        };
        match stepped {
            None => {
                proof {
                    let grown = s@.subrange(2, i + 1);
                    assert(grown =~= s@.skip(2).take(i + 1 - 2));
                    lemma_pattern_mask_prefix_le(s@.skip(2), i + 1 - 2);
                }
                return Err(SchemaError::MalformedNumber);
            },
            Some(m) => {
                let ghost grown = s@.subrange(2, i + 1);
                proof {
                    assert(pattern_fixed(grown) <= pattern_mask(grown));
                }
                mask = m;
                fixed = fixed * 2 + fixed_bit;
            },
        }
        i = i + 1;
    }
    proof {
        assert(s@.subrange(2, len as int) =~= s@.skip(2));
        lemma_pattern_fixed_le_mask(s@.skip(2));
    }
    Ok(EnumEncoding::Wildcard { mask, fixed })
}

/// Whether an encoding matches a raw word exactly.
pub open spec fn spec_exact_match(e: EnumEncoding, raw: usize) -> bool {
    e matches EnumEncoding::Exact(n) && n == raw
}

/// Whether a wildcard encoding matches a raw word on its fixed bits.
pub open spec fn spec_wild_match(e: EnumEncoding, raw: usize) -> bool {
    e matches EnumEncoding::Wildcard { mask, fixed } && (raw & mask) == fixed
}

/// The index of the first exact match, or the sequence length when
/// there is none.
pub open spec fn first_exact(encs: Seq<EnumEncoding>, raw: usize) -> int
    decreases encs.len(),
{
    if encs.len() == 0 {
        0
    } else if spec_exact_match(encs[0], raw) {
        0
    } else {
        1 + first_exact(encs.skip(1), raw)
    }
}

/// The index of the first wildcard match, or the sequence length when
/// there is none.
pub open spec fn first_wild(encs: Seq<EnumEncoding>, raw: usize) -> int
    decreases encs.len(),
{
    if encs.len() == 0 {
        0
    } else if spec_wild_match(encs[0], raw) {
        0
    } else {
        1 + first_wild(encs.skip(1), raw)
    }
}

/// A pointwise scan determines `first_exact`.
proof fn lemma_first_exact(encs: Seq<EnumEncoding>, raw: usize, k: int)
    requires
        0 <= k <= encs.len(),
        forall|i: int| 0 <= i < k ==> !spec_exact_match(#[trigger] encs[i], raw),
        k < encs.len() ==> spec_exact_match(encs[k], raw),
    ensures
        first_exact(encs, raw) == k,
    decreases encs.len(),
{
    if encs.len() > 0 && !spec_exact_match(encs[0], raw) {
        assert(forall|i: int|
            0 <= i < k - 1 ==> !spec_exact_match(#[trigger] encs.skip(1)[i], raw));
        lemma_first_exact(encs.skip(1), raw, k - 1);
    }
}

/// A pointwise scan determines `first_wild`.
proof fn lemma_first_wild(encs: Seq<EnumEncoding>, raw: usize, k: int)
    requires
        0 <= k <= encs.len(),
        forall|i: int| 0 <= i < k ==> !spec_wild_match(#[trigger] encs[i], raw),
        k < encs.len() ==> spec_wild_match(encs[k], raw),
    ensures
        first_wild(encs, raw) == k,
    decreases encs.len(),
{
    if encs.len() > 0 && !spec_wild_match(encs[0], raw) {
        assert(forall|i: int|
            0 <= i < k - 1 ==> !spec_wild_match(#[trigger] encs.skip(1)[i], raw));
        lemma_first_wild(encs.skip(1), raw, k - 1);
    }
}

/// The variant a raw word decodes to: the first exact match in
/// declaration order, else the first wildcard match in declaration
/// order, else nothing.
pub open spec fn spec_decode(encs: Seq<EnumEncoding>, raw: usize) -> Option<int> {
    if first_exact(encs, raw) < encs.len() {
        Some(first_exact(encs, raw))
    } else if first_wild(encs, raw) < encs.len() {
        Some(first_wild(encs, raw))
    } else {
        None
    }
}

/// Decodes a raw word against a synthesized encoding table: exact
/// matches are tried first, in declaration order, then wildcard
/// patterns in declaration order; the first match wins. `None` when
/// nothing matches — a runtime-observed word may legitimately carry an
/// unmapped pattern, so this is a recoverable outcome, not an error.
#[verifier::loop_isolation(false)]
pub fn decode_enum_value(encs: &Vec<EnumEncoding>, raw: usize) -> (r: Option<usize>)
    ensures
        match r {
            Some(i) => spec_decode(encs@, raw) == Some(i as int),
            None => spec_decode(encs@, raw) is None,
        },
{
    let n = encs.len();
    let mut i: usize = 0;
    while i < n
        invariant
            0 <= i <= n,
            forall|k: int| 0 <= k < i ==> !spec_exact_match(#[trigger] encs@[k], raw),
        decreases n - i,
    {
        let hit = match encs[i] {
            EnumEncoding::Exact(v) => v == raw,
            EnumEncoding::Wildcard { .. } => false,
        };
        if hit {
            proof {
                lemma_first_exact(encs@, raw, i as int);
            }
            return Some(i);
        }
        i = i + 1;
    }
    proof {
        lemma_first_exact(encs@, raw, n as int);
    }
    let mut j: usize = 0;
    while j < n
        invariant
            0 <= j <= n,
            first_exact(encs@, raw) == n,
            forall|k: int| 0 <= k < j ==> !spec_wild_match(#[trigger] encs@[k], raw),
        decreases n - j,
    {
        let hit = match encs[j] {
            EnumEncoding::Exact(_) => false,
            EnumEncoding::Wildcard { mask, fixed } => (raw & mask) == fixed,
        };
        if hit {
            proof {
                lemma_first_wild(encs@, raw, j as int);
            }
            return Some(j);
        }
        j = j + 1;
    }
    proof {
        lemma_first_wild(encs@, raw, n as int);
    }
    None
}

/// Whether a declared value carries an explicit default mark.
pub open spec fn spec_marked_default(v: EnumValue) -> bool {
    v.is_default == Some(true)
}

/// The index of the first explicitly marked default, or the sequence
/// length when none is marked.
pub open spec fn first_marked(values: Seq<EnumValue>) -> int
    decreases values.len(),
{
    if values.len() == 0 {
        0
    } else if spec_marked_default(values[0]) {
        0
    } else {
        1 + first_marked(values.skip(1))
    }
}

/// A pointwise scan determines `first_marked`.
proof fn lemma_first_marked(values: Seq<EnumValue>, k: int)
    requires
        0 <= k <= values.len(),
        forall|i: int| 0 <= i < k ==> !spec_marked_default(#[trigger] values[i]),
        k < values.len() ==> spec_marked_default(values[k]),
    ensures
        first_marked(values) == k,
    decreases values.len(),
{
    if values.len() > 0 && !spec_marked_default(values[0]) {
        assert(forall|i: int|
            0 <= i < k - 1 ==> !spec_marked_default(#[trigger] values.skip(1)[i]));
        lemma_first_marked(values.skip(1), k - 1);
    }
}

/// The default variant of an enumeration: the first value explicitly
/// marked as default; when none is marked, the first declared value is
/// the documented fallback.
pub open spec fn spec_default_index(values: Seq<EnumValue>) -> Option<int> {
    if values.len() == 0 {
        None
    } else if first_marked(values) < values.len() {
        Some(first_marked(values))
    } else {
        Some(0)
    }
}

/// Selects the default variant: the first value marked `is_default`,
/// falling back to the first declared value when none is marked.
#[verifier::loop_isolation(false)]
pub fn default_variant_index(values: &Vec<EnumValue>) -> (r: Option<usize>)
    ensures
        match r {
            Some(i) => spec_default_index(values@) == Some(i as int),
            None => values@.len() == 0,
        },
{
    let n = values.len();
    if n == 0 {
        return None;
    }
    let mut i: usize = 0;
    while i < n
        invariant
            0 <= i <= n,
            forall|k: int| 0 <= k < i ==> !spec_marked_default(#[trigger] values@[k]),
        decreases n - i,
    {
        let marked = match values[i].is_default {
            Some(b) => b,
            None => false,
        };
        if marked {
            proof {
                lemma_first_marked(values@, i as int);
            }
            return Some(i);
        }
        i = i + 1;
    }
    proof {
        lemma_first_marked(values@, n as int);
    }
    Some(0)
}

/// The raw word an encoding contributes when its variant is a default:
/// the exact value, or a wildcard's fixed bits.
pub open spec fn spec_encoding_bits(e: EnumEncoding) -> usize {
    match e {
        EnumEncoding::Exact(n) => n,
        EnumEncoding::Wildcard { mask: _, fixed } => fixed,
    }
}

/// The concrete word an encoding stands for when written back.
pub fn encoding_bits(e: &EnumEncoding) -> (r: usize)
    ensures
        r == spec_encoding_bits(*e),
{
    match *e {
        EnumEncoding::Exact(n) => n,
        EnumEncoding::Wildcard { mask: _, fixed } => fixed,
    }
}

/// Whether a synthesized encoding table is free of collisions: exact
/// values are pairwise distinct, and no wildcard pattern matches the
/// word of any exact value.
pub open spec fn spec_unambiguous(encs: Seq<EnumEncoding>) -> bool {
    (forall|i: int, j: int|
        0 <= i < j < encs.len() ==> !((#[trigger] encs[i]) matches EnumEncoding::Exact(a)
            && (#[trigger] encs[j]) matches EnumEncoding::Exact(b) && a == b)) && (forall|
        i: int,
        j: int,
    |
        0 <= i < encs.len() && 0 <= j < encs.len() && i != j ==> !((#[trigger] encs[i]) matches
        EnumEncoding::Wildcard { mask, fixed } && (#[trigger] encs[j]) matches
        EnumEncoding::Exact(e) && (e & mask) == fixed))
}

/// Checks an encoding table for collisions between its values;
/// returns the index of an offending value, if any.
#[verifier::loop_isolation(false)]
pub fn find_ambiguous(encs: &Vec<EnumEncoding>) -> (r: Option<usize>)
    ensures
        match r {
            None => spec_unambiguous(encs@),
            Some(i) => !spec_unambiguous(encs@) && i < encs@.len(),
        },
{
    let n = encs.len();
    let mut i: usize = 0;
    while i < n
        invariant
            0 <= i <= n,
            forall|i2: int, j2: int|
                0 <= i2 < j2 < n && i2 < i ==> !((#[trigger] encs@[i2]) matches
                EnumEncoding::Exact(a) && (#[trigger] encs@[j2]) matches EnumEncoding::Exact(b)
                    && a == b),
            forall|i2: int, j2: int|
                0 <= i2 < n && 0 <= j2 < n && i2 != j2 && i2 < i ==> !((#[trigger] encs@[i2]) matches
                EnumEncoding::Wildcard { mask, fixed } && (#[trigger] encs@[j2]) matches
                EnumEncoding::Exact(e) && (e & mask) == fixed),
        decreases n - i,
    {
        match encs[i] {
            EnumEncoding::Exact(a) => {
                let mut j: usize = i + 1;
                while j < n
                    invariant
                        i < j <= n,
                        encs@[i as int] == EnumEncoding::Exact(a),
                        forall|j2: int|
                            i < j2 < j ==> !((#[trigger] encs@[j2]) matches EnumEncoding::Exact(
                                b,
                            ) && a == b),
                    decreases n - j,
                {
                    let dup = match encs[j] {
                        EnumEncoding::Exact(b) => a == b,
                        EnumEncoding::Wildcard { .. } => false,
                    };
                    if dup {
                        return Some(j);
                    }
                    j = j + 1;
                }
            },
            EnumEncoding::Wildcard { mask, fixed } => {
                let mut j: usize = 0;
                while j < n
                    invariant
                        0 <= j <= n,
                        encs@[i as int] == (EnumEncoding::Wildcard { mask, fixed }),
                        forall|j2: int|
                            0 <= j2 < j && j2 != i ==> !((#[trigger] encs@[j2]) matches
                            EnumEncoding::Exact(e) && (e & mask) == fixed),
                    decreases n - j,
                {
                    if j != i {
                        let hit = match encs[j] {
                            EnumEncoding::Exact(e) => (e & mask) == fixed,
                            EnumEncoding::Wildcard { .. } => false,
                        };
                        if hit {
                            return Some(j);
                        }
                    }
                    j = j + 1;
                }
            },
        }
        i = i + 1;
    }
    None
}

} // verus!
