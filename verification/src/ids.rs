//! Identifiers: the opaque wrapper for caller-supplied identifier strings
//! and its resolution into the store's native 128-bit identifier.
//!
//! An identifier string is accepted exactly when it is the canonical
//! hyphenated textual form of a 128-bit identifier: 36 characters, with
//! hyphens at positions 8, 13, 18 and 23 and hexadecimal digits (either
//! case) everywhere else.  Resolution is the first step of every repository
//! operation that takes an [`EntityId`], and its failure is reported
//! distinctly from every other error kind.

use vstd::prelude::*;
use vstd::string::{StrSliceExecFns, StringExecFns};

verus! {

/// The store's native identifier: a 128-bit value.
#[derive(Clone, Copy, PartialEq, Eq, Structural, Debug)]
pub struct Uuid {
    pub value: u128,
}

/// A wrapper for an untrusted identifier string received from a caller.
/// It is consumed exactly once, by [`EntityId::resolve`].
pub struct EntityId {
    id: String,
}

impl View for EntityId {
    type V = Seq<char>;

    closed spec fn view(&self) -> Seq<char> {
        self.id@
    }
}

impl EntityId {
    /// Wraps a transport-level identifier string, unvalidated.
    pub fn new(id: String) -> (r: Self)
        ensures
            r@ == id@,
    {
        Self { id }
    }
}

/// The positions at which the canonical textual form carries a hyphen.
pub open spec fn is_hyphen_index(i: int) -> bool {
    i == 8 || i == 13 || i == 18 || i == 23
}

/// Whether `c` is an ASCII hexadecimal digit, of either case.
pub open spec fn is_hex_digit(c: char) -> bool {
    (48 <= c as u32 && c as u32 <= 57)  // '0' ..= '9'
    || (97 <= c as u32 && c as u32 <= 102)  // 'a' ..= 'f'
    || (65 <= c as u32 && c as u32 <= 70)  // 'A' ..= 'F'
}

/// The numeric value of a hexadecimal digit.
pub open spec fn hex_digit_value(c: char) -> int
    recommends
        is_hex_digit(c),
{
    if 48 <= c as u32 && c as u32 <= 57 {
        c as u32 - 48
    } else if 97 <= c as u32 && c as u32 <= 102 {
        c as u32 - 87
    } else {
        c as u32 - 55
    }
}

/// Whether `c` is a lower-case hexadecimal digit.
pub open spec fn is_lower_hex_digit(c: char) -> bool {
    (48 <= c as u32 && c as u32 <= 57) || (97 <= c as u32 && c as u32 <= 102)
}

/// What the canonical form demands of the character at position `i`.
pub open spec fn uuid_char_ok(s: Seq<char>, i: int) -> bool {
    if is_hyphen_index(i) {
        s[i] == '-'
    } else {
        is_hex_digit(s[i])
    }
}

/// Whether `s` is the canonical hyphenated textual form of an identifier.
pub open spec fn uuid_str_valid(s: Seq<char>) -> bool {
    s.len() == 36 && (forall|i: int| 0 <= i < 36 ==> uuid_char_ok(s, i))
}

/// How many hyphens the canonical form places before position `i`.
pub open spec fn hyphens_before(i: int) -> int {
    (if i > 8 { 1int } else { 0int }) + (if i > 13 { 1int } else { 0int }) + (if i > 18 {
        1int
    } else {
        0int
    }) + (if i > 23 { 1int } else { 0int })
}

/// The position of the `k`-th hexadecimal digit in the canonical form.
pub open spec fn digit_index(k: int) -> int {
    if k < 8 {
        k
    } else if k < 12 {
        k + 1
    } else if k < 16 {
        k + 2
    } else if k < 20 {
        k + 3
    } else {
        k + 4
    }
}

/// The value of the first `k` hexadecimal digits of `s`, read big-endian.
pub open spec fn uuid_prefix_value(s: Seq<char>, k: int) -> int
    decreases k,
{
    if k <= 0 {
        0
    } else {
        16 * uuid_prefix_value(s, k - 1) + hex_digit_value(s[digit_index(k - 1)])
    }
}

/// The 128-bit value that a canonical identifier string denotes.
pub open spec fn uuid_value_of(s: Seq<char>) -> int {
    uuid_prefix_value(s, 32)
}

/// `16^k`: the number of values that `k` hexadecimal digits can take.
pub open spec fn pow16(k: nat) -> int
    decreases k,
{
    if k == 0 {
        1
    } else {
        16 * pow16((k - 1) as nat)
    }
}

proof fn lemma_pow16_32()
    ensures
        pow16(32) == 0x1_0000_0000_0000_0000_0000_0000_0000_0000,
{
    reveal_with_fuel(pow16, 33);
}

/// The digits of a valid prefix never overflow their width.
proof fn lemma_prefix_value_bound(s: Seq<char>, k: int)
    requires
        0 <= k <= 32,
        forall|j: int| 0 <= j < k ==> is_hex_digit(#[trigger] s[digit_index(j)]),
    ensures
        0 <= uuid_prefix_value(s, k) < pow16(k as nat),
    decreases k,
{
    if k > 0 {
        lemma_prefix_value_bound(s, k - 1);
        assert(is_hex_digit(s[digit_index(k - 1)]));
        assert(0 <= hex_digit_value(s[digit_index(k - 1)]) < 16);
    }
}

/// Parses the canonical hyphenated textual form of an identifier.
/// Accepts a string exactly when it is valid, and then returns the
/// 128-bit value its digits denote.
pub fn parse_uuid(s: &str) -> (r: Option<Uuid>)
    ensures
        uuid_str_valid(s@) ==> (r matches Some(u) && u.value == uuid_value_of(s@)),
        !uuid_str_valid(s@) ==> r is None,
{
    let n = s.unicode_len();
    if n != 36 {
        return None;
    }
    let mut value: u128 = 0;
    let mut digits: usize = 0;
    let mut i: usize = 0;
    while i < 36
        invariant
            s@.len() == 36,
            i <= 36,
            digits == i - hyphens_before(i as int),
            forall|j: int| 0 <= j < i ==> uuid_char_ok(s@, j),
            value == uuid_prefix_value(s@, digits as int),
        decreases 36 - i,
    {
        let c = s.get_char(i);
        if i == 8 || i == 13 || i == 18 || i == 23 {
            if c != '-' {
                assert(!uuid_char_ok(s@, i as int));
                return None;
            }
        } else {
            let d = c as u32;
            let h: u32 = if 48 <= d && d <= 57 {
                d - 48
            } else if 97 <= d && d <= 102 {
                d - 87
            } else if 65 <= d && d <= 70 {
                d - 55
            } else {
                assert(!is_hex_digit(s@[i as int]));
                assert(!uuid_char_ok(s@, i as int));
                return None;
            };
            proof {
                assert(digit_index(digits as int) == i);
                assert forall|j: int| 0 <= j < digits implies is_hex_digit(
                    #[trigger] s@[digit_index(j)],
                ) by {
                    assert(0 <= digit_index(j) < i);
                    assert(!is_hyphen_index(digit_index(j)));
                    assert(uuid_char_ok(s@, digit_index(j)));
                }
                lemma_prefix_value_bound(s@, digits as int);
                assert(pow16((digits + 1) as nat) == 16 * pow16(digits as nat));
                lemma_pow16_32();
                assert(pow16(digits as nat) <= pow16(31)) by {
                    lemma_pow16_increases(digits as nat, 31);
                }
                assert(16 * value + h < pow16((digits + 1) as nat));
            }
            value = value * 16 + (h as u128);
            digits = digits + 1;
        }
        i = i + 1;
    }
    proof {
        assert(uuid_str_valid(s@));
        assert(digits == 32);
    }
    Some(Uuid { value })
}

/// `pow16` grows with its exponent.
proof fn lemma_pow16_increases(a: nat, b: nat)
    requires
        a <= b,
    ensures
        pow16(a) <= pow16(b),
    decreases b,
{
    if a < b {
        lemma_pow16_increases(a, (b - 1) as nat);
        lemma_pow16_positive((b - 1) as nat);
    }
}

proof fn lemma_pow16_positive(k: nat)
    ensures
        pow16(k) >= 1,
    decreases k,
{
    if k > 0 {
        lemma_pow16_positive((k - 1) as nat);
    }
}

/// The value of the `k` least significant nibbles, read from a
/// least-significant-first nibble list.
pub open spec fn nibble_fold(nibs: Seq<u8>, k: int) -> int
    decreases k,
{
    if k <= 0 {
        0
    } else {
        nibble_fold(nibs, k - 1) + nibs[k - 1] * pow16((k - 1) as nat)
    }
}

/// The value of the `k` most significant nibbles of a 32-nibble list,
/// read as a big-endian digit string.
pub open spec fn top_fold(nibs: Seq<u8>, k: int) -> int
    decreases k,
{
    if k <= 0 {
        0
    } else {
        16 * top_fold(nibs, k - 1) + nibs[32 - k]
    }
}

proof fn lemma_nibble_fold_bounds(nibs: Seq<u8>, k: int)
    requires
        0 <= k <= nibs.len(),
        forall|t: int| 0 <= t < k ==> nibs[t] < 16,
    ensures
        0 <= nibble_fold(nibs, k) < pow16(k as nat),
    decreases k,
{
    if k > 0 {
        lemma_nibble_fold_bounds(nibs, k - 1);
        assert(nibs[k - 1] * pow16((k - 1) as nat) <= 15 * pow16((k - 1) as nat)) by (
        nonlinear_arith)
            requires
                nibs[k - 1] <= 15,
                pow16((k - 1) as nat) >= 1,
        {
        }
        lemma_pow16_positive((k - 1) as nat);
        assert(nibs[k - 1] * pow16((k - 1) as nat) >= 0) by (nonlinear_arith)
            requires
                nibs[k - 1] >= 0,
                pow16((k - 1) as nat) >= 1,
        {
        }
    }
}

/// Reading the nibbles most significant first yields the same value as
/// weighting them least significant first.
proof fn lemma_folds_agree_upto(nibs: Seq<u8>, k: int)
    requires
        nibs.len() == 32,
        0 <= k <= 32,
    ensures
        nibble_fold(nibs, 32) == top_fold(nibs, k) * pow16((32 - k) as nat) + nibble_fold(
            nibs,
            32 - k,
        ),
    decreases k,
{
    if k == 0 {
        assert(top_fold(nibs, 0) * pow16(32nat) == 0) by (nonlinear_arith);
    } else {
        lemma_folds_agree_upto(nibs, k - 1);
        let t = top_fold(nibs, k - 1);
        let nb = nibs[32 - k] as int;
        let p = pow16((32 - k) as nat);
        assert(pow16((32 - k + 1) as nat) == 16 * p);
        assert(t * (16 * p) + (nibble_fold(nibs, 32 - k) + nb * p) == (16 * t + nb) * p
            + nibble_fold(nibs, 32 - k)) by (nonlinear_arith);
    }
}

/// The canonical string whose digits spell the top nibbles denotes
/// exactly the top-fold value.
proof fn lemma_prefix_matches_nibbles(s: Seq<char>, nibs: Seq<u8>, k: int)
    requires
        nibs.len() == 32,
        0 <= k <= 32,
        forall|j: int|
            0 <= j < k ==> hex_digit_value(#[trigger] s[digit_index(j)]) == nibs[31 - j],
    ensures
        uuid_prefix_value(s, k) == top_fold(nibs, k),
    decreases k,
{
    if k > 0 {
        lemma_prefix_matches_nibbles(s, nibs, k - 1);
    }
}

/// One hexadecimal digit, rendered in lower case.
fn hex_digit_str(d: u8) -> (r: &'static str)
    requires
        d < 16,
    ensures
        r@.len() == 1,
        is_lower_hex_digit(r@[0]),
        is_hex_digit(r@[0]),
        hex_digit_value(r@[0]) == d as int,
{
    proof {
        reveal_strlit("0");
        reveal_strlit("1");
        reveal_strlit("2");
        reveal_strlit("3");
        reveal_strlit("4");
        reveal_strlit("5");
        reveal_strlit("6");
        reveal_strlit("7");
        reveal_strlit("8");
        reveal_strlit("9");
        reveal_strlit("a");
        reveal_strlit("b");
        reveal_strlit("c");
        reveal_strlit("d");
        reveal_strlit("e");
        reveal_strlit("f");
    }
    match d {
        0 => "0",
        1 => "1",
        2 => "2",
        3 => "3",
        4 => "4",
        5 => "5",
        6 => "6",
        7 => "7",
        8 => "8",
        9 => "9",
        10 => "a",
        11 => "b",
        12 => "c",
        13 => "d",
        14 => "e",
        _ => "f",
    }
}

impl Uuid {
    /// Renders the identifier in its canonical lower-case hyphenated
    /// textual form: the one form that resolution accepts, and resolving
    /// the rendering yields this identifier back.
    pub fn to_text(&self) -> (r: String)
        ensures
            uuid_str_valid(r@),
            uuid_value_of(r@) == self.value,
            forall|t: int|
                0 <= t < 36 && !is_hyphen_index(t) ==> is_lower_hex_digit(#[trigger] r@[t]),
    {
        // Extract the 32 nibbles, least significant first.
        let mut nibbles: Vec<u8> = Vec::new();
        let mut rest: u128 = self.value;
        let mut j: usize = 0;
        while j < 32
            invariant
                j <= 32,
                nibbles@.len() == j,
                forall|t: int| 0 <= t < j ==> nibbles@[t] < 16,
                self.value == nibble_fold(nibbles@, j as int) + rest * pow16(j as nat),
            decreases 32 - j,
        {
            let nb: u8 = (rest % 16) as u8;
            let ghost old_rest = rest;
            let ghost old_nibs = nibbles@;
            rest = rest / 16;
            nibbles.push(nb);
            proof {
                assert(nibbles@ == old_nibs.push(nb));
                assert(nibble_fold(nibbles@, j as int) == nibble_fold(old_nibs, j as int)) by {
                    lemma_nibble_fold_prefix(old_nibs.push(nb), old_nibs, j as int);
                }
                assert(old_rest == 16 * (old_rest as int / 16) + old_rest as int % 16);
                assert(pow16((j + 1) as nat) == 16 * pow16(j as nat));
                assert((16 * (rest as int) + nb) * pow16(j as nat) == nb * pow16(j as nat) + (
                rest as int) * (16 * pow16(j as nat))) by (nonlinear_arith);
            }
            j = j + 1;
        }
        proof {
            lemma_pow16_32();
            lemma_nibble_fold_bounds(nibbles@, 32);
            if rest >= 1 {
                assert((rest as int) * pow16(32nat) >= pow16(32nat)) by (nonlinear_arith)
                    requires
                        rest >= 1,
                        pow16(32nat) >= 0,
                {
                }
                assert(false);
            }
        }
        // Emit the canonical 36-character form, most significant first.
        let mut text = String::new();
        let mut digits: usize = 0;
        let mut i: usize = 0;
        while i < 36
            invariant
                i <= 36,
                digits == i - hyphens_before(i as int),
                nibbles@.len() == 32,
                forall|t: int| 0 <= t < 32 ==> nibbles@[t] < 16,
                self.value == nibble_fold(nibbles@, 32),
                text@.len() == i,
                forall|t: int| 0 <= t < i ==> uuid_char_ok(text@, t),
                forall|t: int|
                    0 <= t < i && !is_hyphen_index(t) ==> is_lower_hex_digit(
                        #[trigger] text@[t],
                    ),
                forall|k: int|
                    0 <= k < digits ==> hex_digit_value(#[trigger] text@[digit_index(k)])
                        == nibbles@[31 - k],
            decreases 36 - i,
        {
            let ghost old_text = text@;
            let ghost old_digits = digits as int;
            if i == 8 || i == 13 || i == 18 || i == 23 {
                text.append("-");
                proof {
                    reveal_strlit("-");
                    assert(text@ == old_text + "-"@);
                    assert(text@[i as int] == '-');
                }
            } else {
                proof {
                    assert(digits <= 31);
                }
                let nb = nibbles[31 - digits];
                let d = hex_digit_str(nb);
                text.append(d);
                proof {
                    assert(text@ == old_text + d@);
                    assert(text@[i as int] == d@[0]);
                    assert(digit_index(digits as int) == i);
                }
                digits = digits + 1;
            }
            proof {
                assert(forall|t: int| 0 <= t < i ==> text@[t] == old_text[t]);
                assert forall|t: int| 0 <= t < i + 1 implies uuid_char_ok(text@, t) by {
                    if t < i {
                        assert(uuid_char_ok(old_text, t));
                        assert(text@[t] == old_text[t]);
                    }
                }
                assert forall|t: int|
                    0 <= t < i + 1 && !is_hyphen_index(t) implies is_lower_hex_digit(
                    #[trigger] text@[t],
                ) by {
                    if t < i {
                        assert(text@[t] == old_text[t]);
                    }
                }
                assert forall|k: int| 0 <= k < digits implies hex_digit_value(
                    #[trigger] text@[digit_index(k)],
                ) == nibbles@[31 - k] by {
                    if k < old_digits {
                        assert(digit_index(k) < digit_index(old_digits));
                        assert(digit_index(old_digits) >= i);
                        assert(digit_index(k) < i);
                        assert(text@[digit_index(k)] == old_text[digit_index(k)]);
                        assert(hex_digit_value(old_text[digit_index(k)]) == nibbles@[31 - k]);
                    }
                }
            }
            i = i + 1;
        }
        proof {
            assert(digits == 32);
            assert(uuid_str_valid(text@));
            lemma_prefix_matches_nibbles(text@, nibbles@, 32);
            lemma_folds_agree_upto(nibbles@, 32);
            assert(nibble_fold(nibbles@, 0) == 0);
            assert(pow16(0nat) == 1);
            assert(top_fold(nibbles@, 32) * 1 == top_fold(nibbles@, 32));
            assert(uuid_value_of(text@) == self.value);
        }
        text
    }
}

/// A fold over the first `k` entries ignores what stands behind them.
proof fn lemma_nibble_fold_prefix(a: Seq<u8>, b: Seq<u8>, k: int)
    requires
        0 <= k <= a.len(),
        k <= b.len(),
        forall|t: int| 0 <= t < k ==> a[t] == b[t],
    ensures
        nibble_fold(a, k) == nibble_fold(b, k),
    decreases k,
{
    if k > 0 {
        lemma_nibble_fold_prefix(a, b, k - 1);
    }
}

impl EntityId {
    /// Resolves the wrapped string into the store's native identifier,
    /// consuming the wrapper.  Fails, with a static diagnostic, on every
    /// string that is not in the canonical textual form.
    pub fn resolve(self) -> (r: Result<Uuid, &'static str>)
        ensures
            uuid_str_valid(self@) ==> (r matches Ok(u) && u.value == uuid_value_of(self@)),
            !uuid_str_valid(self@) ==> (r matches Err(m) && m@ == "unable to parse as uuid"@),
    {
        match parse_uuid(self.id.as_str()) {
            Some(u) => Ok(u),
            None => Err("unable to parse as uuid"),
        }
    }
}

} // verus!
