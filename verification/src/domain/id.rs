use vstd::prelude::*;
use vstd::arithmetic::div_mod::lemma_mod_breakdown;

verus! {

// ---------------------------------------------------------------------------
// Identifiers are 128-bit values. Their text form is 32 hexadecimal digits,
// most significant first, with or without hyphens.
// ---------------------------------------------------------------------------

/// The largest identifier, `ffffffff-ffff-ffff-ffff-ffffffffffff`.
pub open spec fn max_id() -> u128 {
    u128::MAX
}

/// `16` to the power `n`.
pub open spec fn pow16(n: nat) -> nat
    decreases n,
{
    if n == 0 {
        1
    } else {
        16 * pow16((n - 1) as nat)
    }
}

/// A hexadecimal digit, in either case.
pub open spec fn is_hex_digit(c: char) -> bool {
    ('0' <= c && c <= '9') || ('a' <= c && c <= 'f') || ('A' <= c && c <= 'F')
}

/// The value of a hexadecimal digit.
pub open spec fn hex_digit_value(c: char) -> nat {
    if '0' <= c && c <= '9' {
        (c as int - '0' as int) as nat
    } else if 'a' <= c && c <= 'f' {
        (c as int - 'a' as int + 10) as nat
    } else {
        (c as int - 'A' as int + 10) as nat
    }
}

/// Every character of `s` is a hexadecimal digit.
pub open spec fn all_hex(s: Seq<char>) -> bool {
    forall|i: int| 0 <= i < s.len() ==> is_hex_digit(#[trigger] s[i])
}

/// The number that the digits of `s` spell, most significant first.
pub open spec fn hex_value(s: Seq<char>) -> nat
    decreases s.len(),
{
    if s.len() == 0 {
        0
    } else {
        hex_value(s.drop_last()) * 16 + hex_digit_value(s.last())
    }
}

/// The lower-case digit for a value below 16.
pub open spec fn lower_hex_digit(d: nat) -> char {
    if d == 0 { '0' }
    else if d == 1 { '1' }
    else if d == 2 { '2' }
    else if d == 3 { '3' }
    else if d == 4 { '4' }
    else if d == 5 { '5' }
    else if d == 6 { '6' }
    else if d == 7 { '7' }
    else if d == 8 { '8' }
    else if d == 9 { '9' }
    else if d == 10 { 'a' }
    else if d == 11 { 'b' }
    else if d == 12 { 'c' }
    else if d == 13 { 'd' }
    else if d == 14 { 'e' }
    else { 'f' }
}

/// The last `n` lower-case hexadecimal digits of `v`, most significant first.
pub open spec fn lower_hex(v: nat, n: nat) -> Seq<char>
    decreases n,
{
    if n == 0 {
        Seq::empty()
    } else {
        lower_hex(v / 16, (n - 1) as nat).push(lower_hex_digit(v % 16))
    }
}

/// 32 digits grouped 8-4-4-4-12 with hyphens between the groups.
pub open spec fn hyphenate(d: Seq<char>) -> Seq<char> {
    d.subrange(0, 8) + seq!['-'] + d.subrange(8, 12) + seq!['-'] + d.subrange(12, 16) + seq!['-']
        + d.subrange(16, 20) + seq!['-'] + d.subrange(20, 32)
}

/// The 32 digits of a 36-character hyphenated text.
pub open spec fn unhyphenate(s: Seq<char>) -> Seq<char> {
    s.subrange(0, 8) + s.subrange(9, 13) + s.subrange(14, 18) + s.subrange(19, 23) + s.subrange(
        24,
        36,
    )
}

/// The hyphenated lower-case text of an identifier, as in
/// `936da01f-9abd-4d9d-80c7-02af85c822a8`.
pub open spec fn hyphenated_text(v: u128) -> Seq<char> {
    hyphenate(lower_hex(v as nat, 32))
}

/// 36 characters: hexadecimal digits with hyphens at positions 8, 13, 18 and 23.
pub open spec fn is_hyphenated_form(s: Seq<char>) -> bool {
    &&& s.len() == 36
    &&& s[8] == '-'
    &&& s[13] == '-'
    &&& s[18] == '-'
    &&& s[23] == '-'
    &&& all_hex(unhyphenate(s))
}

/// `urn:uuid:` in any mix of ASCII cases.
pub open spec fn is_urn_prefix(p: Seq<char>) -> bool {
    &&& p.len() == 9
    &&& (p[0] == 'u' || p[0] == 'U')
    &&& (p[1] == 'r' || p[1] == 'R')
    &&& (p[2] == 'n' || p[2] == 'N')
    &&& p[3] == ':'
    &&& (p[4] == 'u' || p[4] == 'U')
    &&& (p[5] == 'u' || p[5] == 'U')
    &&& (p[6] == 'i' || p[6] == 'I')
    &&& (p[7] == 'd' || p[7] == 'D')
    &&& p[8] == ':'
}

/// The identifier a text denotes, if it has one of the accepted shapes:
/// 32 digits; the hyphenated form; the hyphenated form in braces; the
/// hyphenated form behind `urn:uuid:`.
pub open spec fn id_from_text(s: Seq<char>) -> Option<u128> {
    if s.len() == 32 {
        if all_hex(s) {
            Some(hex_value(s) as u128)
        } else {
            None
        }
    } else if s.len() == 36 {
        if is_hyphenated_form(s) {
            Some(hex_value(unhyphenate(s)) as u128)
        } else {
            None
        }
    } else if s.len() == 38 {
        if s[0] == '{' && s[37] == '}' && is_hyphenated_form(s.subrange(1, 37)) {
            Some(hex_value(unhyphenate(s.subrange(1, 37))) as u128)
        } else {
            None
        }
    } else if s.len() == 45 {
        if is_urn_prefix(s.subrange(0, 9)) && is_hyphenated_form(s.subrange(9, 45)) {
            Some(hex_value(unhyphenate(s.subrange(9, 45))) as u128)
        } else {
            None
        }
    } else {
        None
    }
}

/// The version field (bits 76..80) of an identifier.
pub open spec fn id_version(v: u128) -> u128 {
    (v / 0x1000_0000_0000_0000_0000u128) % 16
}

/// The variant field (bits 62..64) of an identifier.
pub open spec fn id_variant(v: u128) -> u128 {
    (v / 0x4000_0000_0000_0000u128) % 4
}

/// A time-ordered (version 7, RFC 4122 variant) identifier.
pub open spec fn is_time_ordered_id(v: u128) -> bool {
    id_version(v) == 7 && id_variant(v) == 2
}

// ---------------------------------------------------------------------------
// Calls into the `uuid` crate.
// ---------------------------------------------------------------------------

/// Calls `uuid::Uuid::max` and reads its 128-bit value: the UUID whose
/// bytes are all `0xFF`, which is `u128::MAX`.
#[verifier::external_body]
pub(crate) fn uuid_max() -> (r: u128)
    ensures
        r == max_id(),
{
    uuid::Uuid::max().as_u128()
}

/// Calls `uuid::Uuid::try_parse` and reads the parsed value big-endian
/// (`as_u128`). Its parser accepts exactly the four shapes of
/// `id_from_text` (32 hexadecimal digits; 36 with hyphens at 8, 13, 18, 23;
/// that form in braces; that form behind a case-insensitive `urn:uuid:`) and
/// reads the digits most significant first.
#[verifier::external_body]
pub(crate) fn uuid_try_parse(s: &str) -> (r: Option<u128>)
    ensures
        r == id_from_text(s@),
{
    match uuid::Uuid::try_parse(s) {
        Ok(u) => Some(u.as_u128()),
        Err(_) => None,
    }
}

/// Calls `uuid::Uuid::from_u128(v).hyphenated()` and formats it with
/// `to_string`: lower-case digits, grouped 8-4-4-4-12.
#[verifier::external_body]
pub(crate) fn uuid_hyphenated(v: u128) -> (r: String)
    ensures
        r@ == hyphenated_text(v),
{
    uuid::Uuid::from_u128(v).hyphenated().to_string()
}

/// Calls `uuid::Uuid::now_v7`. The value depends on the clock and on a
/// random source; what holds of every outcome is that it carries version 7
/// and the RFC 4122 variant, which `Builder::from_unix_timestamp_millis`
/// writes into every such UUID (version nibble at bits 76..80, variant
/// `0b10` at bits 62..64). Successive calls in one process are ordered by
/// creation per the crate's documentation; that fact about several calls is
/// not stated here. (`now_v7` panics where the system clock lies before the
/// Unix epoch.)
#[verifier::external_body]
pub(crate) fn uuid_now_v7() -> (r: u128)
    ensures
        is_time_ordered_id(r),
{
    uuid::Uuid::now_v7().as_u128()
}

// ---------------------------------------------------------------------------
// Verified operations and laws.
// ---------------------------------------------------------------------------

/// The hyphenated text of an identifier.
pub fn id_to_text(v: u128) -> (r: String)
    ensures
        r@ == hyphenated_text(v),
{
    uuid_hyphenated(v)
}

/// The identifier a text denotes, if any.
pub fn id_from_str(s: &str) -> (r: Option<u128>)
    ensures
        r == id_from_text(s@),
{
    uuid_try_parse(s)
}

/// A fresh time-ordered identifier: version 7, RFC 4122 variant. (Reading
/// the clock panics where the system clock lies before the Unix epoch.)
pub fn new_id() -> (r: u128)
    ensures
        is_time_ordered_id(r),
        r < max_id(),
{
    let r = uuid_now_v7();
    proof {
        lemma_time_ordered_below_max(r);
    }
    r
}

proof fn lemma_pow16_32()
    ensures
        pow16(32) == 0x1_0000_0000_0000_0000_0000_0000_0000_0000nat,
{
    reveal_with_fuel(pow16, 33);
}

proof fn lemma_pow16_positive(n: nat)
    ensures
        pow16(n) > 0,
    decreases n,
{
    if n > 0 {
        lemma_pow16_positive((n - 1) as nat);
    }
}

proof fn lemma_lower_hex_digit(d: nat)
    requires
        d < 16,
    ensures
        is_hex_digit(lower_hex_digit(d)),
        hex_digit_value(lower_hex_digit(d)) == d,
{
}

proof fn lemma_lower_hex(v: nat, n: nat)
    ensures
        lower_hex(v, n).len() == n,
        all_hex(lower_hex(v, n)),
        hex_value(lower_hex(v, n)) == v % pow16(n),
    decreases n,
{
    if n > 0 {
        let prev = lower_hex(v / 16, (n - 1) as nat);
        lemma_lower_hex(v / 16, (n - 1) as nat);
        lemma_lower_hex_digit(v % 16);
        let s = lower_hex(v, n);
        assert(s.drop_last() =~= prev);
        assert(s.last() == lower_hex_digit(v % 16));
        lemma_pow16_positive((n - 1) as nat);
        lemma_mod_breakdown(v as int, 16, pow16((n - 1) as nat) as int);
        assert forall|i: int| 0 <= i < s.len() implies is_hex_digit(#[trigger] s[i]) by {
            if i < n - 1 {
                assert(s[i] == prev[i]);
            }
        }
    }
}

proof fn lemma_unhyphenate_hyphenate(d: Seq<char>)
    requires
        d.len() == 32,
    ensures
        hyphenate(d).len() == 36,
        hyphenate(d)[8] == '-',
        hyphenate(d)[13] == '-',
        hyphenate(d)[18] == '-',
        hyphenate(d)[23] == '-',
        unhyphenate(hyphenate(d)) =~= d,
{
    let h = hyphenate(d);
    assert(h.subrange(0, 8) =~= d.subrange(0, 8));
    assert(h.subrange(9, 13) =~= d.subrange(8, 12));
    assert(h.subrange(14, 18) =~= d.subrange(12, 16));
    assert(h.subrange(19, 23) =~= d.subrange(16, 20));
    assert(h.subrange(24, 36) =~= d.subrange(20, 32));
}

/// The hyphenated text of an identifier reads back as that identifier:
/// an id written as text is found again from the text.
pub proof fn lemma_id_text_round_trip(v: u128)
    ensures
        id_from_text(hyphenated_text(v)) == Some(v),
{
    let d = lower_hex(v as nat, 32);
    lemma_lower_hex(v as nat, 32);
    lemma_pow16_32();
    lemma_unhyphenate_hyphenate(d);
    let h = hyphenated_text(v);
    assert(unhyphenate(h) == d);
    assert(is_hyphenated_form(h));
}

/// A time-ordered identifier lies strictly below the largest identifier, so
/// a page request without a bound covers every created item.
pub proof fn lemma_time_ordered_below_max(v: u128)
    requires
        is_time_ordered_id(v),
    ensures
        v < max_id(),
{
    if v == max_id() {
        assert(id_version(u128::MAX) == 15);
    }
}


/// `s` comes before `t` when the texts are compared character by character
/// from the first: at the first place where they differ, `s` holds the
/// smaller character.
pub open spec fn text_less(s: Seq<char>, t: Seq<char>) -> bool {
    exists|i: int|
        0 <= i < s.len() && i < t.len() && s[i] < t[i] && (forall|j: int|
            0 <= j < i ==> s[j] == t[j])
}

proof fn lemma_text_less_concat(x1: Seq<char>, x2: Seq<char>, y1: Seq<char>, y2: Seq<char>)
    requires
        x1.len() == x2.len(),
        y1.len() == y2.len(),
    ensures
        text_less(x1 + y1, x2 + y2) <==> (text_less(x1, x2) || (x1 =~= x2 && text_less(y1, y2))),
        (x1 + y1 =~= x2 + y2) <==> (x1 =~= x2 && y1 =~= y2),
{
    let s = x1 + y1;
    let t = x2 + y2;
    let n = x1.len() as int;
    if text_less(s, t) {
        let i = choose|i: int|
            0 <= i < s.len() && i < t.len() && s[i] < t[i] && (forall|j: int|
                0 <= j < i ==> s[j] == t[j]);
        if i < n {
            assert(x1[i] < x2[i]);
            assert forall|j: int| 0 <= j < i implies x1[j] == x2[j] by {
                assert(s[j] == t[j]);
            }
            assert(text_less(x1, x2));
        } else {
            assert forall|j: int| 0 <= j < n implies x1[j] == x2[j] by {
                assert(s[j] == t[j]);
            }
            assert(x1 =~= x2);
            let k = i - n;
            assert(y1[k] < y2[k]);
            assert forall|j: int| 0 <= j < k implies y1[j] == y2[j] by {
                assert(s[j + n] == t[j + n]);
            }
            assert(text_less(y1, y2));
        }
    }
    if text_less(x1, x2) {
        let i = choose|i: int|
            0 <= i < x1.len() && i < x2.len() && x1[i] < x2[i] && (forall|j: int|
                0 <= j < i ==> x1[j] == x2[j]);
        assert(s[i] == x1[i] && t[i] == x2[i]);
        assert forall|j: int| 0 <= j < i implies s[j] == t[j] by {
            assert(s[j] == x1[j] && t[j] == x2[j]);
        }
        assert(text_less(s, t));
    }
    if x1 =~= x2 && text_less(y1, y2) {
        let k = choose|k: int|
            0 <= k < y1.len() && k < y2.len() && y1[k] < y2[k] && (forall|j: int|
                0 <= j < k ==> y1[j] == y2[j]);
        assert(s[k + n] == y1[k] && t[k + n] == y2[k]);
        assert forall|j: int| 0 <= j < k + n implies s[j] == t[j] by {
            if j < n {
                assert(s[j] == x1[j] && t[j] == x2[j]);
            } else {
                assert(s[j] == y1[j - n] && t[j] == y2[j - n]);
            }
        }
        assert(text_less(s, t));
    }
    if s =~= t {
        assert forall|j: int| 0 <= j < n implies x1[j] == x2[j] by {
            assert(s[j] == t[j]);
        }
        assert forall|j: int| 0 <= j < y1.len() implies y1[j] == y2[j] by {
            assert(s[j + n] == t[j + n]);
        }
        assert(x1 =~= x2);
        assert(y1 =~= y2);
    }
}

proof fn lemma_text_less_irreflexive(s: Seq<char>)
    ensures
        !text_less(s, s),
{
}

proof fn lemma_lower_hex_digit_code(d: nat)
    requires
        d < 16,
    ensures
        lower_hex_digit(d) as int == if d < 10 {
            48 + d
        } else {
            87 + d
        },
{
}

proof fn lemma_lower_hex_order(a: nat, b: nat, n: nat)
    requires
        a < pow16(n),
        b < pow16(n),
    ensures
        text_less(lower_hex(a, n), lower_hex(b, n)) <==> a < b,
        (lower_hex(a, n) =~= lower_hex(b, n)) <==> a == b,
    decreases n,
{
    lemma_lower_hex(a, n);
    lemma_lower_hex(b, n);
    if n == 0 {
        assert(lower_hex(a, n) =~= lower_hex(b, n));
        assert(!text_less(lower_hex(a, n), lower_hex(b, n)));
    } else {
        let m = (n - 1) as nat;
        assert(a / 16 < pow16(m));
        assert(b / 16 < pow16(m));
        lemma_lower_hex_order(a / 16, b / 16, m);
        lemma_lower_hex(a / 16, m);
        lemma_lower_hex(b / 16, m);
        let ca = lower_hex_digit(a % 16);
        let cb = lower_hex_digit(b % 16);
        lemma_lower_hex_digit_code(a % 16);
        lemma_lower_hex_digit_code(b % 16);
        lemma_text_less_concat(lower_hex(a / 16, m), lower_hex(b / 16, m), seq![ca], seq![cb]);
        assert(lower_hex(a, n) =~= lower_hex(a / 16, m) + seq![ca]);
        assert(lower_hex(b, n) =~= lower_hex(b / 16, m) + seq![cb]);
        assert(text_less(seq![ca], seq![cb]) <==> ca < cb) by {
            if ca < cb {
                assert(seq![ca][0] < seq![cb][0]);
            }
        }
        assert((ca < cb) <==> (a % 16 < b % 16));
        assert((seq![ca] =~= seq![cb]) <==> (a % 16 == b % 16)) by {
            if seq![ca] =~= seq![cb] {
                assert(seq![ca][0] == seq![cb][0]);
            }
        }
    }
}

proof fn lemma_hyphenate_order(d1: Seq<char>, d2: Seq<char>)
    requires
        d1.len() == 32,
        d2.len() == 32,
    ensures
        text_less(hyphenate(d1), hyphenate(d2)) <==> text_less(d1, d2),
{
    let h = seq!['-'];
    lemma_text_less_irreflexive(h);
    let a0 = d1.subrange(0, 8);
    let a1 = d1.subrange(8, 12);
    let a2 = d1.subrange(12, 16);
    let a3 = d1.subrange(16, 20);
    let a4 = d1.subrange(20, 32);
    let b0 = d2.subrange(0, 8);
    let b1 = d2.subrange(8, 12);
    let b2 = d2.subrange(12, 16);
    let b3 = d2.subrange(16, 20);
    let b4 = d2.subrange(20, 32);
    // The hyphenated texts, piece by piece.
    lemma_text_less_concat(a0, b0, h, h);
    lemma_text_less_concat(a0 + h, b0 + h, a1, b1);
    lemma_text_less_concat(a0 + h + a1, b0 + h + b1, h, h);
    lemma_text_less_concat(a0 + h + a1 + h, b0 + h + b1 + h, a2, b2);
    lemma_text_less_concat(a0 + h + a1 + h + a2, b0 + h + b1 + h + b2, h, h);
    lemma_text_less_concat(a0 + h + a1 + h + a2 + h, b0 + h + b1 + h + b2 + h, a3, b3);
    lemma_text_less_concat(a0 + h + a1 + h + a2 + h + a3, b0 + h + b1 + h + b2 + h + b3, h, h);
    lemma_text_less_concat(
        a0 + h + a1 + h + a2 + h + a3 + h,
        b0 + h + b1 + h + b2 + h + b3 + h,
        a4,
        b4,
    );
    // The digits, piece by piece.
    lemma_text_less_concat(a0, b0, a1, b1);
    lemma_text_less_concat(a0 + a1, b0 + b1, a2, b2);
    lemma_text_less_concat(a0 + a1 + a2, b0 + b1 + b2, a3, b3);
    lemma_text_less_concat(a0 + a1 + a2 + a3, b0 + b1 + b2 + b3, a4, b4);
    assert(d1 =~= a0 + a1 + a2 + a3 + a4);
    assert(d2 =~= b0 + b1 + b2 + b3 + b4);
}

/// Comparing the stored texts of two identifiers character by character
/// orders them as the identifiers themselves: the store's `id < before` and
/// `ORDER BY id` on the text column page through items by identifier.
pub proof fn lemma_text_order_is_id_order(a: u128, b: u128)
    ensures
        text_less(hyphenated_text(a), hyphenated_text(b)) <==> a < b,
{
    lemma_pow16_32();
    lemma_lower_hex_order(a as nat, b as nat, 32);
    lemma_lower_hex(a as nat, 32);
    lemma_lower_hex(b as nat, 32);
    lemma_hyphenate_order(lower_hex(a as nat, 32), lower_hex(b as nat, 32));
}

} // verus!
