//! Base64 text, in the standard alphabet and with padding.

use base64::prelude::BASE64_STANDARD;
use base64::Engine;
use vstd::prelude::*;

verus! {

/// The byte at `i`, or zero behind the end.
pub open spec fn byte_or_zero(bytes: Seq<u8>, i: int) -> int {
    if 0 <= i < bytes.len() {
        bytes[i] as int
    } else {
        0
    }
}

/// The `g`-th group of three bytes as one number of 24 bits.
pub open spec fn group_of_three(bytes: Seq<u8>, g: int) -> int {
    byte_or_zero(bytes, 3 * g) * 65536 + byte_or_zero(bytes, 3 * g + 1) * 256 + byte_or_zero(
        bytes,
        3 * g + 2,
    )
}

/// The `j`-th of the four digits of six bits that make up a number of 24 bits, the
/// most significant one first.
pub open spec fn six_bits(group: int, j: int) -> int {
    if j == 0 {
        group / 262144
    } else if j == 1 {
        (group / 4096) % 64
    } else if j == 2 {
        (group / 64) % 64
    } else {
        group % 64
    }
}

/// The character for a number of six bits.
pub open spec fn base64_digit(n: int) -> char {
    if n < 26 {
        (65 + n) as char
    } else if n < 52 {
        (97 + n - 26) as char
    } else if n < 62 {
        (48 + n - 52) as char
    } else if n == 62 {
        '+'
    } else {
        '/'
    }
}

/// The `i`-th character of the base64 text of `bytes`: a digit of the group it
/// belongs to, or padding where the group ends before that digit.
pub open spec fn base64_char(bytes: Seq<u8>, i: int) -> char {
    if 3 * (i / 4) + i % 4 > bytes.len() {
        '='
    } else {
        base64_digit(six_bits(group_of_three(bytes, i / 4), i % 4))
    }
}

/// The base64 text of `bytes`.
pub open spec fn base64_text(bytes: Seq<u8>) -> Seq<char> {
    Seq::new((4 * ((bytes.len() + 2) / 3)) as nat, |i: int| base64_char(bytes, i))
}

proof fn lemma_digit(n: int)
    requires
        0 <= n < 64,
    ensures
        base64_digit(n) != '=',
        base64_digit(n) != '"',
        base64_digit(n) != '\\',
        base64_digit(n) as int >= 32,
{
}

proof fn lemma_digit_is_injective(m: int, n: int)
    requires
        0 <= m < 64,
        0 <= n < 64,
        base64_digit(m) == base64_digit(n),
    ensures
        m == n,
{
}

proof fn lemma_six_bits(group: int, j: int)
    requires
        0 <= group < 16777216,
        0 <= j < 4,
    ensures
        0 <= six_bits(group, j) < 64,
{
}

proof fn lemma_group_range(bytes: Seq<u8>, g: int)
    ensures
        0 <= group_of_three(bytes, g) < 16777216,
{
}

/// The digits of a group from its bytes.
proof fn lemma_digits_from_bytes(b0: int, b1: int, b2: int)
    requires
        0 <= b0 < 256,
        0 <= b1 < 256,
        0 <= b2 < 256,
    ensures
        ({
            let group = b0 * 65536 + b1 * 256 + b2;
            &&& six_bits(group, 0) == b0 / 4
            &&& six_bits(group, 1) == (b0 % 4) * 16 + b1 / 16
            &&& six_bits(group, 2) == (b1 % 16) * 4 + b2 / 64
            &&& six_bits(group, 3) == b2 % 64
        }),
{
    let group = b0 * 65536 + b1 * 256 + b2;
    let (p, q) = (b0 / 4, b0 % 4);
    let (r, s) = (b1 / 16, b1 % 16);
    let (t, u) = (b2 / 64, b2 % 64);
    assert(group == 262144 * p + 65536 * q + 4096 * r + 256 * s + 64 * t + u);
    assert(group / 262144 == p) by {
        lemma_quotient(group, 262144, p, 65536 * q + 4096 * r + 256 * s + 64 * t + u);
    }
    assert(group / 4096 == 64 * p + 16 * q + r) by {
        lemma_quotient(group, 4096, 64 * p + 16 * q + r, 256 * s + 64 * t + u);
    }
    assert((64 * p + 16 * q + r) % 64 == 16 * q + r);
    assert(group / 64 == 4096 * p + 1024 * q + 64 * r + 4 * s + t) by {
        lemma_quotient(group, 64, 4096 * p + 1024 * q + 64 * r + 4 * s + t, u);
    }
    assert((4096 * p + 1024 * q + 64 * r + 4 * s + t) % 64 == 4 * s + t);
}

proof fn lemma_quotient(n: int, d: int, q: int, r: int)
    requires
        d > 0,
        0 <= r < d,
        n == q * d + r,
    ensures
        n / d == q,
{
    vstd::arithmetic::div_mod::lemma_fundamental_div_mod_converse(n, d, q, r);
}

/// The bytes of a group from its digits.
proof fn lemma_bytes_from_digits(b0: int, b1: int, b2: int)
    requires
        0 <= b0 < 256,
        0 <= b1 < 256,
        0 <= b2 < 256,
    ensures
        ({
            let group = b0 * 65536 + b1 * 256 + b2;
            &&& b0 == six_bits(group, 0) * 4 + six_bits(group, 1) / 16
            &&& b1 == (six_bits(group, 1) % 16) * 16 + six_bits(group, 2) / 4
            &&& b2 == (six_bits(group, 2) % 4) * 64 + six_bits(group, 3)
        }),
{
    lemma_digits_from_bytes(b0, b1, b2);
}

/// The alphabet, as one text.
proof fn lemma_alphabet(n: int)
    requires
        0 <= n < 64,
    ensures
        base64_digit(n)
            == "ABCDEFGHIJKLMNOPQRSTUVWXYZabcdefghijklmnopqrstuvwxyz0123456789+/"@[n],
{
    reveal_strlit("ABCDEFGHIJKLMNOPQRSTUVWXYZabcdefghijklmnopqrstuvwxyz0123456789+/");
}

/// Three bytes are written as four characters of the alphabet, six bits each; one byte
/// left over as two and two bytes left over as three, followed by padding.
pub proof fn law_base64_text_is_standard(bytes: Seq<u8>, g: int)
    requires
        0 <= g,
        3 * g < bytes.len(),
    ensures
        ({
            let alphabet = "ABCDEFGHIJKLMNOPQRSTUVWXYZabcdefghijklmnopqrstuvwxyz0123456789+/"@;
            let text = base64_text(bytes);
            let left = bytes.len() - 3 * g;
            let a = bytes[3 * g] as int;
            let b = if left > 1 {
                bytes[3 * g + 1] as int
            } else {
                0
            };
            let c = if left > 2 {
                bytes[3 * g + 2] as int
            } else {
                0
            };
            &&& text.len() == 4 * ((bytes.len() + 2) / 3)
            &&& text[4 * g] == alphabet[a / 4]
            &&& text[4 * g + 1] == alphabet[(a % 4) * 16 + b / 16]
            &&& text[4 * g + 2] == (if left > 1 {
                alphabet[(b % 16) * 4 + c / 64]
            } else {
                '='
            })
            &&& text[4 * g + 3] == (if left > 2 {
                alphabet[c % 64]
            } else {
                '='
            })
        }),
{
    let left = bytes.len() - 3 * g;
    let a = byte_or_zero(bytes, 3 * g);
    let b = byte_or_zero(bytes, 3 * g + 1);
    let c = byte_or_zero(bytes, 3 * g + 2);
    lemma_digits_from_bytes(a, b, c);
    lemma_alphabet(a / 4);
    lemma_alphabet((a % 4) * 16 + b / 16);
    lemma_alphabet((b % 16) * 4 + c / 64);
    lemma_alphabet(c % 64);
    assert((4 * g) / 4 == g && (4 * g) % 4 == 0);
    assert((4 * g + 1) / 4 == g && (4 * g + 1) % 4 == 1);
    assert((4 * g + 2) / 4 == g && (4 * g + 2) % 4 == 2);
    assert((4 * g + 3) / 4 == g && (4 * g + 3) % 4 == 3);
    let text = base64_text(bytes);
    assert(text[4 * g] == base64_char(bytes, 4 * g));
    assert(text[4 * g + 1] == base64_char(bytes, 4 * g + 1));
    assert(text[4 * g + 2] == base64_char(bytes, 4 * g + 2));
    assert(text[4 * g + 3] == base64_char(bytes, 4 * g + 3));
}

/// Every character of a base64 text can stand in a JSON string as it is.
pub proof fn law_base64_text_is_plain(bytes: Seq<u8>)
    ensures
        forall|i: int|
            0 <= i < base64_text(bytes).len() ==> {
                let c = #[trigger] base64_text(bytes)[i];
                c != '"' && c != '\\' && c as int >= 32
            },
{
    assert forall|i: int| 0 <= i < base64_text(bytes).len() implies ({
        let c = #[trigger] base64_text(bytes)[i];
        c != '"' && c != '\\' && c as int >= 32
    }) by {
        lemma_group_range(bytes, i / 4);
        lemma_six_bits(group_of_three(bytes, i / 4), i % 4);
        lemma_digit(six_bits(group_of_three(bytes, i / 4), i % 4));
    }
}

/// Distinct bytes have distinct base64 texts: what a text stands for can be read
/// back from it.
pub proof fn law_base64_text_is_injective(a: Seq<u8>, b: Seq<u8>)
    requires
        base64_text(a) == base64_text(b),
    ensures
        a == b,
{
    let t = base64_text(a);
    assert(t.len() == base64_text(b).len());
    if a.len() < b.len() {
        lemma_shorter_is_different(a, b);
    } else if b.len() < a.len() {
        lemma_shorter_is_different(b, a);
    }
    assert forall|k: int| 0 <= k < a.len() implies a[k] == b[k] by {
        let g = k / 3;
        lemma_same_digit(a, b, 4 * g);
        lemma_same_digit(a, b, 4 * g + 1);
        if 3 * g + 1 < a.len() {
            lemma_same_digit(a, b, 4 * g + 2);
        }
        if 3 * g + 2 < a.len() {
            lemma_same_digit(a, b, 4 * g + 3);
        }
        lemma_bytes_from_digits(
            byte_or_zero(a, 3 * g),
            byte_or_zero(a, 3 * g + 1),
            byte_or_zero(a, 3 * g + 2),
        );
        lemma_bytes_from_digits(
            byte_or_zero(b, 3 * g),
            byte_or_zero(b, 3 * g + 1),
            byte_or_zero(b, 3 * g + 2),
        );
        assert(k == 3 * g || k == 3 * g + 1 || k == 3 * g + 2);
    }
    assert(a =~= b);
}

proof fn lemma_same_digit(a: Seq<u8>, b: Seq<u8>, i: int)
    requires
        base64_text(a) == base64_text(b),
        a.len() == b.len(),
        0 <= i,
        3 * (i / 4) < a.len(),
        3 * (i / 4) + i % 4 <= a.len(),
    ensures
        six_bits(group_of_three(a, i / 4), i % 4) == six_bits(group_of_three(b, i / 4), i % 4),
{
    assert(base64_text(a)[i] == base64_char(a, i));
    assert(base64_text(b)[i] == base64_char(b, i));
    lemma_group_range(a, i / 4);
    lemma_group_range(b, i / 4);
    lemma_six_bits(group_of_three(a, i / 4), i % 4);
    lemma_six_bits(group_of_three(b, i / 4), i % 4);
    lemma_digit_is_injective(
        six_bits(group_of_three(a, i / 4), i % 4),
        six_bits(group_of_three(b, i / 4), i % 4),
    );
}

proof fn lemma_shorter_is_different(a: Seq<u8>, b: Seq<u8>)
    requires
        a.len() < b.len(),
    ensures
        base64_text(a) != base64_text(b),
{
    if base64_text(a) == base64_text(b) {
        assert(base64_text(a).len() == base64_text(b).len());
        // Both end in the same group, so the text of `a` has more padding.
        let g = a.len() as int / 3;
        let i = 4 * g + (a.len() as int % 3) + 1;
        assert(3 * (i / 4) + i % 4 == a.len() + 1);
        assert(base64_text(a)[i] == base64_char(a, i));
        assert(base64_text(b)[i] == base64_char(b, i));
        lemma_group_range(b, i / 4);
        lemma_six_bits(group_of_three(b, i / 4), i % 4);
        lemma_digit(six_bits(group_of_three(b, i / 4), i % 4));
    }
}

/// The bytes that a base64 text stands for; `None` for any other text.
pub open spec fn base64_bytes(text: Seq<char>) -> Option<Seq<u8>> {
    if exists|bytes: Seq<u8>| text == #[trigger] base64_text(bytes) {
        Some(choose|bytes: Seq<u8>| text == #[trigger] base64_text(bytes))
    } else {
        None
    }
}

/// Reading the base64 text of some bytes gives the bytes back.
pub proof fn law_base64_round_trip(bytes: Seq<u8>)
    ensures
        base64_bytes(base64_text(bytes)) == Some(bytes),
{
    let text = base64_text(bytes);
    let read = choose|b: Seq<u8>| text == #[trigger] base64_text(b);
    assert(text == base64_text(read));
    law_base64_text_is_injective(bytes, read);
}

/// A text reads as bytes exactly if it is the base64 text of these bytes.
pub proof fn law_base64_reads_what_was_written(text: Seq<char>, bytes: Seq<u8>)
    ensures
        base64_bytes(text) == Some(bytes) <==> text == base64_text(bytes),
        base64_bytes(text) is None <==> forall|b: Seq<u8>| text != #[trigger] base64_text(b),
{
    if text == base64_text(bytes) {
        law_base64_round_trip(bytes);
    }
}

/// Encodes bytes by `BASE64_STANDARD.encode` of the `base64` crate: the standard
/// alphabet, with padding. The call panics where the text would be longer than a
/// string can be.
#[verifier::external_body]
pub(crate) fn base64_encode(bytes: &[u8]) -> (text: String)
    requires
        bytes@.len() <= isize::MAX as int / 4 * 3,
    ensures
        text@ == base64_text(bytes@),
{
    BASE64_STANDARD.encode(bytes)
}

/// Decodes a text by `BASE64_STANDARD.decode` of the `base64` crate. It accepts the
/// base64 texts with canonical padding and without stray bits, which are exactly the
/// texts that encoding gives, and hands back the bytes that such a text stands for.
#[verifier::external_body]
pub(crate) fn base64_decode(text: &str) -> (bytes: Option<Vec<u8>>)
    ensures
        bytes matches Some(b) ==> text@ == base64_text(b@),
        bytes is None ==> forall|b: Seq<u8>| text@ != #[trigger] base64_text(b),
{
    BASE64_STANDARD.decode(text).ok()
}

} // verus!
