//! Random identifiers, made by the `uuid` crate.
use vstd::prelude::*;
use vstd::string::StringExecFns;

verus! {

/// A lower-case hexadecimal digit: `0` to `9` or `a` to `f`.
pub open spec fn is_lower_hex_digit(c: char) -> bool {
    ('0' <= c && c <= '9') || ('a' <= c && c <= 'f')
}

/// The lower-case hexadecimal digit of `n` (below sixteen).
pub open spec fn hex_digit(n: int) -> char {
    if n < 10 {
        (n + 48) as char
    } else {
        (n + 87) as char
    }
}

/// The simple text of the identifier with the bytes `b`: two lower-case
/// hexadecimal digits per byte, the high half first.
pub open spec fn simple_id_text(b: Seq<u8>) -> Seq<char> {
    Seq::new(
        32,
        |i: int|
            hex_digit(
                if i % 2 == 0 {
                    (b[i / 2] / 16) as int
                } else {
                    (b[i / 2] % 16) as int
                },
            ),
    )
}

/// The hyphenated text of the identifier with the bytes `b`: its simple text
/// cut into groups of 8, 4, 4, 4 and 12 digits joined by hyphens.
pub open spec fn hyphenated_id_text(b: Seq<u8>) -> Seq<char> {
    let s = simple_id_text(b);
    s.subrange(0, 8) + seq!['-'] + s.subrange(8, 12) + seq!['-'] + s.subrange(12, 16) + seq!['-']
        + s.subrange(16, 20) + seq!['-'] + s.subrange(20, 32)
}

/// The simple text form of an identifier: 32 lower-case hexadecimal digits.
pub open spec fn is_simple_id_text(s: Seq<char>) -> bool {
    &&& s.len() == 32
    &&& forall|i: int| 0 <= i < 32 ==> #[trigger] is_lower_hex_digit(s[i])
}

/// The hyphenated text form of an identifier: 36 characters, with hyphens at
/// positions 8, 13, 18 and 23 and lower-case hexadecimal digits elsewhere.
pub open spec fn is_hyphenated_id_text(s: Seq<char>) -> bool {
    &&& s.len() == 36
    &&& forall|i: int|
        0 <= i < 36 ==> if i == 8 || i == 13 || i == 18 || i == 23 {
            s[i] == '-'
        } else {
            #[trigger] is_lower_hex_digit(s[i])
        }
}

/// One of the digits `8`, `9`, `a`, `b`: the high digit of the variant byte of
/// an RFC 9562 identifier.
pub open spec fn is_variant_digit(c: char) -> bool {
    c == '8' || c == '9' || c == 'a' || c == 'b'
}

/// The hyphenated text of a random (version 4, RFC 9562 variant) identifier:
/// the version digit `4` at position 14 and a variant digit at position 19.
pub open spec fn is_random_id_text(s: Seq<char>) -> bool {
    &&& is_hyphenated_id_text(s)
    &&& s[14] == '4'
    &&& is_variant_digit(s[19])
}

/// The simple text of a random (version 4, RFC 9562 variant) identifier: the
/// version digit `4` at position 12 and a variant digit at position 16.
pub open spec fn is_random_simple_id_text(s: Seq<char>) -> bool {
    &&& is_simple_id_text(s)
    &&& s[12] == '4'
    &&& is_variant_digit(s[16])
}

/// The bytes of a random identifier: a version 4 identifier carries the
/// version 4 in the high half of byte 6 and the RFC 9562 variant (binary `10`)
/// in the top bits of byte 8.
pub open spec fn is_random_id_bytes(b: Seq<u8>) -> bool {
    &&& b.len() == 16
    &&& b[6] / 16 == 4
    &&& 8 <= b[8] / 16 <= 11
}

/// `uuid::Uuid::new_v4` (taken as its bytes): random bytes, except that the
/// version and variant bits are set to version 4 and the RFC 9562 variant.
#[verifier::external_body]
fn new_random_id_bytes() -> (b: [u8; 16])
    ensures
        is_random_id_bytes(b@),
{
    uuid::Uuid::new_v4().into_bytes()
}

/// `Display` of `uuid::Uuid` (through `to_string`) for the identifier with
/// these bytes: the lower-case hyphenated form.
#[verifier::external_body]
fn id_hyphenated_text(b: &[u8; 16]) -> (s: String)
    ensures
        s@ == hyphenated_id_text(b@),
{
    uuid::Uuid::from_bytes(*b).to_string()
}

/// `Display` of the `simple` form of `uuid::Uuid` for the identifier with
/// these bytes: 32 lower-case hexadecimal digits.
#[verifier::external_body]
fn id_simple_text(b: &[u8; 16]) -> (s: String)
    ensures
        s@ == simple_id_text(b@),
{
    uuid::Uuid::from_bytes(*b).simple().to_string()
}

/// The digit of a number below sixteen is a lower-case hexadecimal digit.
proof fn lemma_hex_digit(n: int)
    requires
        0 <= n < 16,
    ensures
        is_lower_hex_digit(hex_digit(n)),
        n == 4 ==> hex_digit(n) == '4',
        8 <= n <= 11 ==> is_variant_digit(hex_digit(n)),
{
}

/// The simple text of any 16 bytes has the simple form, and the digits at
/// positions 12 and 16 are the high digits of bytes 6 and 8.
proof fn lemma_simple_text(b: Seq<u8>)
    requires
        b.len() == 16,
    ensures
        is_simple_id_text(simple_id_text(b)),
        simple_id_text(b)[12] == hex_digit((b[6] / 16) as int),
        simple_id_text(b)[16] == hex_digit((b[8] / 16) as int),
{
    let s = simple_id_text(b);
    assert forall|i: int| 0 <= i < 32 implies #[trigger] is_lower_hex_digit(s[i]) by {
        if i % 2 == 0 {
            lemma_hex_digit((b[i / 2] / 16) as int);
        } else {
            lemma_hex_digit((b[i / 2] % 16) as int);
        }
    }
}

/// The hyphenated text of any 16 bytes has the hyphenated form, with the
/// digits at positions 14 and 19 taken from positions 12 and 16 of the simple
/// text.
proof fn lemma_hyphenated_text(b: Seq<u8>)
    requires
        b.len() == 16,
    ensures
        is_hyphenated_id_text(hyphenated_id_text(b)),
        hyphenated_id_text(b)[14] == simple_id_text(b)[12],
        hyphenated_id_text(b)[19] == simple_id_text(b)[16],
{
    lemma_simple_text(b);
    let s = simple_id_text(b);
    let h = hyphenated_id_text(b);
    assert forall|i: int| 0 <= i < 36 implies if i == 8 || i == 13 || i == 18 || i == 23 {
        h[i] == '-'
    } else {
        #[trigger] is_lower_hex_digit(h[i])
    } by {
        if i < 8 {
            assert(h[i] == s[i]);
        } else if i == 8 {
        } else if i < 13 {
            assert(h[i] == s[i - 1]);
        } else if i == 13 {
        } else if i < 18 {
            assert(h[i] == s[i - 2]);
        } else if i == 18 {
        } else if i < 23 {
            assert(h[i] == s[i - 3]);
        } else if i == 23 {
        } else {
            assert(h[i] == s[i - 4]);
        }
    }
}

/// A fresh random (version 4) identifier in hyphenated form, as used for
/// tasks and messages.
pub fn new_task_id() -> (id: String)
    ensures
        is_random_id_text(id@),
{
    let b = new_random_id_bytes();
    let id = id_hyphenated_text(&b);
    proof {
        lemma_hyphenated_text(b@);
        lemma_hex_digit((b@[6] / 16) as int);
        lemma_hex_digit((b@[8] / 16) as int);
    }
    id
}

/// A fresh random webhook token: `wh_` followed by the 32 lower-case
/// hexadecimal digits of a random (version 4) identifier.
pub fn new_webhook_token() -> (t: String)
    ensures
        t@.len() == 35,
        t@.take(3) == "wh_"@,
        is_random_simple_id_text(t@.skip(3)),
{
    let b = new_random_id_bytes();
    let digits = id_simple_text(&b);
    proof {
        lemma_simple_text(b@);
        lemma_hex_digit((b@[6] / 16) as int);
        lemma_hex_digit((b@[8] / 16) as int);
    }
    let mut t = String::from_str("wh_");
    let ghost prefix = t@;
    t.append(digits.as_str());
    proof {
        reveal_strlit("wh_");
        assert(t@.take(3) =~= prefix);
        assert(t@.skip(3) =~= digits@);
    }
    t
}

} // verus!
