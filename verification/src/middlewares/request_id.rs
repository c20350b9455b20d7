//! The middleware that tags every response with a fresh request id.

use vstd::prelude::*;
use vstd::string::*;

use crate::middlewares::{is_header_value, is_header_value_char, is_valid_header_value, HeaderEntry};

verus! {

/// Name of the header that carries the request id.
pub open spec fn request_id_header_name() -> Seq<char> {
    "x-request-id"@
}

/// The lowercase hexadecimal digit of a number below sixteen.
pub open spec fn hex_digit(n: int) -> char {
    if n < 10 {
        (n + 48) as char
    } else {
        (n + 87) as char
    }
}

/// The bytes written out as lowercase hexadecimal, two digits per byte, the
/// high half first.
pub open spec fn hex_text(bytes: Seq<u8>) -> Seq<char> {
    Seq::new(
        2 * bytes.len(),
        |i: int|
            if i % 2 == 0 {
                hex_digit((bytes[i / 2] / 16) as int)
            } else {
                hex_digit((bytes[i / 2] % 16) as int)
            },
    )
}

/// The hyphenated form of sixteen UUID bytes: hex groups of 4, 2, 2, 2 and 6
/// bytes joined by hyphens.
pub open spec fn hyphenated(bytes: Seq<u8>) -> Seq<char> {
    hex_text(bytes.subrange(0, 4)) + seq!['-'] + hex_text(bytes.subrange(4, 6)) + seq!['-']
        + hex_text(bytes.subrange(6, 8)) + seq!['-'] + hex_text(bytes.subrange(8, 10)) + seq!['-']
        + hex_text(bytes.subrange(10, 16))
}

/// A lowercase hexadecimal digit.
pub open spec fn is_lower_hex(c: char) -> bool {
    ('0' <= c && c <= '9') || ('a' <= c && c <= 'f')
}

/// The text of a random (version 4, RFC 4122 variant) UUID in hyphenated
/// lowercase form: 36 characters, hyphens at 8, 13, 18 and 23, lowercase hex
/// digits elsewhere, the version digit `4` at 14 and one of `8`, `9`, `a`, `b`
/// at 19.
pub open spec fn is_uuid_v4_text(s: Seq<char>) -> bool {
    &&& s.len() == 36
    &&& forall|i: int|
        0 <= i < 36 ==> if i == 8 || i == 13 || i == 18 || i == 23 {
            s[i] == '-'
        } else {
            is_lower_hex(#[trigger] s[i])
        }
    &&& s[14] == '4'
    &&& (s[19] == '8' || s[19] == '9' || s[19] == 'a' || s[19] == 'b')
}

/// Draws the bytes of a random UUID with `uuid::Uuid::new_v4`.
///
/// The bytes are random. What the contract claims is what `new_v4` sets
/// after drawing them: the version nibble (high half of byte 6) is 4, and
/// the two top bits of byte 8 are `10`.
#[verifier::external_body]
fn random_uuid_bytes() -> (res: [u8; 16])
    ensures
        0x40 <= res@[6] < 0x50,
        0x80 <= res@[8] < 0xc0,
{
    *uuid::Uuid::new_v4().as_bytes()
}

/// Writes sixteen bytes as a UUID through `uuid::Uuid::from_bytes` and its
/// `Display` (`to_string`).
///
/// The contract claims that the text is the hyphenated lowercase hex form of
/// the bytes, in their order.
#[verifier::external_body]
fn uuid_text(bytes: [u8; 16]) -> (res: String)
    ensures
        res@ == hyphenated(bytes@),
{
    uuid::Uuid::from_bytes(bytes).to_string()
}

proof fn lemma_hex_text(bytes: Seq<u8>, k: int)
    requires
        0 <= k < bytes.len(),
    ensures
        hex_text(bytes).len() == 2 * bytes.len(),
        hex_text(bytes)[2 * k] == hex_digit((bytes[k] / 16) as int),
        hex_text(bytes)[2 * k + 1] == hex_digit((bytes[k] % 16) as int),
{
    assert((2 * k) / 2 == k);
    assert((2 * k + 1) / 2 == k);
    assert((2 * k) % 2 == 0);
    assert((2 * k + 1) % 2 == 1);
}

proof fn lemma_hex_text_digits(bytes: Seq<u8>)
    ensures
        hex_text(bytes).len() == 2 * bytes.len(),
        forall|i: int| 0 <= i < hex_text(bytes).len() ==> is_lower_hex(#[trigger] hex_text(bytes)[i]),
{
    assert forall|i: int| 0 <= i < hex_text(bytes).len() implies is_lower_hex(
        #[trigger] hex_text(bytes)[i],
    ) by {
        let b = bytes[i / 2];
        assert(0 <= b / 16 < 16);
        assert(0 <= b % 16 < 16);
    }
}

/// The hyphenated text of bytes that carry the version 4 and RFC 4122 variant
/// marks is a random-UUID text.
proof fn lemma_hyphenated_v4(bytes: Seq<u8>)
    requires
        bytes.len() == 16,
        0x40 <= bytes[6] < 0x50,
        0x80 <= bytes[8] < 0xc0,
    ensures
        is_uuid_v4_text(hyphenated(bytes)),
{
    let a = hex_text(bytes.subrange(0, 4));
    let b = hex_text(bytes.subrange(4, 6));
    let c = hex_text(bytes.subrange(6, 8));
    let d = hex_text(bytes.subrange(8, 10));
    let e = hex_text(bytes.subrange(10, 16));
    lemma_hex_text_digits(bytes.subrange(0, 4));
    lemma_hex_text_digits(bytes.subrange(4, 6));
    lemma_hex_text_digits(bytes.subrange(6, 8));
    lemma_hex_text_digits(bytes.subrange(8, 10));
    lemma_hex_text_digits(bytes.subrange(10, 16));
    lemma_hex_text(bytes.subrange(6, 8), 0);
    lemma_hex_text(bytes.subrange(8, 10), 0);
    let s = hyphenated(bytes);
    assert(s.len() == 36);
    assert forall|i: int|
        0 <= i < 36 implies if i == 8 || i == 13 || i == 18 || i == 23 {
        s[i] == '-'
    } else {
        is_lower_hex(#[trigger] s[i])
    } by {
        if i < 8 {
            assert(s[i] == a[i]);
        } else if i == 8 {
        } else if i < 13 {
            assert(s[i] == b[i - 9]);
        } else if i == 13 {
        } else if i < 18 {
            assert(s[i] == c[i - 14]);
        } else if i == 18 {
        } else if i < 23 {
            assert(s[i] == d[i - 19]);
        } else if i == 23 {
        } else {
            assert(s[i] == e[i - 24]);
        }
    }
    assert(s[14] == c[0]);
    assert(s[19] == d[0]);
    assert(bytes.subrange(6, 8)[0] / 16 == 4);
    let hi = bytes.subrange(8, 10)[0] / 16;
    assert(8 <= hi < 12);
}

proof fn lemma_hex_digit_injective(a: int, b: int)
    requires
        0 <= a < 16,
        0 <= b < 16,
        hex_digit(a) == hex_digit(b),
    ensures
        a == b,
{
}

proof fn lemma_hex_text_injective(x: Seq<u8>, y: Seq<u8>)
    requires
        x.len() == y.len(),
        hex_text(x) == hex_text(y),
    ensures
        x == y,
{
    assert forall|k: int| 0 <= k < x.len() implies x[k] == y[k] by {
        lemma_hex_text(x, k);
        lemma_hex_text(y, k);
        assert(hex_text(x)[2 * k] == hex_text(y)[2 * k]);
        assert(hex_text(x)[2 * k + 1] == hex_text(y)[2 * k + 1]);
        lemma_hex_digit_injective((x[k] / 16) as int, (y[k] / 16) as int);
        lemma_hex_digit_injective((x[k] % 16) as int, (y[k] % 16) as int);
    }
    assert(x =~= y);
}

/// Two request ids made of sixteen bytes each are equal exactly when the
/// bytes are equal: different draws give different ids.
pub proof fn lemma_request_ids_equal_iff_bytes_equal(x: Seq<u8>, y: Seq<u8>)
    requires
        x.len() == 16,
        y.len() == 16,
    ensures
        hyphenated(x) == hyphenated(y) <==> x == y,
{
    if hyphenated(x) == hyphenated(y) {
        let hx = hyphenated(x);
        let hy = hyphenated(y);
        lemma_hex_text_digits(x.subrange(0, 4));
        lemma_hex_text_digits(y.subrange(0, 4));
        lemma_hex_text_digits(x.subrange(4, 6));
        lemma_hex_text_digits(y.subrange(4, 6));
        lemma_hex_text_digits(x.subrange(6, 8));
        lemma_hex_text_digits(y.subrange(6, 8));
        lemma_hex_text_digits(x.subrange(8, 10));
        lemma_hex_text_digits(y.subrange(8, 10));
        lemma_hex_text_digits(x.subrange(10, 16));
        lemma_hex_text_digits(y.subrange(10, 16));
        assert(hex_text(x.subrange(0, 4)) =~= hx.subrange(0, 8));
        assert(hex_text(y.subrange(0, 4)) =~= hy.subrange(0, 8));
        assert(hex_text(x.subrange(4, 6)) =~= hx.subrange(9, 13));
        assert(hex_text(y.subrange(4, 6)) =~= hy.subrange(9, 13));
        assert(hex_text(x.subrange(6, 8)) =~= hx.subrange(14, 18));
        assert(hex_text(y.subrange(6, 8)) =~= hy.subrange(14, 18));
        assert(hex_text(x.subrange(8, 10)) =~= hx.subrange(19, 23));
        assert(hex_text(y.subrange(8, 10)) =~= hy.subrange(19, 23));
        assert(hex_text(x.subrange(10, 16)) =~= hx.subrange(24, 36));
        assert(hex_text(y.subrange(10, 16)) =~= hy.subrange(24, 36));
        lemma_hex_text_injective(x.subrange(0, 4), y.subrange(0, 4));
        lemma_hex_text_injective(x.subrange(4, 6), y.subrange(4, 6));
        lemma_hex_text_injective(x.subrange(6, 8), y.subrange(6, 8));
        lemma_hex_text_injective(x.subrange(8, 10), y.subrange(8, 10));
        lemma_hex_text_injective(x.subrange(10, 16), y.subrange(10, 16));
        assert forall|k: int| 0 <= k < 16 implies x[k] == y[k] by {
            if k < 4 {
                assert(x[k] == x.subrange(0, 4)[k] && y[k] == y.subrange(0, 4)[k]);
            } else if k < 6 {
                assert(x[k] == x.subrange(4, 6)[k - 4] && y[k] == y.subrange(4, 6)[k - 4]);
            } else if k < 8 {
                assert(x[k] == x.subrange(6, 8)[k - 6] && y[k] == y.subrange(6, 8)[k - 6]);
            } else if k < 10 {
                assert(x[k] == x.subrange(8, 10)[k - 8] && y[k] == y.subrange(8, 10)[k - 8]);
            } else {
                assert(x[k] == x.subrange(10, 16)[k - 10] && y[k] == y.subrange(10, 16)[k - 10]);
            }
        }
        assert(x =~= y);
    }
}

/// A random-UUID text is a valid header value.
pub proof fn lemma_uuid_text_is_header_value(s: Seq<char>)
    requires
        is_uuid_v4_text(s),
    ensures
        is_header_value(s),
{
    assert forall|i: int| 0 <= i < s.len() implies #[trigger] is_header_value_char(s[i]) by {
        if i == 8 || i == 13 || i == 18 || i == 23 {
        } else {
            assert(is_lower_hex(s[i]));
        }
    }
}

/// Middleware factory that tags every response with a request id.
#[derive(Debug, Clone, Copy)]
pub struct RequestId;

/// The middleware that [`RequestId`] builds around a service.
#[derive(Debug, Clone, Copy)]
pub struct RequestIdMiddleware;

impl RequestId {
    /// Builds the middleware.
    pub fn new_transform(&self) -> (res: RequestIdMiddleware) {
        RequestIdMiddleware
    }
}

impl RequestIdMiddleware {
    /// The request id made of sixteen drawn bytes: their hyphenated lowercase
    /// hex form. Bytes that carry the version 4 and RFC 4122 variant marks
    /// give a random-UUID text.
    pub fn request_id_from_bytes(&self, bytes: [u8; 16]) -> (res: String)
        ensures
            res@ == hyphenated(bytes@),
            (0x40 <= bytes@[6] < 0x50 && 0x80 <= bytes@[8] < 0xc0) ==> is_uuid_v4_text(res@),
    {
        let text = uuid_text(bytes);
        proof {
            if 0x40 <= bytes@[6] < 0x50 && 0x80 <= bytes@[8] < 0xc0 {
                lemma_hyphenated_v4(bytes@);
            }
        }
        text
    }

    /// A fresh request id: a random UUID in hyphenated lowercase form, the
    /// hyphenated text of sixteen bytes that carry the version 4 and RFC 4122
    /// variant marks.
    pub fn new_request_id(&self) -> (res: String)
        ensures
            is_uuid_v4_text(res@),
            exists|b: Seq<u8>|
                b.len() == 16 && 0x40 <= b[6] < 0x50 && 0x80 <= b[8] < 0xc0 && res@ == hyphenated(
                    b,
                ),
    {
        let bytes = random_uuid_bytes();
        self.request_id_from_bytes(bytes)
    }

    /// The header added to a response carrying `request_id`, when the id is a
    /// valid header value.
    pub fn request_id_header(&self, request_id: String) -> (res: Option<HeaderEntry>)
        ensures
            res is Some <==> is_header_value(request_id@),
            res matches Some(h) ==> h.name@ == request_id_header_name() && h.value@
                == request_id@,
    {
        if is_valid_header_value(request_id.as_str()) {
            Some(HeaderEntry { name: String::from_str("x-request-id"), value: request_id })
        } else {
            None
        }
    }

    /// The header added to every response: `x-request-id` with a fresh random
    /// UUID. It is always present.
    pub fn call(&self) -> (res: Option<HeaderEntry>)
        ensures
            res matches Some(h) && h.name@ == request_id_header_name() && is_uuid_v4_text(
                h.value@,
            ),
    {
        let id = self.new_request_id();
        proof {
            lemma_uuid_text_is_header_value(id@);
        }
        self.request_id_header(id)
    }
}

} // verus!
