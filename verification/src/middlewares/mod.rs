//! Middlewares wrapped around the request handlers, and the response headers
//! they add.

pub mod auth;
pub mod request_id;
pub mod timer;

use vstd::prelude::*;
use vstd::string::*;

verus! {

/// A response header: its (lowercase) name and its value.
#[derive(Debug, Clone, PartialEq, Eq)]
pub struct HeaderEntry {
    pub name: String,
    pub value: String,
}

/// A character that may stand in a header value: a horizontal tab, or any
/// character from the space upwards except DEL.
pub open spec fn is_header_value_char(c: char) -> bool {
    (c as u32 >= 32 && c as u32 != 127) || c == '\t'
}

/// Every character of the text may stand in a header value.
pub open spec fn is_header_value(s: Seq<char>) -> bool {
    forall|i: int| 0 <= i < s.len() ==> #[trigger] is_header_value_char(s[i])
}

/// Whether the text is accepted as a header value.
pub fn is_valid_header_value(s: &str) -> (res: bool)
    ensures
        res == is_header_value(s@),
{
    let n = s.unicode_len();
    let mut i: usize = 0;
    while i < n
        invariant
            n == s@.len(),
            i <= n,
            forall|j: int| 0 <= j < i ==> #[trigger] is_header_value_char(s@[j]),
        decreases n - i,
    {
        let c = s.get_char(i);
        let code = c as u32;
        if !((code >= 32 && code != 127) || c == '\t') {
            assert(!is_header_value_char(s@[i as int]));
            return false;
        }
        i = i + 1;
    }
    true
}

/// Which single characters may stand in a header value: exactly the tab and
/// the characters from the space upwards other than DEL. The control
/// characters below the space (other than tab) and DEL may not.
pub proof fn lemma_header_value_single_char(c: char)
    ensures
        is_header_value(seq![c]) <==> (c == '\t' || (c as u32 >= 32 && c as u32 != 127)),
        is_header_value(seq![c]) ==> c as u32 >= 9,
{
    if is_header_value(seq![c]) {
        assert(is_header_value_char(seq![c][0]));
    }
}

/// A text is a header value exactly when each of its parts is: joining two
/// texts gives a header value if and only if both are header values. The
/// empty text is one.
pub proof fn lemma_header_value_concat(s: Seq<char>, t: Seq<char>)
    ensures
        is_header_value(s + t) <==> (is_header_value(s) && is_header_value(t)),
        is_header_value(Seq::<char>::empty()),
{
    if is_header_value(s + t) {
        assert forall|i: int| 0 <= i < s.len() implies #[trigger] is_header_value_char(s[i]) by {
            assert((s + t)[i] == s[i]);
        }
        assert forall|i: int| 0 <= i < t.len() implies #[trigger] is_header_value_char(t[i]) by {
            assert((s + t)[s.len() + i] == t[i]);
        }
    }
    if is_header_value(s) && is_header_value(t) {
        assert forall|i: int| 0 <= i < (s + t).len() implies #[trigger] is_header_value_char(
            (s + t)[i],
        ) by {
            if i < s.len() {
                assert((s + t)[i] == s[i]);
            } else {
                assert((s + t)[i] == t[i - s.len()]);
            }
        }
    }
}

/// A decimal number written out (digits, a point, a minus sign, an exponent
/// letter `e`) is always a header value: the elapsed time, however it is
/// written, can be sent.
pub proof fn lemma_decimal_text_is_header_value(s: Seq<char>)
    requires
        forall|i: int|
            0 <= i < s.len() ==> ('0' <= #[trigger] s[i] <= '9' || s[i] == '.' || s[i] == '-'
                || s[i] == 'e'),
    ensures
        is_header_value(s),
{
    assert forall|i: int| 0 <= i < s.len() implies #[trigger] is_header_value_char(s[i]) by {
        assert('0' <= s[i] <= '9' || s[i] == '.' || s[i] == '-' || s[i] == 'e');
    }
}

} // verus!
