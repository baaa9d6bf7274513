use vstd::prelude::*;
use vstd::string::*;
use crate::text::{char_uppercase, str_trim, trim, uppercase_mapping};

verus! {

broadcast use vstd::string::group_string_axioms;

/// Shown in an avatar circle for a name with no letter.
pub const NO_LETTER: &'static str = "؟";

/// The avatar letter of a name: the upper-case mapping of the first character of the trimmed
/// name, or [`NO_LETTER`] for a blank name.
pub open spec fn avatar_letter(name: Seq<char>) -> Seq<char> {
    if trim(name).len() == 0 {
        NO_LETTER@
    } else {
        uppercase_mapping(trim(name)[0])
    }
}

/// The avatar letter of a name with any character besides whitespace is the upper-case
/// mapping of its first such character, whatever that character is; a blank name has the
/// letter [`NO_LETTER`].
pub proof fn lemma_avatar_letter(name: Seq<char>)
    ensures
        trim(name).len() > 0 ==> avatar_letter(name) == uppercase_mapping(trim(name)[0]),
        trim(name).len() == 0 ==> avatar_letter(name) == NO_LETTER@,
{
}

/// The sum of the bytes of `b`.
pub open spec fn byte_sum(b: Seq<u8>) -> int
    decreases b.len(),
{
    if b.len() == 0 {
        0
    } else {
        byte_sum(b.drop_last()) + b.last()
    }
}

/// The avatar colours, in order.
pub open spec fn palette(i: int) -> Seq<char> {
    if i == 0 {
        "#0E7C66"@
    } else if i == 1 {
        "#2563EB"@
    } else if i == 2 {
        "#D97706"@
    } else if i == 3 {
        "#7C3AED"@
    } else if i == 4 {
        "#DB2777"@
    } else {
        "#0891B2"@
    }
}

/// The number of avatar colours.
pub const PALETTE_LEN: u32 = 6;

/// The avatar colour of a name, chosen by the sum of its UTF-8 bytes.
pub open spec fn avatar_color(name: Seq<char>) -> Seq<char> {
    palette(byte_sum(vstd::utf8::encode_utf8(name)) % (PALETTE_LEN as int))
}

/// A prefix of a byte sequence sums to no more than the whole.
proof fn lemma_byte_sum_prefix(b: Seq<u8>, i: int)
    requires
        0 <= i <= b.len(),
    ensures
        byte_sum(b.take(i)) <= byte_sum(b),
    decreases b.len(),
{
    if i < b.len() {
        lemma_byte_sum_prefix(b.drop_last(), i);
        assert(b.drop_last().take(i) == b.take(i));
    } else {
        assert(b.take(i) == b);
    }
}

/// The avatar letter of a name: the upper-cased first character of the trimmed name, or
/// [`NO_LETTER`] when the name is blank.
pub fn first_letter(name: &str) -> (r: String)
    ensures
        r@ == avatar_letter(name@),
        r@.len() >= 1,
        trim(name@).len() > 0 ==> r@ == uppercase_mapping(trim(name@)[0]),
        trim(name@).len() == 0 ==> r@ == NO_LETTER@,
{
    let t = str_trim(name);
    if t.is_empty() {
        proof {
            reveal_strlit("؟");
        }
        NO_LETTER.to_string()
    } else {
        char_uppercase(t.get_char(0))
    }
}

/// The colour of the palette entry `i`.
fn palette_entry(i: u32) -> (r: &'static str)
    requires
        i < PALETTE_LEN,
    ensures
        r@ == palette(i as int),
{
    if i == 0 {
        "#0E7C66"
    } else if i == 1 {
        "#2563EB"
    } else if i == 2 {
        "#D97706"
    } else if i == 3 {
        "#7C3AED"
    } else if i == 4 {
        "#DB2777"
    } else {
        "#0891B2"
    }
}

/// The avatar colour of a name: the palette entry picked by the sum of its UTF-8 bytes, so
/// that one name always gets one colour. The sum is a `u32`; `None` when it does not fit.
pub fn initial_color(name: &str) -> (r: Option<String>)
    ensures
        match r {
            Some(c) => byte_sum(name.spec_bytes()) <= u32::MAX && c@ == avatar_color(name@),
            None => byte_sum(name.spec_bytes()) > u32::MAX,
        },
{
    let bytes = name.as_bytes();
    let n = bytes.len();
    let mut sum: u32 = 0;
    let mut i: usize = 0;
    while i < n
        invariant
            n == bytes@.len(),
            bytes@ == name.spec_bytes(),
            i <= n,
            sum == byte_sum(bytes@.take(i as int)),
        decreases n - i,
    {
        proof {
            assert(bytes@.take(i + 1).drop_last() == bytes@.take(i as int));
        }
        match sum.checked_add(bytes[i] as u32) {
            Some(s) => {
                sum = s;
            },
            None => {
                proof {
                    lemma_byte_sum_prefix(bytes@, i + 1);
                }
                return None;
            },
        }
        i += 1;
    }
    proof {
        assert(bytes@.take(n as int) == bytes@);
    }
    Some(palette_entry(sum % PALETTE_LEN).to_string())
}

} // verus!
