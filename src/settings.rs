use vstd::prelude::*;
use crate::cache::FetchError;
use crate::text::{i16_text_value, parse_i16};

verus! {

/// Largest search depth accepted.
pub const MAX_AMOUNT_TO_SEARCH: i16 = 1020;

/// A search depth is a decimal `i16` within `[0, MAX_AMOUNT_TO_SEARCH]`.
pub open spec fn amount_valid(s: Seq<char>) -> bool {
    match i16_text_value(s) {
        Some(v) => 0 <= v <= MAX_AMOUNT_TO_SEARCH,
        None => false,
    }
}

/// Whether `amount_to_search` is an acceptable search depth.
pub fn check_amount_to_search_validity(amount_to_search: &str) -> (r: bool)
    ensures
        r == amount_valid(amount_to_search@),
{
    match parse_i16(amount_to_search) {
        Some(num) => 0 <= num && num <= MAX_AMOUNT_TO_SEARCH,
        None => false,
    }
}

/// A Unicode `White_Space` character, as `char::is_whitespace` decides.
pub open spec fn is_white_space(c: char) -> bool {
    let u = c as u32;
    (9 <= u <= 13) || u == 32 || u == 0x85 || u == 0xA0 || u == 0x1680 || (0x2000 <= u <= 0x200A)
        || u == 0x2028 || u == 0x2029 || u == 0x202F || u == 0x205F || u == 0x3000
}

pub open spec fn trim_start(s: Seq<char>) -> Seq<char>
    decreases s.len(),
{
    if s.len() > 0 && is_white_space(s[0]) {
        trim_start(s.skip(1))
    } else {
        s
    }
}

pub open spec fn trim_end(s: Seq<char>) -> Seq<char>
    decreases s.len(),
{
    if s.len() > 0 && is_white_space(s.last()) {
        trim_end(s.drop_last())
    } else {
        s
    }
}

/// `s` without its leading and trailing whitespace.
pub open spec fn trim_of(s: Seq<char>) -> Seq<char> {
    trim_end(trim_start(s))
}

fn white_space(c: char) -> (r: bool)
    ensures
        r == is_white_space(c),
{
    let u = c as u32;
    (9 <= u && u <= 13) || u == 32 || u == 0x85 || u == 0xA0 || u == 0x1680 || (0x2000 <= u
        && u <= 0x200A) || u == 0x2028 || u == 0x2029 || u == 0x202F || u == 0x205F || u == 0x3000
}

/// The text without leading and trailing whitespace.
pub fn trimmed(s: &String) -> (r: String)
    ensures
        r@ == trim_of(s@),
{
    let text = s.as_str();
    let len = text.unicode_len();
    let mut i: usize = 0;
    assert(s@.skip(0) =~= s@);
    while i < len && white_space(text.get_char(i))
        invariant
            len == text@.len(),
            text@ == s@,
            i <= len,
            trim_start(s@) == trim_start(s@.skip(i as int)),
        decreases len - i,
    {
        assert(s@.skip(i as int).skip(1) =~= s@.skip(i + 1));
        i = i + 1;
    }
    assert(trim_start(s@) == s@.skip(i as int)) by {
        if i == len {
            assert(s@.skip(i as int) =~= Seq::<char>::empty());
        }
    }
    assert(s@.skip(i as int) =~= s@.subrange(i as int, len as int));
    let mut j: usize = len;
    while j > i && white_space(text.get_char(j - 1))
        invariant
            len == text@.len(),
            text@ == s@,
            i <= j <= len,
            trim_of(s@) == trim_end(s@.subrange(i as int, j as int)),
        decreases j,
    {
        assert(s@.subrange(i as int, j as int).drop_last() =~= s@.subrange(i as int, j - 1));
        j = j - 1;
    }
    String::from_str(text.substring_char(i, j))
}

pub open spec fn json_ws(b: u8) -> bool {
    b == 32 || b == 10 || b == 9 || b == 13
}

pub open spec fn bool_bytes(v: bool) -> Seq<u8> {
    if v { seq![116u8, 114, 117, 101] } else { seq![102u8, 97, 108, 115, 101] }
}

/// `b` is the JSON literal of `v` followed by nothing but whitespace.
pub open spec fn is_bool_output(b: Seq<u8>, v: bool) -> bool {
    let k = bool_bytes(v).len() as int;
    &&& b.len() >= k
    &&& b.take(k) == bool_bytes(v)
    &&& forall|i: int| k <= i < b.len() ==> json_ws(#[trigger] b[i])
}

/// Relies on serde_json::from_slice: a JSON `true` or `false`, with trailing whitespace,
/// reads as that boolean.
#[verifier::external_body]
fn json_bool(bytes: &Vec<u8>) -> (r: Option<bool>)
    ensures
        is_bool_output(bytes@, true) ==> r == Some(true),
        is_bool_output(bytes@, false) ==> r == Some(false),
{
    serde_json::from_slice::<bool>(bytes.as_slice()).ok()
}

/// The yes-or-no answer that the remote helper printed; a malformed payload otherwise.
pub fn read_script_answer(stdout: &Vec<u8>) -> (r: Result<bool, FetchError>)
    ensures
        is_bool_output(stdout@, true) ==> r == Ok::<bool, FetchError>(true),
        is_bool_output(stdout@, false) ==> r == Ok::<bool, FetchError>(false),
        r is Err ==> r == Err::<bool, FetchError>(FetchError::MalformedPayload),
{
    match json_bool(stdout) {
        Some(v) => Ok(v),
        None => Err(FetchError::MalformedPayload),
    }
}

} // verus!
