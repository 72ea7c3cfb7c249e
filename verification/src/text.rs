//! Extraction of text from NUL-padded fixed-width byte-array fields.
//!
//! The rule is the same for every text-bearing field: the logical content
//! is the bytes before the first zero byte (the whole array when no zero
//! occurs), decoded to text lossily, so that invalid byte sequences become
//! replacement characters rather than errors.

use crate::layout::Utmpx;
use vstd::prelude::*;

verus! {

/// Index of the first zero byte of `b`, or `b.len()` when none occurs.
pub open spec fn nul_pos(b: Seq<u8>) -> int
    decreases b.len(),
{
    if b.len() == 0 {
        0
    } else if b[0] == 0 {
        0
    } else {
        1 + nul_pos(b.subrange(1, b.len() as int))
    }
}

/// The logical content of a fixed-width text field: the bytes before the
/// first zero byte.
pub open spec fn text_content(b: Seq<u8>) -> Seq<u8> {
    b.take(nul_pos(b))
}

/// `nul_pos` is exactly the index of the first zero byte.
pub proof fn lemma_nul_pos_is_first_zero(b: Seq<u8>, i: int)
    requires
        0 <= i < b.len(),
        b[i] == 0,
        forall|j: int| 0 <= j < i ==> b[j] != 0,
    ensures
        nul_pos(b) == i,
    decreases b.len(),
{
    if i != 0 {
        let t = b.subrange(1, b.len() as int);
        assert(t[i - 1] == 0);
        assert(forall|j: int| 0 <= j < i - 1 ==> t[j] == b[j + 1] && t[j] != 0);
        lemma_nul_pos_is_first_zero(t, i - 1);
    }
}

/// Without a zero byte, `nul_pos` is the array length.
pub proof fn lemma_nul_pos_no_zero(b: Seq<u8>)
    requires
        forall|j: int| 0 <= j < b.len() ==> b[j] != 0,
    ensures
        nul_pos(b) == b.len(),
    decreases b.len(),
{
    if b.len() != 0 {
        let t = b.subrange(1, b.len() as int);
        assert(forall|j: int| 0 <= j < t.len() ==> t[j] == b[j + 1] && t[j] != 0);
        lemma_nul_pos_no_zero(t);
    }
}

/// Law: with a zero byte first at index `i`, the extracted content is
/// exactly the bytes before `i`.
pub proof fn lemma_text_content_first_zero(b: Seq<u8>, i: int)
    requires
        0 <= i < b.len(),
        b[i] == 0,
        forall|j: int| 0 <= j < i ==> b[j] != 0,
    ensures
        text_content(b) == b.take(i),
{
    lemma_nul_pos_is_first_zero(b, i);
}

/// Law: without a zero byte, the extracted content is the whole array.
pub proof fn lemma_text_content_no_zero(b: Seq<u8>)
    requires
        forall|j: int| 0 <= j < b.len() ==> b[j] != 0,
    ensures
        text_content(b) == b,
{
    lemma_nul_pos_no_zero(b);
    assert(b.take(b.len() as int) =~= b);
}

/// The text that lossy decoding gives for a byte sequence.
pub uninterp spec fn lossy_utf8(bytes: Seq<u8>) -> Seq<char>;

/// Relies on `String::from_utf8_lossy`: invalid byte sequences become
/// replacement characters, the call never fails, and the result depends on
/// the bytes alone; bytes below 0x80 decode to the characters with the
/// same values.
#[verifier::external_body]
fn utf8_lossy(bytes: &Vec<u8>) -> (r: String)
    ensures
        r@ == lossy_utf8(bytes@),
        (forall|i: int| 0 <= i < bytes@.len() ==> bytes@[i] < 0x80) ==> r@ == bytes@.map_values(
            |x: u8| x as char,
        ),
{
    String::from_utf8_lossy(bytes.as_slice()).into_owned()
}

/// Decode the logical content of a fixed-width text field: the bytes
/// before the first zero byte, converted to text lossily.
pub fn extract_text(field: &Vec<u8>) -> (r: String)
    ensures
        r@ == lossy_utf8(text_content(field@)),
        (forall|i: int|
            0 <= i < text_content(field@).len() ==> text_content(field@)[i] < 0x80) ==> r@
            == text_content(field@).map_values(|x: u8| x as char),
{
    let mut i: usize = 0;
    loop
        invariant_except_break
            i <= field@.len(),
            forall|j: int| 0 <= j < i ==> field@[j] != 0,
        ensures
            i <= field@.len(),
            forall|j: int| 0 <= j < i ==> field@[j] != 0,
            i < field@.len() ==> field@[i as int] == 0,
        decreases field@.len() - i,
    {
        if i == field.len() {
            break;
        }
        if field[i] == 0 {
            break;
        }
        i += 1;
    }
    proof {
        if i < field@.len() {
            lemma_nul_pos_is_first_zero(field@, i as int);
        } else {
            lemma_nul_pos_no_zero(field@);
        }
    }
    let prefix = vstd::slice::slice_to_vec(vstd::slice::slice_subrange(field.as_slice(), 0, i));
    proof {
        assert(prefix@ =~= text_content(field@));
    }
    utf8_lossy(&prefix)
}

impl Utmpx {
    /// The login name: the content of the `ut_user` field, decoded by the
    /// fixed-width text rule.
    pub fn get_ut_user(&self) -> (r: String)
        ensures
            r@ == lossy_utf8(text_content(self.ut_user@)),
            (forall|i: int|
                0 <= i < text_content(self.ut_user@).len() ==> text_content(self.ut_user@)[i]
                    < 0x80) ==> r@ == text_content(self.ut_user@).map_values(|x: u8| x as char),
    {
        extract_text(&self.ut_user)
    }
}

} // verus!
