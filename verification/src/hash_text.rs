//! The text layout of an encoded Argon2 hash session, as `argon2rs` writes
//! and reads it:
//!
//! `$argon2` `i`|`d` `$m=` digits `,t=` digits `,p=` digits
//! [`,keyid=` key text] [`,data=` data text] `$` salt text `$` hash text
//!
//! where the key text runs up to the next `,`, the data text and the salt
//! text up to the next `$`, and the texts are unpadded base64.  A stored
//! password hash is checked against this layout before it is handed to
//! `argon2rs`.
use vstd::prelude::*;

verus! {

/// Whether `b` is an ASCII digit.
pub open spec fn is_digit_byte(b: u8) -> bool {
    48 <= b && b <= 57
}

/// The first position at or after `i` that does not hold an ASCII digit
/// (the length of `b` when the digits run to the end).
pub open spec fn digits_end(b: Seq<u8>, i: int) -> int
    decreases b.len() - i,
{
    if i < 0 || i >= b.len() || !is_digit_byte(b[i]) {
        i
    } else {
        digits_end(b, i + 1)
    }
}

/// The first position at or after `i` that holds `c` (the length of `b`
/// when there is none).
pub open spec fn find_byte(b: Seq<u8>, i: int, c: u8) -> int
    decreases b.len() - i,
{
    if i < 0 || i >= b.len() {
        i
    } else if b[i] == c {
        i
    } else {
        find_byte(b, i + 1, c)
    }
}

/// Whether `lit` stands in `b` at position `i`.
pub open spec fn bytes_at(b: Seq<u8>, i: int, lit: Seq<u8>) -> bool {
    0 <= i && i + lit.len() <= b.len() && b.subrange(i, i + lit.len()) == lit
}

/// `$argon2`
pub open spec fn tag_argon2() -> Seq<u8> {
    seq![36u8, 97u8, 114u8, 103u8, 111u8, 110u8, 50u8]
}

/// `$m=`
pub open spec fn tag_m() -> Seq<u8> {
    seq![36u8, 109u8, 61u8]
}

/// `,t=`
pub open spec fn tag_t() -> Seq<u8> {
    seq![44u8, 116u8, 61u8]
}

/// `,p=`
pub open spec fn tag_p() -> Seq<u8> {
    seq![44u8, 112u8, 61u8]
}

/// `,keyid=`
pub open spec fn tag_keyid() -> Seq<u8> {
    seq![44u8, 107u8, 101u8, 121u8, 105u8, 100u8, 61u8]
}

/// `,data=`
pub open spec fn tag_data() -> Seq<u8> {
    seq![44u8, 100u8, 97u8, 116u8, 97u8, 61u8]
}

/// The byte `$`.
pub open spec fn dollar() -> u8 {
    36u8
}

/// The byte `,`.
pub open spec fn comma() -> u8 {
    44u8
}

/// Where the memory digits end.
pub open spec fn m_end(b: Seq<u8>) -> int {
    digits_end(b, 11)
}

/// Where the pass digits end.
pub open spec fn t_end(b: Seq<u8>) -> int {
    digits_end(b, m_end(b) + 3)
}

/// Where the lane digits end.
pub open spec fn p_end(b: Seq<u8>) -> int {
    digits_end(b, t_end(b) + 3)
}

/// Whether a key text follows the parameters.
pub open spec fn has_keyid(b: Seq<u8>) -> bool {
    bytes_at(b, p_end(b), tag_keyid())
}

/// Where the key text ends (where the parameters end, without one).
pub open spec fn keyid_end(b: Seq<u8>) -> int {
    if has_keyid(b) {
        find_byte(b, p_end(b) + 7, comma())
    } else {
        p_end(b)
    }
}

/// Whether a data text follows.
pub open spec fn has_data(b: Seq<u8>) -> bool {
    bytes_at(b, keyid_end(b), tag_data())
}

/// Where the data text ends (where the key text ends, without one).
pub open spec fn data_end(b: Seq<u8>) -> int {
    if has_data(b) {
        find_byte(b, keyid_end(b) + 6, dollar())
    } else {
        keyid_end(b)
    }
}

/// Where the salt text ends.
pub open spec fn salt_end(b: Seq<u8>) -> int {
    find_byte(b, data_end(b) + 1, dollar())
}

/// Whether `b` follows the layout of an encoded hash session.  Every text
/// that `argon2rs` decodes follows it, and on every text that follows it
/// the decoder returns, with or without success.
pub open spec fn argon2_text_syntax(b: Seq<u8>) -> bool {
    &&& bytes_at(b, 0, tag_argon2())
    &&& b.len() > 7
    &&& (b[7] == 100u8 || b[7] == 105u8)
    &&& bytes_at(b, 8, tag_m())
    &&& bytes_at(b, m_end(b), tag_t())
    &&& bytes_at(b, t_end(b), tag_p())
    &&& p_end(b) < b.len()
    &&& (has_keyid(b) ==> keyid_end(b) < b.len())
    &&& (has_data(b) ==> data_end(b) < b.len())
    &&& b[data_end(b)] == dollar()
    &&& salt_end(b) < b.len()
}

/// How many bytes unpadded base64 text of length `n` decodes to.
pub open spec fn b64_decoded_len(n: int) -> int {
    3 * (n / 4) + if n % 4 == 2 {
        1int
    } else if n % 4 == 3 {
        2int
    } else {
        0int
    }
}

/// Whether the session decoded from `b` is within what Argon2 hashes with:
/// a salt of 8 to `u32::MAX` bytes, a key of at most 32 bytes, and data of
/// at most `u32::MAX` bytes.
pub open spec fn argon2_verify_bounds(b: Seq<u8>) -> bool {
    &&& 8 <= b64_decoded_len(salt_end(b) - (data_end(b) + 1)) <= u32::MAX
    &&& (has_keyid(b) ==> b64_decoded_len(keyid_end(b) - (p_end(b) + 7)) <= 32)
    &&& (has_data(b) ==> b64_decoded_len(data_end(b) - (keyid_end(b) + 6)) <= u32::MAX)
}

/// Whether a stored hash can be handed to `argon2rs` to check passwords:
/// it follows the layout, and what it decodes to is within Argon2's bounds.
pub open spec fn usable_hash_text(b: Seq<u8>) -> bool {
    argon2_text_syntax(b) && argon2_verify_bounds(b)
}

fn digits_end_exec(b: &[u8], i: usize) -> (r: usize)
    requires
        i <= b@.len(),
    ensures
        r == digits_end(b@, i as int),
        i <= r <= b@.len(),
{
    let mut j = i;
    while j < b.len() && 48 <= b[j] && b[j] <= 57
        invariant
            i <= j <= b@.len(),
            digits_end(b@, j as int) == digits_end(b@, i as int),
        decreases b@.len() - j,
    {
        j = j + 1;
    }
    j
}

fn find_byte_exec(b: &[u8], i: usize, c: u8) -> (r: usize)
    requires
        i <= b@.len(),
    ensures
        r == find_byte(b@, i as int, c),
        i <= r <= b@.len(),
{
    let mut j = i;
    while j < b.len() && b[j] != c
        invariant
            i <= j <= b@.len(),
            find_byte(b@, j as int, c) == find_byte(b@, i as int, c),
        decreases b@.len() - j,
    {
        j = j + 1;
    }
    j
}

fn bytes_at_exec(b: &[u8], i: usize, lit: &[u8]) -> (r: bool)
    ensures
        r == bytes_at(b@, i as int, lit@),
{
    if i > b.len() || lit.len() > b.len() - i {
        return false;
    }
    let mut k: usize = 0;
    while k < lit.len()
        invariant
            k <= lit@.len(),
            i + lit@.len() <= b@.len(),
            b@.len() <= usize::MAX,
            forall|j: int| 0 <= j < k ==> b@[i + j] == lit@[j],
        decreases lit@.len() - k,
    {
        if b[i + k] != lit[k] {
            proof {
                assert(b@.subrange(i as int, i + lit@.len())[k as int] != lit@[k as int]);
            }
            return false;
        }
        k = k + 1;
    }
    proof {
        assert(b@.subrange(i as int, i + lit@.len()) =~= lit@);
    }
    true
}

fn b64_decoded_len_exec(n: usize) -> (r: u64)
    ensures
        r == b64_decoded_len(n as int),
{
    let q = (n / 4) as u64;
    let extra: u64 = if n % 4 == 2 {
        1
    } else if n % 4 == 3 {
        2
    } else {
        0
    };
    3 * q + extra
}

/// Checks whether a stored hash can be handed to `argon2rs` (see
/// `usable_hash_text`).
pub fn is_usable_hash_text(b: &[u8]) -> (r: bool)
    ensures
        r == usable_hash_text(b@),
{
    let n = b.len();
    let tag_argon2_v: Vec<u8> = vec![36u8, 97u8, 114u8, 103u8, 111u8, 110u8, 50u8];
    let tag_m_v: Vec<u8> = vec![36u8, 109u8, 61u8];
    let tag_t_v: Vec<u8> = vec![44u8, 116u8, 61u8];
    let tag_p_v: Vec<u8> = vec![44u8, 112u8, 61u8];
    let tag_keyid_v: Vec<u8> = vec![44u8, 107u8, 101u8, 121u8, 105u8, 100u8, 61u8];
    let tag_data_v: Vec<u8> = vec![44u8, 100u8, 97u8, 116u8, 97u8, 61u8];
    proof {
        assert(tag_argon2_v@ =~= tag_argon2());
        assert(tag_m_v@ =~= tag_m());
        assert(tag_t_v@ =~= tag_t());
        assert(tag_p_v@ =~= tag_p());
        assert(tag_keyid_v@ =~= tag_keyid());
        assert(tag_data_v@ =~= tag_data());
    }
    if !bytes_at_exec(b, 0, tag_argon2_v.as_slice()) || n <= 7 {
        return false;
    }
    if b[7] != 100u8 && b[7] != 105u8 {
        return false;
    }
    if !bytes_at_exec(b, 8, tag_m_v.as_slice()) {
        return false;
    }
    let me = digits_end_exec(b, 11);
    if !bytes_at_exec(b, me, tag_t_v.as_slice()) {
        return false;
    }
    let te = digits_end_exec(b, me + 3);
    if !bytes_at_exec(b, te, tag_p_v.as_slice()) {
        return false;
    }
    let pe = digits_end_exec(b, te + 3);
    if pe >= n {
        return false;
    }
    let key = bytes_at_exec(b, pe, tag_keyid_v.as_slice());
    let ke = if key {
        find_byte_exec(b, pe + 7, 44u8)
    } else {
        pe
    };
    if ke >= n {
        return false;
    }
    let data = bytes_at_exec(b, ke, tag_data_v.as_slice());
    let de = if data {
        find_byte_exec(b, ke + 6, 36u8)
    } else {
        ke
    };
    if de >= n {
        return false;
    }
    if b[de] != 36u8 {
        return false;
    }
    let se = find_byte_exec(b, de + 1, 36u8);
    if se >= n {
        return false;
    }
    let salt_len = b64_decoded_len_exec(se - (de + 1));
    if salt_len < 8 || salt_len > 4294967295 {
        return false;
    }
    if key && b64_decoded_len_exec(ke - (pe + 7)) > 32 {
        return false;
    }
    if data && b64_decoded_len_exec(de - (ke + 6)) > 4294967295 {
        return false;
    }
    true
}

} // verus!
