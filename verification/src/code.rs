//! Short codes: the first characters of the base62 encoding of a url's id.
use vstd::prelude::*;
use vstd::string::*;

verus! {

/// Number of characters kept from the base62 encoding of an id.
pub const CODE_LEN: usize = 7;

/// The base62 digit for `d` in the standard ordering: `0`-`9`, then `A`-`Z`, then `a`-`z`.
pub open spec fn base62_digit(d: nat) -> char {
    if d < 10 {
        (48 + d) as char
    } else if d < 36 {
        (55 + d) as char
    } else {
        (61 + d) as char
    }
}

/// The base62 encoding of `n`, most significant digit first, without leading zeros
/// (`0` encodes as the single digit `0`).
pub open spec fn base62(n: nat) -> Seq<char>
    decreases n,
{
    if n < 62 {
        seq![base62_digit(n)]
    } else {
        base62(n / 62).push(base62_digit(n % 62))
    }
}

/// A character of the base62 alphabet.
pub open spec fn is_base62_char(c: char) -> bool {
    ||| ('0' <= c && c <= '9')
    ||| ('A' <= c && c <= 'Z')
    ||| ('a' <= c && c <= 'z')
}

/// `62` to the power `k`.
pub open spec fn pow62(k: nat) -> nat
    decreases k,
{
    if k == 0 {
        1
    } else {
        62 * pow62((k - 1) as nat)
    }
}

/// The short code of an id: at most `CODE_LEN` leading characters of its base62 encoding.
pub open spec fn code_of(id: u128) -> Seq<char> {
    let e = base62(id as nat);
    if e.len() <= CODE_LEN {
        e
    } else {
        e.take(CODE_LEN as int)
    }
}

/// An id as `uuid::Uuid::new_v4` makes them: version nibble `4` and RFC 4122 variant bits `10`.
pub open spec fn is_v4_id(id: u128) -> bool {
    &&& (id >> 76u128) & 0xfu128 == 4u128
    &&& (id >> 62u128) & 0x3u128 == 2u128
}

/// Calls `base62::encode`, which the crate documents as encoding an unsigned integer with the
/// standard digit ordering (0 to 9, then A to Z, then a to z); its source writes the digits
/// most significant first, one digit for zero. The contract states exactly that.
#[verifier::external_body]
fn base62_encode(n: u128) -> (s: String)
    ensures
        s@ == base62(n as nat),
{
    base62::encode(n)
}

/// Calls `uuid::Uuid::new_v4` and reads the result with `as_u128`. The value is random; the
/// contract states only what the source sets on every outcome: the version and variant bits.
#[verifier::external_body]
pub(crate) fn new_v4_id() -> (id: u128)
    ensures
        is_v4_id(id),
{
    uuid::Uuid::new_v4().as_u128()
}

/// Every digit of a base62 encoding is a base62 character.
pub proof fn lemma_base62_chars(n: nat)
    ensures
        forall|i: int| 0 <= i < base62(n).len() ==> is_base62_char(#[trigger] base62(n)[i]),
        base62(n).len() >= 1,
    decreases n,
{
    if n >= 62 {
        lemma_base62_chars(n / 62);
    }
}

/// A number of at least `62^k` has at least `k + 1` base62 digits.
pub proof fn lemma_base62_len(n: nat, k: nat)
    requires
        n >= pow62(k),
    ensures
        base62(n).len() >= k + 1,
    decreases k,
{
    if k > 0 {
        assert(pow62(k) == 62 * pow62((k - 1) as nat));
        assert(n / 62 >= pow62((k - 1) as nat));
        lemma_base62_len(n / 62, (k - 1) as nat);
    } else {
        lemma_base62_chars(n);
    }
}

/// Every id that `new_v4` can make has a base62 encoding of more than `CODE_LEN` digits,
/// so its short code has exactly `CODE_LEN` characters.
pub proof fn lemma_v4_code_len(id: u128)
    requires
        is_v4_id(id),
    ensures
        base62(id as nat).len() > CODE_LEN,
        code_of(id).len() == CODE_LEN,
{
    assert((id >> 76u128) & 0xfu128 == 4u128 ==> id >= 0x4000_0000_0000_0000_0000u128)
        by (bit_vector);
    assert(pow62(7) == 3521614606208nat) by {
        reveal_with_fuel(pow62, 8);
    }
    lemma_base62_len(id as nat, 7);
}

/// The short code of an id is the leading part of its base62 encoding: its first `CODE_LEN`
/// digits, or the whole encoding where that is shorter.
pub proof fn lemma_code_is_prefix_of_encoding(id: u128)
    ensures
        code_of(id).len() == (if base62(id as nat).len() < CODE_LEN {
            base62(id as nat).len()
        } else {
            CODE_LEN as nat
        }),
        forall|i: int| 0 <= i < code_of(id).len() ==> #[trigger] code_of(id)[i] == base62(id as nat)[i],
{
}

/// The short code of `id`: the first `CODE_LEN` characters of `base62::encode(id)`, or all of
/// them where the encoding is shorter.
pub fn short_code(id: u128) -> (code: String)
    ensures
        code@ == code_of(id),
        code@ == base62(id as nat).take(
            if base62(id as nat).len() < CODE_LEN {
                base62(id as nat).len() as int
            } else {
                CODE_LEN as int
            },
        ),
        code@.is_prefix_of(base62(id as nat)),
        code@.len() <= CODE_LEN,
        code@.len() >= 1,
        forall|i: int| 0 <= i < code@.len() ==> is_base62_char(#[trigger] code@[i]),
{
    let encoded = base62_encode(id);
    proof {
        lemma_base62_chars(id as nat);
    }
    let len: usize = encoded.as_str().unicode_len();
    let end: usize = if len < CODE_LEN {
        len
    } else {
        CODE_LEN
    };
    let prefix = encoded.as_str().substring_char(0, end);
    let code = String::from_str(prefix);
    assert(code@ =~= code_of(id));
    assert(code@.is_prefix_of(base62(id as nat)));
    code
}

} // verus!
