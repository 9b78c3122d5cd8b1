//! Identifier codec.
//!
//! A stored object's remote filename is `{id}-{display_name}`, where `id` is
//! the canonical decimal form of an unsigned 128-bit identifier. A filename
//! is valid exactly when it has at least one `-`, the prefix before the
//! first `-` is non-empty and all ASCII digits, and at least one byte
//! follows that `-`. Names are modelled as byte sequences, as the remote
//! store hands them over; the split byte `-` is ASCII, so byte-level
//! splitting agrees with character-level splitting under UTF-8.

use vstd::prelude::*;
use vstd::slice::{slice_index_get, slice_subrange, slice_to_vec};

verus! {

/// The byte the codec splits on: `-`.
pub const HYPHEN: u8 = 45;

/// `b` is an ASCII decimal digit.
pub open spec fn is_digit(b: u8) -> bool {
    48 <= b && b <= 57
}

/// Numeric value of one digit byte.
pub open spec fn digit_val(b: u8) -> nat {
    (b - 48) as nat
}

/// Every byte of `s` is an ASCII decimal digit.
pub open spec fn all_digits(s: Seq<u8>) -> bool {
    forall|i: int| 0 <= i < s.len() ==> is_digit(#[trigger] s[i])
}

/// Numeric value of a digit string, most significant digit first.
pub open spec fn digits_value(s: Seq<u8>) -> nat
    decreases s.len(),
{
    if s.len() == 0 {
        0
    } else {
        digits_value(s.drop_last()) * 10 + digit_val(s.last())
    }
}

/// Canonical decimal rendering of `n`: no leading zeros, and `"0"` for zero.
pub open spec fn decimal_of(n: nat) -> Seq<u8>
    decreases n,
{
    if n < 10 {
        seq![(48 + n) as u8]
    } else {
        decimal_of(n / 10).push((48 + n % 10) as u8)
    }
}

/// `i` marks the split point of a valid remote filename: the byte at `i` is
/// the first `-`, the prefix before it is non-empty and all digits, and at
/// least one byte follows. (Since `-` is not a digit, the all-digits prefix
/// already guarantees that `i` is the first hyphen.)
pub open spec fn is_valid_split(s: Seq<u8>, i: int) -> bool {
    &&& 1 <= i
    &&& i + 1 < s.len()
    &&& s[i] == HYPHEN
    &&& all_digits(s.subrange(0, i))
}

/// The filename validity predicate of the codec.
pub open spec fn valid_remote_name(s: Seq<u8>) -> bool {
    exists|i: int| is_valid_split(s, i)
}

/// The split point of a valid remote filename.
pub open spec fn split_index(s: Seq<u8>) -> int {
    choose|i: int| is_valid_split(s, i)
}

/// The identifier part of a valid remote filename: the digits before the
/// first `-`.
pub open spec fn decoded_id(s: Seq<u8>) -> Seq<u8> {
    s.subrange(0, split_index(s))
}

/// The display-name part of a valid remote filename: everything after the
/// first `-`, further hyphens included.
pub open spec fn decoded_name(s: Seq<u8>) -> Seq<u8> {
    s.subrange(split_index(s) + 1, s.len() as int)
}

/// The remote filename that encodes `(id, name)`.
pub open spec fn encoded_name(id: nat, name: Seq<u8>) -> Seq<u8> {
    decimal_of(id) + seq![HYPHEN] + name
}

/// A valid filename has exactly one split point.
pub proof fn lemma_split_unique(s: Seq<u8>, i: int, j: int)
    requires
        is_valid_split(s, i),
        is_valid_split(s, j),
    ensures
        i == j,
{
    if i < j {
        assert(is_digit(s.subrange(0, j)[i]));
    } else if j < i {
        assert(is_digit(s.subrange(0, i)[j]));
    }
}

/// The decimal rendering is non-empty and all digits.
pub proof fn lemma_decimal_digits(n: nat)
    ensures
        decimal_of(n).len() >= 1,
        all_digits(decimal_of(n)),
    decreases n,
{
    if n >= 10 {
        lemma_decimal_digits(n / 10);
        assert forall|i: int| 0 <= i < decimal_of(n).len() implies is_digit(
            #[trigger] decimal_of(n)[i],
        ) by {
            if i < decimal_of(n / 10).len() {
                assert(decimal_of(n)[i] == decimal_of(n / 10)[i]);
            }
        }
    }
}

/// Reading the decimal rendering back as a number yields the number again.
pub proof fn lemma_decimal_value(n: nat)
    ensures
        digits_value(decimal_of(n)) == n,
    decreases n,
{
    if n < 10 {
        assert(decimal_of(n) == seq![(48 + n) as u8]);
        assert(decimal_of(n).drop_last() =~= Seq::<u8>::empty());
        assert(digits_value(Seq::<u8>::empty()) == 0);
    } else {
        lemma_decimal_value(n / 10);
        vstd::arithmetic::div_mod::lemma_fundamental_div_mod(n as int, 10);
        let s = decimal_of(n);
        assert(s.drop_last() =~= decimal_of(n / 10));
        assert(s.last() == (48 + n % 10) as u8);
        assert(digit_val((48 + n % 10) as u8) == n % 10);
        assert(digits_value(s) == digits_value(s.drop_last()) * 10 + digit_val(s.last()));
    }
}

/// Encoding then decoding yields the identifier and the display name back,
/// for every identifier and every non-empty display name, hyphens in the
/// name included: the decoder splits on the first hyphen only, which the
/// all-digits identifier prefix pins down.
pub proof fn lemma_encode_decode_round_trip(id: nat, name: Seq<u8>)
    requires
        name.len() > 0,
    ensures
        valid_remote_name(encoded_name(id, name)),
        decoded_id(encoded_name(id, name)) == decimal_of(id),
        decoded_name(encoded_name(id, name)) == name,
        digits_value(decoded_id(encoded_name(id, name))) == id,
{
    let s = encoded_name(id, name);
    let k = decimal_of(id).len() as int;
    lemma_decimal_digits(id);
    assert(s.subrange(0, k) =~= decimal_of(id));
    assert(is_valid_split(s, k));
    lemma_split_unique(s, split_index(s), k);
    assert(s.subrange(k + 1, s.len() as int) =~= name);
    lemma_decimal_value(id);
}

/// Splitting a valid remote filename and joining the parts back yields the
/// same filename: an object selected out of the listing is retrieved under
/// exactly the name it was stored under.
pub proof fn lemma_split_join(s: Seq<u8>)
    requires
        valid_remote_name(s),
    ensures
        decoded_id(s) + seq![HYPHEN] + decoded_name(s) == s,
{
    let i = split_index(s);
    assert(is_valid_split(s, i));
    assert(decoded_id(s) + seq![HYPHEN] + decoded_name(s) =~= s);
}

/// A filename with no hyphen at all is rejected.
pub proof fn lemma_reject_no_hyphen(s: Seq<u8>)
    requires
        forall|j: int| 0 <= j < s.len() ==> s[j] != HYPHEN,
    ensures
        !valid_remote_name(s),
{
}

/// A filename whose first byte is the hyphen — an empty identifier prefix —
/// is rejected.
pub proof fn lemma_reject_empty_prefix(s: Seq<u8>)
    requires
        s.len() > 0,
        s[0] == HYPHEN,
    ensures
        !valid_remote_name(s),
{
    assert forall|i: int| !is_valid_split(s, i) by {
        if 1 <= i && i < s.len() {
            assert(all_digits(s.subrange(0, i)) ==> is_digit(s.subrange(0, i)[0]));
        }
    }
}

/// A filename with a non-digit byte before its first hyphen is rejected.
pub proof fn lemma_reject_non_digit_prefix(s: Seq<u8>, j: int)
    requires
        0 <= j < s.len(),
        s[j] != HYPHEN,
        !is_digit(s[j]),
        forall|k: int| 0 <= k < j ==> s[k] != HYPHEN,
    ensures
        !valid_remote_name(s),
{
    assert forall|i: int| !is_valid_split(s, i) by {
        if 1 <= i && i + 1 < s.len() && s[i] == HYPHEN {
            assert(j < i);
            assert(all_digits(s.subrange(0, i)) ==> is_digit(s.subrange(0, i)[j]));
        }
    }
}

/// A filename whose first hyphen is its last byte — no display name after
/// the split — is rejected.
pub proof fn lemma_reject_no_suffix(s: Seq<u8>)
    requires
        s.len() > 0,
        s[s.len() - 1] == HYPHEN,
        forall|k: int| 0 <= k < s.len() - 1 ==> s[k] != HYPHEN,
    ensures
        !valid_remote_name(s),
{
    assert forall|i: int| !is_valid_split(s, i) by {
        if 1 <= i && i + 1 < s.len() {
            assert(s[i] != HYPHEN);
        }
    }
}

/// Renders `n` as its canonical decimal digit string.
pub fn u128_to_decimal(n: u128) -> (r: Vec<u8>)
    ensures
        r@ == decimal_of(n as nat),
    decreases n,
{
    if n < 10 {
        let mut v: Vec<u8> = Vec::new();
        v.push(48 + n as u8);
        proof {
            assert(v@ =~= decimal_of(n as nat));
        }
        v
    } else {
        let mut v = u128_to_decimal(n / 10);
        v.push(48 + (n % 10) as u8);
        proof {
            assert(v@ =~= decimal_of(n as nat));
        }
        v
    }
}

/// Builds the remote filename under which an object with identifier `id`
/// and display name `name` is stored.
pub fn encode_file_name(id: u128, name: &[u8]) -> (r: Vec<u8>)
    ensures
        r@ == encoded_name(id as nat, name@),
{
    let mut r = u128_to_decimal(id);
    r.push(HYPHEN);
    let mut rest = slice_to_vec(name);
    r.append(&mut rest);
    proof {
        assert(r@ =~= encoded_name(id as nat, name@));
    }
    r
}

/// Splits a remote filename into its identifier digits and its display
/// name, or rejects it: `Some` exactly when the name satisfies the validity
/// predicate, with the split at the first hyphen.
pub fn split_name(name: &[u8]) -> (r: Option<(Vec<u8>, Vec<u8>)>)
    ensures
        r is Some <==> valid_remote_name(name@),
        r matches Some(p) ==> p.0@ == decoded_id(name@) && p.1@ == decoded_name(name@),
{
    let n = name.len();
    let mut i: usize = 0;
    while i < n
        invariant
            n == name@.len(),
            i <= n,
            forall|j: int| 0 <= j < i ==> is_digit(#[trigger] name@[j]) && name@[j] != HYPHEN,
        decreases n - i,
    {
        let b = *slice_index_get(name, i);
        if b == HYPHEN {
            if i >= 1 && i + 1 < n {
                proof {
                    assert(is_valid_split(name@, i as int));
                    lemma_split_unique(name@, split_index(name@), i as int);
                }
                let id_part = slice_to_vec(slice_subrange(name, 0, i));
                let name_part = slice_to_vec(slice_subrange(name, i + 1, n));
                return Some((id_part, name_part));
            } else {
                proof {
                    assert forall|k: int| !is_valid_split(name@, k) by {
                        if 1 <= k && k + 1 < name@.len() && name@[k] == HYPHEN {
                            if k < i {
                            } else if k > i {
                                assert(all_digits(name@.subrange(0, k)) ==> is_digit(
                                    name@.subrange(0, k)[i as int],
                                ));
                            }
                        }
                    }
                }
                return None;
            }
        } else if !(48 <= b && b <= 57) {
            proof {
                assert forall|k: int| !is_valid_split(name@, k) by {
                    if 1 <= k && k + 1 < name@.len() && name@[k] == HYPHEN {
                        assert(k > i);
                        assert(all_digits(name@.subrange(0, k)) ==> is_digit(
                            name@.subrange(0, k)[i as int],
                        ));
                    }
                }
            }
            return None;
        }
        i += 1;
    }
    proof {
        assert forall|k: int| !is_valid_split(name@, k) by {
            if 0 <= k < name@.len() {
                assert(is_digit(name@[k]));
            }
        }
    }
    None
}

} // verus!
