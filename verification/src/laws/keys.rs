//! How cache keys keep references and accounts apart.

use crate::client::{effective, key_input, key_of};
use crate::digest::{blake3_digest, hex_digit, hex_text};
use vstd::prelude::*;
use vstd::utf8::{encode_utf8, encode_utf8_decode_utf8};

verus! {

/// Whether `a` and `b` are different byte strings with the same BLAKE3 digest.
pub open spec fn collide(a: Seq<u8>, b: Seq<u8>) -> bool {
    &&& a != b
    &&& blake3_digest(a) == blake3_digest(b)
}

proof fn lemma_hex_is_injective(a: Seq<u8>, b: Seq<u8>)
    requires
        hex_text(a) == hex_text(b),
    ensures
        a == b,
{
    let x = hex_text(a);
    let y = hex_text(b);
    assert(x.len() == 2 * a.len() && y.len() == 2 * b.len());
    assert forall|i: int| 0 <= i < a.len() implies a[i] == b[i] by {
        assert(x[2 * i] == hex_digit(a[i] as int / 16));
        assert(y[2 * i] == hex_digit(b[i] as int / 16));
        assert(x[2 * i + 1] == hex_digit(a[i] as int % 16));
        assert(y[2 * i + 1] == hex_digit(b[i] as int % 16));
    }
    assert(a =~= b);
}

proof fn lemma_key_inputs_collide(x: Seq<char>, y: Seq<char>)
    requires
        x != y,
        hex_text(blake3_digest(encode_utf8(x))) == hex_text(blake3_digest(encode_utf8(y))),
    ensures
        collide(encode_utf8(x), encode_utf8(y)),
{
    encode_utf8_decode_utf8(x);
    encode_utf8_decode_utf8(y);
    lemma_hex_is_injective(blake3_digest(encode_utf8(x)), blake3_digest(encode_utf8(y)));
}

/// Cache entries are partitioned by account: one reference on two accounts, or with and without
/// an account, has two identifying texts. Its two keys are the same only where BLAKE3 gives the
/// two texts the same digest.
pub proof fn law_accounts_are_kept_apart(
    reference: Seq<char>,
    account1: Option<Seq<char>>,
    account2: Option<Seq<char>>,
)
    requires
        account1 != account2,
    ensures
        key_input(reference, account1) != key_input(reference, account2),
        key_of(reference, account1) == key_of(reference, account2) ==> collide(
            encode_utf8(key_input(reference, account1)),
            encode_utf8(key_input(reference, account2)),
        ),
{
    let x = key_input(reference, account1);
    let y = key_input(reference, account2);
    if x == y {
        match (account1, account2) {
            (Some(a), Some(b)) => {
                assert(x.len() == a.len() + 1 + reference.len());
                assert(y.len() == b.len() + 1 + reference.len());
                assert(a =~= x.take(a.len() as int));
                assert(b =~= y.take(b.len() as int));
            },
            (Some(a), None) => {
                assert(x.len() == a.len() + 1 + reference.len());
            },
            (None, Some(b)) => {
                assert(y.len() == b.len() + 1 + reference.len());
            },
            (None, None) => {},
        }
        assert(false);
    }
    if key_of(reference, account1) == key_of(reference, account2) {
        lemma_key_inputs_collide(x, y);
    }
}

/// A key identifies the reference and the account together: two different pairs, of references
/// that hold no NUL character, have two identifying texts, and one key only where BLAKE3 gives
/// the two texts the same digest.
pub proof fn law_key_identifies_reference_and_account(
    reference1: Seq<char>,
    account1: Option<Seq<char>>,
    reference2: Seq<char>,
    account2: Option<Seq<char>>,
)
    requires
        !reference1.contains('\0'),
        !reference2.contains('\0'),
        (reference1, account1) != (reference2, account2),
    ensures
        key_input(reference1, account1) != key_input(reference2, account2),
        key_of(reference1, account1) == key_of(reference2, account2) ==> collide(
            encode_utf8(key_input(reference1, account1)),
            encode_utf8(key_input(reference2, account2)),
        ),
{
    let x = key_input(reference1, account1);
    let y = key_input(reference2, account2);
    if x == y {
        match (account1, account2) {
            (Some(a), Some(b)) => {
                assert(x.len() == a.len() + 1 + reference1.len());
                assert(y.len() == b.len() + 1 + reference2.len());
                assert(x[a.len() as int] == '\0');
                assert(y[b.len() as int] == '\0');
                if a.len() < b.len() {
                    assert(reference1[b.len() - a.len() - 1] == x[b.len() as int]);
                }
                if b.len() < a.len() {
                    assert(reference2[a.len() - b.len() - 1] == y[a.len() as int]);
                }
                assert(a =~= x.take(a.len() as int));
                assert(b =~= y.take(b.len() as int));
                assert(reference1 =~= x.skip(a.len() as int + 1));
                assert(reference2 =~= y.skip(b.len() as int + 1));
            },
            (Some(a), None) => {
                assert(x[a.len() as int] == '\0');
            },
            (None, Some(b)) => {
                assert(y[b.len() as int] == '\0');
            },
            (None, None) => {},
        }
        assert(false);
    }
    if key_of(reference1, account1) == key_of(reference2, account2) {
        lemma_key_inputs_collide(x, y);
    }
}

/// The ambient account counts only where none is named: an account named explicitly, be it empty,
/// makes it irrelevant. An ambient account that is not empty makes the key that naming it would
/// make, and an empty one makes the key that none would make.
pub proof fn law_explicit_account_wins(
    reference: Seq<char>,
    account: Seq<char>,
    ambient: Option<Seq<char>>,
)
    ensures
        key_of(reference, effective(Some(account), ambient)) == key_of(reference, Some(account)),
        account.len() > 0 ==> key_of(reference, effective(None, Some(account))) == key_of(
            reference,
            Some(account),
        ),
        key_of(reference, effective(None, Some(Seq::empty()))) == key_of(reference, None),
        key_of(reference, effective(None, None)) == key_of(reference, None),
{
}

} // verus!
