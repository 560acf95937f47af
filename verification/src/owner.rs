//! How a client names itself.
use crate::protocol::{ClientOwner, Verifier};
use rand::Rng;
use vstd::prelude::*;

verus! {

/// The bytes of `n`, the most significant one first.
pub open spec fn big_endian(n: u64) -> Seq<u8> {
    seq![
        (n >> 56) as u8,
        (n >> 48) as u8,
        (n >> 40) as u8,
        (n >> 32) as u8,
        (n >> 24) as u8,
        (n >> 16) as u8,
        (n >> 8) as u8,
        n as u8,
    ]
}

/// Whether `owner` is the owner with number `n`.
pub open spec fn is_owner_number(owner: ClientOwner, n: u64) -> bool {
    owner.verifier == Verifier(0) && owner.owner_id@ == big_endian(n)
}

/// Calls `rand`'s `Rng::gen` on the generator of the current thread. Nothing is claimed of the
/// number that comes back.
#[verifier::external_body]
fn random_number() -> u64 {
    rand::thread_rng().gen::<u64>()
}

/// The owner with number `n`.
pub fn numbered_client_owner(n: u64) -> (owner: ClientOwner)
    ensures
        is_owner_number(owner, n),
{
    let mut owner_id: Vec<u8> = Vec::new();
    owner_id.push((n >> 56) as u8);
    owner_id.push((n >> 48) as u8);
    owner_id.push((n >> 40) as u8);
    owner_id.push((n >> 32) as u8);
    owner_id.push((n >> 24) as u8);
    owner_id.push((n >> 16) as u8);
    owner_id.push((n >> 8) as u8);
    owner_id.push(n as u8);
    assert(owner_id@ =~= big_endian(n));
    ClientOwner { verifier: Verifier(0), owner_id }
}

/// An owner with a random number.
pub fn random_client_owner() -> (owner: ClientOwner)
    ensures
        exists|n: u64| is_owner_number(owner, n),
{
    let n: u64 = random_number();
    numbered_client_owner(n)
}

/// Owners with different numbers have different ids.
pub proof fn lemma_owner_ids_differ(m: u64, n: u64)
    requires
        m != n,
    ensures
        big_endian(m) != big_endian(n),
{
    if big_endian(m) == big_endian(n) {
        let a = big_endian(m);
        let b = big_endian(n);
        assert(a[0] == b[0] && a[1] == b[1] && a[2] == b[2] && a[3] == b[3]);
        assert(a[4] == b[4] && a[5] == b[5] && a[6] == b[6] && a[7] == b[7]);
        assert(m == n) by (bit_vector)
            requires
                (m >> 56) as u8 == (n >> 56) as u8,
                (m >> 48) as u8 == (n >> 48) as u8,
                (m >> 40) as u8 == (n >> 40) as u8,
                (m >> 32) as u8 == (n >> 32) as u8,
                (m >> 24) as u8 == (n >> 24) as u8,
                (m >> 16) as u8 == (n >> 16) as u8,
                (m >> 8) as u8 == (n >> 8) as u8,
                m as u8 == n as u8,
        ;
    }
}

/// The bytes of a number are worth the number, the first one the most: eight of them.
pub proof fn lemma_bytes_are_worth_number(n: u64)
    ensures
        big_endian(n).len() == 8,
        n == big_endian(n)[0] * 0x100_0000_0000_0000 + big_endian(n)[1] * 0x1_0000_0000_0000
            + big_endian(n)[2] * 0x100_0000_0000 + big_endian(n)[3] * 0x1_0000_0000
            + big_endian(n)[4] * 0x100_0000 + big_endian(n)[5] * 0x1_0000 + big_endian(n)[6]
            * 0x100 + big_endian(n)[7],
{
    assert(n >> 56 == (n >> 56) as u8) by (bit_vector);
    assert(n >> 48 == 0x100 * (n >> 56) + (n >> 48) as u8) by (bit_vector);
    assert(n >> 40 == 0x100 * (n >> 48) + (n >> 40) as u8) by (bit_vector);
    assert(n >> 32 == 0x100 * (n >> 40) + (n >> 32) as u8) by (bit_vector);
    assert(n >> 24 == 0x100 * (n >> 32) + (n >> 24) as u8) by (bit_vector);
    assert(n >> 16 == 0x100 * (n >> 24) + (n >> 16) as u8) by (bit_vector);
    assert(n >> 8 == 0x100 * (n >> 16) + (n >> 8) as u8) by (bit_vector);
    assert(n == 0x100 * (n >> 8) + n as u8) by (bit_vector);
}

/// The owner with a number has the bytes of the number as its id, and no verifier.
pub proof fn lemma_owner_has_number(owner: ClientOwner, n: u64)
    requires
        is_owner_number(owner, n),
    ensures
        owner.verifier.0 == 0,
        owner.owner_id@.len() == 8,
        n == owner.owner_id@[0] * 0x100_0000_0000_0000 + owner.owner_id@[1] * 0x1_0000_0000_0000
            + owner.owner_id@[2] * 0x100_0000_0000 + owner.owner_id@[3] * 0x1_0000_0000
            + owner.owner_id@[4] * 0x100_0000 + owner.owner_id@[5] * 0x1_0000 + owner.owner_id@[6]
            * 0x100 + owner.owner_id@[7],
{
    lemma_bytes_are_worth_number(n);
}

} // verus!
