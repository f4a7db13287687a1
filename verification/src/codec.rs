use vstd::prelude::*;
use crate::cipher::SymmetricKey;
use crate::cipher::block_open;
use crate::errors::MixerError;

verus! {

/// Width in bytes of one encrypted recipient block.
pub const ENC_RECIPIENT_SIZE: usize = 70;

/// Width in bytes of a plaintext recipient address.
pub const ADDRESS_SIZE: usize = 20;

/// A plaintext recipient: a 20-byte payout address.
#[derive(Clone, Copy, PartialEq, Eq, Debug)]
pub struct Recipient {
    pub bytes: [u8; 20],
}

impl View for Recipient {
    type V = Seq<u8>;

    open spec fn view(&self) -> Seq<u8> {
        self.bytes@
    }
}

/// The bytes of block `i` of a batch: the `i`-th fixed 70-byte slice.
pub open spec fn block_at(batch: Seq<u8>, i: int) -> Seq<u8> {
    batch.subrange(i * 70, (i + 1) * 70)
}

/// Whether block `i` of the batch passes authenticated decryption under the
/// key and recovers a plaintext long enough to hold an address.
pub open spec fn block_recovers(key: Seq<u8>, batch: Seq<u8>, i: int) -> bool {
    block_open(key, block_at(batch, i)) matches Some(p) && p.len() >= 20
}

/// The address recovered from block `i`: the leading 20 bytes of its
/// decrypted plaintext.
pub open spec fn recovered_at(key: Seq<u8>, batch: Seq<u8>, i: int) -> Seq<u8>
    recommends
        block_recovers(key, batch, i),
{
    block_open(key, block_at(batch, i))->Some_0.take(20)
}

/// Whether `rs` is exactly the sequence of addresses recovered from the
/// first `count` blocks of the batch, in input order.
pub open spec fn decoded_in_order(
    key: Seq<u8>,
    batch: Seq<u8>,
    count: int,
    rs: Seq<Recipient>,
) -> bool {
    &&& rs.len() == count
    &&& forall|i: int| 0 <= i < count ==> #[trigger] block_recovers(key, batch, i)
    &&& forall|i: int|
        0 <= i < count ==> (#[trigger] rs[i])@ == recovered_at(key, batch, i)
}

/// Parses a packed batch of `count` fixed 70-byte encrypted blocks and
/// recovers the plaintext addresses via authenticated decryption, in input
/// order. Fails with `MalformedInput` exactly when the batch length is not
/// `count * 70` (no partial parse is attempted), and with `Authentication`
/// exactly when the length fits but some block fails to decrypt (no partial
/// recipient list is ever produced).
pub fn decode(batch: &[u8], count: usize, key: &SymmetricKey) -> (r: Result<
    Vec<Recipient>,
    MixerError,
>)
    ensures
        r matches Ok(rs) ==> batch@.len() == count * 70 && decoded_in_order(
            key@,
            batch@,
            count as int,
            rs@,
        ),
        r == Err::<Vec<Recipient>, MixerError>(MixerError::MalformedInput) <==> batch@.len()
            != count * 70,
        r == Err::<Vec<Recipient>, MixerError>(MixerError::Authentication) <==> batch@.len()
            == count * 70 && exists|i: int|
            0 <= i < count && !block_recovers(key@, batch@, i),
        r is Err ==> r == Err::<Vec<Recipient>, MixerError>(MixerError::MalformedInput) || r
            == Err::<Vec<Recipient>, MixerError>(MixerError::Authentication),
{
    let blen = batch.len();
    let total = match count.checked_mul(ENC_RECIPIENT_SIZE) {
        Some(t) => t,
        None => {
            assert(batch@.len() != count * 70);
            return Err(MixerError::MalformedInput);
        },
    };
    if blen != total {
        return Err(MixerError::MalformedInput);
    }
    let mut out: Vec<Recipient> = Vec::new();
    let mut i: usize = 0;
    while i < count
        invariant
            i <= count,
            out@.len() == i,
            batch@.len() == count * 70,
            count * 70 <= usize::MAX,
            forall|q: int| 0 <= q < i ==> #[trigger] block_recovers(key@, batch@, q),
            forall|q: int|
                0 <= q < i ==> (#[trigger] out@[q])@ == recovered_at(key@, batch@, q),
        decreases count - i,
    {
        let start = i * ENC_RECIPIENT_SIZE;
        let end = start + ENC_RECIPIENT_SIZE;
        let block = vstd::slice::slice_subrange(batch, start, end);
        let p = match crate::cipher::decrypt(block, key) {
            Ok(p) => p,
            Err(_) => {
                assert(block@ == block_at(batch@, i as int));
                assert(!block_recovers(key@, batch@, i as int));
                return Err(MixerError::Authentication);
            },
        };
        assert(block@ == block_at(batch@, i as int));
        assert(p@.len() == 42);
        let mut addr: [u8; 20] = [0u8; 20];
        let mut k: usize = 0;
        while k < ADDRESS_SIZE
            invariant
                k <= 20,
                p@.len() == 42,
                forall|j: int| 0 <= j < k ==> addr@[j] == p@[j],
            decreases 20 - k,
        {
            addr[k] = p[k];
            k = k + 1;
        }
        assert(addr@ =~= p@.take(20));
        out.push(Recipient { bytes: addr });
        proof {
            assert(block_recovers(key@, batch@, i as int));
            assert(out@[i as int]@ == recovered_at(key@, batch@, i as int));
        }
        i = i + 1;
    }
    Ok(out)
}

} // verus!
