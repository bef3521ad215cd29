use vstd::prelude::*;
use crate::address::Address;

verus! {

/// What the program reads and writes of a runtime account: its address,
/// owner, lamports, data bytes and flags, as plain values.
#[derive(Debug)]
pub struct AccountView {
    pub address: Address,
    pub owner: Address,
    pub lamports: u64,
    pub data: Vec<u8>,
    pub is_signer: bool,
    pub is_writable: bool,
    pub executable: bool,
}

impl AccountView {
    /// The number of data bytes the account holds.
    pub fn data_len(&self) -> (r: usize)
        ensures
            r == self.data@.len(),
    {
        self.data.len()
    }

    /// Whether the account holds no data.
    pub fn is_data_empty(&self) -> (r: bool)
        ensures
            r == (self.data@.len() == 0),
    {
        self.data.len() == 0
    }
}

/// Whether the 32 bytes of `data` from offset `off` are the bytes of `addr`.
pub open spec fn bytes_are_address(data: Seq<u8>, off: int, addr: Address) -> bool {
    data.subrange(off, off + 32) == addr@
}

/// Whether the 32 bytes of `data` at offset `off` are the bytes of `addr`.
pub fn slice_is_address(data: &[u8], off: usize, addr: &Address) -> (r: bool)
    requires
        off + 32 <= data.len(),
    ensures
        r == bytes_are_address(data@, off as int, *addr),
{
    let mut i: usize = 0;
    while i < 32
        invariant
            off + 32 <= data.len(),
            data@.len() == data.len(),
            i <= 32,
            forall|k: int| 0 <= k < i ==> data@[off + k] == addr@[k],
        decreases 32 - i,
    {
        if data[off + i] != addr[i] {
            assert(data@.subrange(off as int, off + 32)[i as int] != addr@[i as int]);
            return false;
        }
        i = i + 1;
    }
    assert(data@.subrange(off as int, off + 32) =~= addr@);
    true
}

} // verus!

verus! {

/// The 32 bytes of `data` at offset `off`, as an address.
pub fn address_at(data: &[u8], off: usize) -> (r: Address)
    requires
        off + 32 <= data.len(),
    ensures
        r@ == data@.subrange(off as int, off + 32),
{
    let mut out: Address = [0u8; 32];
    let mut i: usize = 0;
    while i < 32
        invariant
            off + 32 <= data.len(),
            data@.len() == data.len(),
            i <= 32,
            out@.len() == 32,
            forall|k: int| 0 <= k < i ==> out@[k] == data@[off + k],
        decreases 32 - i,
    {
        out[i] = data[off + i];
        i = i + 1;
    }
    assert(out@ =~= data@.subrange(off as int, off + 32));
    out
}

/// The 8 bytes of `data` at offset `off`.
pub fn bytes8_at(data: &[u8], off: usize) -> (r: [u8; 8])
    requires
        off + 8 <= data.len(),
    ensures
        r@ == data@.subrange(off as int, off + 8),
{
    let mut out: [u8; 8] = [0u8; 8];
    let mut i: usize = 0;
    while i < 8
        invariant
            off + 8 <= data.len(),
            data@.len() == data.len(),
            i <= 8,
            out@.len() == 8,
            forall|k: int| 0 <= k < i ==> out@[k] == data@[off + k],
        decreases 8 - i,
    {
        out[i] = data[off + i];
        i = i + 1;
    }
    assert(out@ =~= data@.subrange(off as int, off + 8));
    out
}

/// Writes `bytes` into `data` from offset `off`, leaving the other bytes as they were.
pub fn write_bytes_at(data: &mut Vec<u8>, off: usize, bytes: &[u8])
    requires
        off + bytes@.len() <= old(data)@.len(),
    ensures
        final(data)@.len() == old(data)@.len(),
        final(data)@.subrange(off as int, off + bytes@.len()) == bytes@,
        forall|k: int|
            0 <= k < old(data)@.len() && !(off <= k < off + bytes@.len())
                ==> #[trigger] final(data)@[k] == old(data)@[k],
{
    let mut i: usize = 0;
    while i < bytes.len()
        invariant
            off + bytes@.len() <= data.len(),
            data@.len() == data.len(),
            data@.len() == old(data)@.len(),
            i <= bytes@.len(),
            bytes@.len() == bytes.len(),
            forall|k: int| 0 <= k < i ==> data@[off + k] == bytes@[k],
            forall|k: int|
                0 <= k < old(data)@.len() && !(off <= k < off + i)
                    ==> #[trigger] data@[k] == old(data)@[k],
        decreases bytes.len() - i,
    {
        data.set(off + i, bytes[i]);
        i = i + 1;
    }
    assert(data@.subrange(off as int, off + bytes@.len()) =~= bytes@);
}

} // verus!
