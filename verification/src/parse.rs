use vstd::prelude::*;
use vstd::bytes::{
    lemma_auto_spec_u16_to_from_le_bytes, lemma_auto_spec_u64_to_from_le_bytes, spec_u16_to_le_bytes, spec_u16_from_le_bytes, spec_u64_from_le_bytes, spec_u64_to_le_bytes,
    u16_from_le_bytes, u64_from_le_bytes,
};
use vstd::slice::slice_subrange;
use crate::error::{ee_code, Ee, ProgramError};

verus! {

/// The little-endian `u64` stored in `s` at byte offset `off`.
pub open spec fn le_u64_at(s: Seq<u8>, off: int) -> u64 {
    spec_u64_from_le_bytes(s.subrange(off, off + 8))
}

/// The little-endian `u16` stored in `s` at byte offset `off`.
pub open spec fn le_u16_at(s: Seq<u8>, off: int) -> u16 {
    spec_u16_from_le_bytes(s.subrange(off, off + 2))
}

/// `s` read as consecutive little-endian `u64`s; trailing bytes that do not
/// fill a whole word are not read.
pub open spec fn le_u64s(s: Seq<u8>) -> Seq<u64> {
    Seq::new(s.len() / 8, |i: int| le_u64_at(s, 8 * i))
}

/// `s` read as consecutive little-endian `u16`s; a trailing odd byte is not read.
pub open spec fn le_u16s(s: Seq<u8>) -> Seq<u16> {
    Seq::new(s.len() / 2, |i: int| le_u16_at(s, 2 * i))
}

/// The error that a rejected check of `Ee` kind `e` ends with.
pub open spec fn custom(e: Ee) -> ProgramError {
    ProgramError::Custom(ee_code(e))
}

/// Parse a u64 from u8 array
pub fn parse_u64(data: &[u8]) -> (r: Result<u64, ProgramError>)
    ensures
        data@.len() == 8 ==> r == Ok::<u64, ProgramError>(spec_u64_from_le_bytes(data@)),
        data@.len() != 8 ==> r == Err::<u64, ProgramError>(custom(Ee::ByteSizeForU64)),
{
    if data.len() != 8 {
        return Err(ProgramError::from(Ee::ByteSizeForU64));
    }
    Ok(u64_from_le_bytes(data))
}

/// Parse a u16 from u8 array
pub fn parse_u16(data: &[u8]) -> (r: Result<u16, ProgramError>)
    ensures
        data@.len() == 2 ==> r == Ok::<u16, ProgramError>(spec_u16_from_le_bytes(data@)),
        data@.len() != 2 ==> r == Err::<u16, ProgramError>(custom(Ee::ByteSizeForU16)),
{
    if data.len() != 2 {
        return Err(ProgramError::from(Ee::ByteSizeForU16));
    }
    Ok(u16_from_le_bytes(data))
}

/// The little-endian `u64` at byte offset `off` of `data`.
pub fn read_u64_at(data: &[u8], off: usize) -> (r: u64)
    requires
        off + 8 <= data.len(),
    ensures
        r == le_u64_at(data@, off as int),
{
    u64_from_le_bytes(slice_subrange(data, off, off + 8))
}

/// The little-endian `u16` at byte offset `off` of `data`.
pub fn read_u16_at(data: &[u8], off: usize) -> (r: u16)
    requires
        off + 2 <= data.len(),
    ensures
        r == le_u16_at(data@, off as int),
{
    u16_from_le_bytes(slice_subrange(data, off, off + 2))
}

/// `data` read as consecutive little-endian `u64`s.
pub fn read_u64s(data: &[u8]) -> (r: Vec<u64>)
    ensures
        r@ == le_u64s(data@),
{
    let n = data.len() / 8;
    let mut out: Vec<u64> = Vec::new();
    let mut i: usize = 0;
    while i < n
        invariant
            n == data.len() / 8,
            data@.len() == data.len(),
            i <= n,
            out@.len() == i,
            forall|k: int| 0 <= k < i ==> out@[k] == le_u64_at(data@, 8 * k),
        decreases n - i,
    {
        out.push(read_u64_at(data, 8 * i));
        i = i + 1;
    }
    assert(out@ =~= le_u64s(data@));
    out
}

/// `data` read as consecutive little-endian `u16`s.
pub fn read_u16s(data: &[u8]) -> (r: Vec<u16>)
    ensures
        r@ == le_u16s(data@),
{
    let n = data.len() / 2;
    let mut out: Vec<u16> = Vec::new();
    let mut i: usize = 0;
    while i < n
        invariant
            n == data.len() / 2,
            data@.len() == data.len(),
            i <= n,
            out@.len() == i,
            forall|k: int| 0 <= k < i ==> out@[k] == le_u16_at(data@, 2 * k),
        decreases n - i,
    {
        out.push(read_u16_at(data, 2 * i));
        i = i + 1;
    }
    assert(out@ =~= le_u16s(data@));
    out
}

} // verus!

verus! {

/// The bytes of `s`, each word little-endian, one after the other.
pub open spec fn u64s_le_bytes(s: Seq<u64>) -> Seq<u8>
    decreases s.len(),
{
    if s.len() == 0 {
        Seq::empty()
    } else {
        u64s_le_bytes(s.drop_last()) + spec_u64_to_le_bytes(s.last())
    }
}

proof fn lemma_u64s_le_bytes_len(s: Seq<u64>)
    ensures
        u64s_le_bytes(s).len() == 8 * s.len(),
    decreases s.len(),
{
    lemma_auto_spec_u64_to_from_le_bytes();
    if s.len() > 0 {
        lemma_u64s_le_bytes_len(s.drop_last());
    }
}

/// Words written one after the other, little-endian, read back as the same
/// words.
pub proof fn law_u64s_read_back(s: Seq<u64>)
    ensures
        u64s_le_bytes(s).len() == 8 * s.len(),
        le_u64s(u64s_le_bytes(s)) == s,
    decreases s.len(),
{
    lemma_auto_spec_u64_to_from_le_bytes();
    lemma_u64s_le_bytes_len(s);
    if s.len() > 0 {
        let p = s.drop_last();
        law_u64s_read_back(p);
        let pb = u64s_le_bytes(p);
        let b = u64s_le_bytes(s);
        assert(b == pb + spec_u64_to_le_bytes(s.last()));
        assert forall|k: int| 0 <= k < s.len() implies #[trigger] le_u64s(b)[k] == s[k] by {
            if k < p.len() {
                assert(b.subrange(8 * k, 8 * k + 8) =~= pb.subrange(8 * k, 8 * k + 8));
                assert(le_u64s(pb)[k] == p[k]);
            } else {
                assert(b.subrange(8 * k, 8 * k + 8) =~= spec_u64_to_le_bytes(s.last()));
            }
        }
        assert(le_u64s(b) =~= s);
    } else {
        assert(le_u64s(u64s_le_bytes(s)) =~= s);
    }
}

} // verus!

verus! {

/// The bytes of `s`, each `u16` little-endian, one after the other.
pub open spec fn u16s_le_bytes(s: Seq<u16>) -> Seq<u8>
    decreases s.len(),
{
    if s.len() == 0 {
        Seq::empty()
    } else {
        u16s_le_bytes(s.drop_last()) + spec_u16_to_le_bytes(s.last())
    }
}

proof fn lemma_u16s_le_bytes_len(s: Seq<u16>)
    ensures
        u16s_le_bytes(s).len() == 2 * s.len(),
    decreases s.len(),
{
    lemma_auto_spec_u16_to_from_le_bytes();
    if s.len() > 0 {
        lemma_u16s_le_bytes_len(s.drop_last());
    }
}

/// `u16`s written one after the other, little-endian, read back as the same
/// numbers.
pub proof fn law_u16s_read_back(s: Seq<u16>)
    ensures
        u16s_le_bytes(s).len() == 2 * s.len(),
        le_u16s(u16s_le_bytes(s)) == s,
    decreases s.len(),
{
    lemma_auto_spec_u16_to_from_le_bytes();
    lemma_u16s_le_bytes_len(s);
    if s.len() > 0 {
        let p = s.drop_last();
        law_u16s_read_back(p);
        let pb = u16s_le_bytes(p);
        let b = u16s_le_bytes(s);
        assert(b == pb + spec_u16_to_le_bytes(s.last()));
        assert forall|k: int| 0 <= k < s.len() implies #[trigger] le_u16s(b)[k] == s[k] by {
            if k < p.len() {
                assert(b.subrange(2 * k, 2 * k + 2) =~= pb.subrange(2 * k, 2 * k + 2));
                assert(le_u16s(pb)[k] == p[k]);
            } else {
                assert(b.subrange(2 * k, 2 * k + 2) =~= spec_u16_to_le_bytes(s.last()));
            }
        }
        assert(le_u16s(b) =~= s);
    } else {
        assert(le_u16s(u16s_le_bytes(s)) =~= s);
    }
}

} // verus!
