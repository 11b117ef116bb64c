//! Record layouts of each schema version, the version registry, and the
//! codec between records and bytes.
//!
//! Every record starts with its one-byte version tag; integers are stored
//! little-endian and keys and byte arrays as they are.

use vstd::prelude::*;
use vstd::bytes::{
    spec_u16_from_le_bytes, spec_u16_to_le_bytes, spec_u32_from_le_bytes, spec_u32_to_le_bytes,
    spec_u64_from_le_bytes, spec_u64_to_le_bytes, u16_from_le_bytes, u16_to_le_bytes,
    u32_from_le_bytes, u32_to_le_bytes, u64_from_le_bytes, u64_to_le_bytes,
    lemma_auto_spec_u16_to_from_le_bytes, lemma_auto_spec_u32_to_from_le_bytes,
    lemma_auto_spec_u64_to_from_le_bytes,
};
use vstd::slice::{slice_subrange, slice_to_vec};

verus! {

broadcast use vstd::array::group_array_axioms;

/// A 32-byte account identifier.
pub type Key = [u8; 32];

/// The key whose bytes are `s` (of length 32).
pub open spec fn key_from(s: Seq<u8>) -> Key {
    choose|k: Key| k@ == s
}

/// A 64-byte array whose bytes are `s` (of length 64).
pub open spec fn array64_from(s: Seq<u8>) -> [u8; 64] {
    choose|a: [u8; 64]| a@ == s
}

/// `bytes` written over the front of `data`, the rest of `data` kept.
pub open spec fn write_front(data: Seq<u8>, bytes: Seq<u8>) -> Seq<u8> {
    bytes + data.skip(bytes.len() as int)
}

pub proof fn lemma_key_from_view(k: Key)
    ensures
        key_from(k@) == k,
{
    let c = key_from(k@);
    assert(c@ == k@);
    assert(c =~= k);
}

pub proof fn lemma_array64_from_view(a: [u8; 64])
    ensures
        array64_from(a@) == a,
{
    let c = array64_from(a@);
    assert(c@ == a@);
    assert(c =~= a);
}

/// Copies 32 bytes of `src`, starting at `at`, into a key.
pub fn read_key(src: &[u8], at: usize) -> (k: Key)
    requires
        at + 32 <= src@.len(),
    ensures
        k@ == src@.subrange(at as int, at + 32),
        k == key_from(src@.subrange(at as int, at + 32)),
{
    let mut k: Key = [0u8; 32];
    let len = src.len();
    let mut i: usize = 0;
    while i < 32
        invariant
            len == src@.len(),
            at + 32 <= src@.len(),
            i <= 32,
            forall|j: int| 0 <= j < i ==> k@[j] == src@[at + j],
        decreases 32 - i,
    {
        k[i] = src[at + i];
        i = i + 1;
    }
    assert(k@ =~= src@.subrange(at as int, at + 32));
    proof {
        lemma_key_from_view(k);
    }
    k
}

/// Copies 64 bytes of `src`, starting at `at`, into an array.
pub fn read_array64(src: &[u8], at: usize) -> (a: [u8; 64])
    requires
        at + 64 <= src@.len(),
    ensures
        a@ == src@.subrange(at as int, at + 64),
        a == array64_from(src@.subrange(at as int, at + 64)),
{
    let mut a: [u8; 64] = [0u8; 64];
    let len = src.len();
    let mut i: usize = 0;
    while i < 64
        invariant
            len == src@.len(),
            at + 64 <= src@.len(),
            i <= 64,
            forall|j: int| 0 <= j < i ==> a@[j] == src@[at + j],
        decreases 64 - i,
    {
        a[i] = src[at + i];
        i = i + 1;
    }
    assert(a@ =~= src@.subrange(at as int, at + 64));
    proof {
        lemma_array64_from_view(a);
    }
    a
}

/// Writes `bytes` over the front of `dst`, leaving the rest of `dst` as it was.
pub fn write_front_exec(dst: &mut Vec<u8>, bytes: &Vec<u8>)
    requires
        bytes@.len() <= old(dst)@.len(),
    ensures
        final(dst)@ == write_front(old(dst)@, bytes@),
{
    let n = bytes.len();
    let mut i: usize = 0;
    while i < n
        invariant
            n == bytes@.len(),
            n <= dst@.len(),
            i <= n,
            dst@.len() == old(dst)@.len(),
            forall|j: int| 0 <= j < i ==> dst@[j] == bytes@[j],
            forall|j: int| i <= j < dst@.len() ==> dst@[j] == old(dst)@[j],
        decreases n - i,
    {
        dst[i] = bytes[i];
        i = i + 1;
    }
    assert(dst@ =~= write_front(old(dst)@, bytes@));
}

/// Failure to read a record out of bytes.
#[derive(Clone, Copy, Debug, PartialEq, Eq, Structural)]
pub enum DecodeError {
    /// Fewer bytes than the layout's fixed size.
    Truncated,
    /// The tag byte names no known version.
    Malformed,
}

/// The schema version that a record's first byte names.
#[derive(Clone, Copy, Debug, PartialEq, Eq, Structural)]
pub enum StateVersion {
    Uninitialized,
    V1,
    V2,
}

/// Encoded size of the tag alone, which is all an uninitialized buffer holds.
pub const UNINITIALIZED_LEN: usize = 1;

impl StateVersion {
    pub open spec fn spec_tag(self) -> u8 {
        match self {
            StateVersion::Uninitialized => 0,
            StateVersion::V1 => 1,
            StateVersion::V2 => 2,
        }
    }

    pub open spec fn spec_from_tag(b: u8) -> Option<StateVersion> {
        if b == 0 {
            Some(StateVersion::Uninitialized)
        } else if b == 1 {
            Some(StateVersion::V1)
        } else if b == 2 {
            Some(StateVersion::V2)
        } else {
            None
        }
    }

    pub open spec fn spec_encoded_len(self) -> nat {
        match self {
            StateVersion::Uninitialized => UNINITIALIZED_LEN as nat,
            StateVersion::V1 => StateV1::LEN as nat,
            StateVersion::V2 => StateV2::LEN as nat,
        }
    }

    /// The byte that stands for this version at the front of a record.
    pub fn tag(&self) -> (r: u8)
        ensures
            r == self.spec_tag(),
    {
        match self {
            StateVersion::Uninitialized => 0,
            StateVersion::V1 => 1,
            StateVersion::V2 => 2,
        }
    }

    /// The version that the tag byte `b` names, if any.
    pub fn from_tag(b: u8) -> (r: Option<StateVersion>)
        ensures
            r == Self::spec_from_tag(b),
    {
        if b == 0 {
            Some(StateVersion::Uninitialized)
        } else if b == 1 {
            Some(StateVersion::V1)
        } else if b == 2 {
            Some(StateVersion::V2)
        } else {
            None
        }
    }

    /// Fixed encoded size of a record of this version.
    pub fn encoded_len(&self) -> (r: usize)
        ensures
            r == self.spec_encoded_len(),
    {
        match self {
            StateVersion::Uninitialized => UNINITIALIZED_LEN,
            StateVersion::V1 => StateV1::LEN,
            StateVersion::V2 => StateV2::LEN,
        }
    }
}

/// A tag is read back as the version it was written for, and a byte that
/// names a version is that version's tag.
pub proof fn lemma_tag_round_trip(v: StateVersion, b: u8)
    ensures
        StateVersion::spec_from_tag(v.spec_tag()) == Some(v),
        StateVersion::spec_from_tag(b) matches Some(w) ==> w.spec_tag() == b,
{
}

/// Record of the first schema version.
#[derive(Clone, Copy, Debug, PartialEq, Eq)]
pub struct StateV1 {
    pub state_version: StateVersion,
    pub num: u32,
    pub num_2: u16,
    pub key: Key,
}

impl StateV1 {
    pub const LEN: usize = 1 + 4 + 2 + 32;

    /// The encoded bytes of this record.
    pub open spec fn spec_to_bytes(self) -> Seq<u8> {
        seq![self.state_version.spec_tag()] + spec_u32_to_le_bytes(self.num) + spec_u16_to_le_bytes(
            self.num_2,
        ) + self.key@
    }

    /// The record at the front of `b`: its first `LEN` bytes are read, the
    /// rest is ignored.
    pub open spec fn spec_decode(b: Seq<u8>) -> Result<StateV1, DecodeError> {
        if b.len() < Self::LEN {
            Err(DecodeError::Truncated)
        } else {
            match StateVersion::spec_from_tag(b[0]) {
                None => Err(DecodeError::Malformed),
                Some(v) => Ok(
                    StateV1 {
                        state_version: v,
                        num: spec_u32_from_le_bytes(b.subrange(1, 5)),
                        num_2: spec_u16_from_le_bytes(b.subrange(5, 7)),
                        key: key_from(b.subrange(7, 39)),
                    },
                ),
            }
        }
    }

    /// Encodes the record into a fresh vector of `LEN` bytes.
    pub fn to_bytes(&self) -> (r: Vec<u8>)
        ensures
            r@ == self.spec_to_bytes(),
            r@.len() == Self::LEN,
    {
        proof {
            lemma_auto_spec_u16_to_from_le_bytes();
            lemma_auto_spec_u32_to_from_le_bytes();
        }
        let mut out: Vec<u8> = Vec::new();
        out.push(self.state_version.tag());
        let mut num = u32_to_le_bytes(self.num);
        out.append(&mut num);
        let mut num_2 = u16_to_le_bytes(self.num_2);
        out.append(&mut num_2);
        let mut key = slice_to_vec(self.key.as_slice());
        out.append(&mut key);
        out
    }

    /// Writes the record over the first `LEN` bytes of `dst`; the bytes
    /// after them are left as they were.
    pub fn encode(&self, dst: &mut Vec<u8>)
        requires
            old(dst)@.len() >= Self::LEN,
        ensures
            final(dst)@ == write_front(old(dst)@, self.spec_to_bytes()),
    {
        let bytes = self.to_bytes();
        write_front_exec(dst, &bytes);
    }

    /// Reads the record at the front of `src`.
    pub fn decode(src: &[u8]) -> (r: Result<StateV1, DecodeError>)
        ensures
            r == Self::spec_decode(src@),
    {
        if src.len() < Self::LEN {
            return Err(DecodeError::Truncated);
        }
        match StateVersion::from_tag(src[0]) {
            None => Err(DecodeError::Malformed),
            Some(v) => {
                let num = u32_from_le_bytes(slice_subrange(src, 1, 5));
                let num_2 = u16_from_le_bytes(slice_subrange(src, 5, 7));
                let key = read_key(src, 7);
                Ok(StateV1 { state_version: v, num, num_2, key })
            },
        }
    }
}

/// Record of the second schema version.
#[derive(Clone, Copy, Debug, PartialEq, Eq)]
pub struct StateV2 {
    pub state_version: StateVersion,
    pub num: u32,
    pub array: [u8; 64],
    pub key: Key,
    pub key_2: Key,
    pub num_2: u64,
}

impl StateV2 {
    pub const LEN: usize = 1 + 4 + 64 + 32 + 32 + 8;

    /// The encoded bytes of this record.
    pub open spec fn spec_to_bytes(self) -> Seq<u8> {
        seq![self.state_version.spec_tag()] + spec_u32_to_le_bytes(self.num) + self.array@
            + self.key@ + self.key_2@ + spec_u64_to_le_bytes(self.num_2)
    }

    /// The record at the front of `b`: its first `LEN` bytes are read, the
    /// rest is ignored.
    pub open spec fn spec_decode(b: Seq<u8>) -> Result<StateV2, DecodeError> {
        if b.len() < Self::LEN {
            Err(DecodeError::Truncated)
        } else {
            match StateVersion::spec_from_tag(b[0]) {
                None => Err(DecodeError::Malformed),
                Some(v) => Ok(
                    StateV2 {
                        state_version: v,
                        num: spec_u32_from_le_bytes(b.subrange(1, 5)),
                        array: array64_from(b.subrange(5, 69)),
                        key: key_from(b.subrange(69, 101)),
                        key_2: key_from(b.subrange(101, 133)),
                        num_2: spec_u64_from_le_bytes(b.subrange(133, 141)),
                    },
                ),
            }
        }
    }

    /// Encodes the record into a fresh vector of `LEN` bytes.
    pub fn to_bytes(&self) -> (r: Vec<u8>)
        ensures
            r@ == self.spec_to_bytes(),
            r@.len() == Self::LEN,
    {
        proof {
            lemma_auto_spec_u32_to_from_le_bytes();
            lemma_auto_spec_u64_to_from_le_bytes();
        }
        let mut out: Vec<u8> = Vec::new();
        out.push(self.state_version.tag());
        let mut num = u32_to_le_bytes(self.num);
        out.append(&mut num);
        let mut array = slice_to_vec(self.array.as_slice());
        out.append(&mut array);
        let mut key = slice_to_vec(self.key.as_slice());
        out.append(&mut key);
        let mut key_2 = slice_to_vec(self.key_2.as_slice());
        out.append(&mut key_2);
        let mut num_2 = u64_to_le_bytes(self.num_2);
        out.append(&mut num_2);
        out
    }

    /// Writes the record over the first `LEN` bytes of `dst`; the bytes
    /// after them are left as they were.
    pub fn encode(&self, dst: &mut Vec<u8>)
        requires
            old(dst)@.len() >= Self::LEN,
        ensures
            final(dst)@ == write_front(old(dst)@, self.spec_to_bytes()),
    {
        let bytes = self.to_bytes();
        write_front_exec(dst, &bytes);
    }

    /// Reads the record at the front of `src`.
    pub fn decode(src: &[u8]) -> (r: Result<StateV2, DecodeError>)
        ensures
            r == Self::spec_decode(src@),
    {
        if src.len() < Self::LEN {
            return Err(DecodeError::Truncated);
        }
        match StateVersion::from_tag(src[0]) {
            None => Err(DecodeError::Malformed),
            Some(v) => {
                let num = u32_from_le_bytes(slice_subrange(src, 1, 5));
                let array = read_array64(src, 5);
                let key = read_key(src, 69);
                let key_2 = read_key(src, 101);
                let num_2 = u64_from_le_bytes(slice_subrange(src, 133, 141));
                Ok(StateV2 { state_version: v, num, array, key, key_2, num_2 })
            },
        }
    }
}

/// Decoding the bytes that a first-version record encodes to gives the
/// record back, whatever bytes follow them.
pub proof fn lemma_v1_round_trip(r: StateV1, tail: Seq<u8>)
    ensures
        r.spec_to_bytes().len() == StateV1::LEN,
        StateV1::spec_decode(r.spec_to_bytes() + tail) == Ok::<_, DecodeError>(r),
{
    lemma_auto_spec_u16_to_from_le_bytes();
    lemma_auto_spec_u32_to_from_le_bytes();
    lemma_tag_round_trip(r.state_version, 0);
    lemma_key_from_view(r.key);
    let b = r.spec_to_bytes() + tail;
    assert(b.subrange(1, 5) =~= spec_u32_to_le_bytes(r.num));
    assert(b.subrange(5, 7) =~= spec_u16_to_le_bytes(r.num_2));
    assert(b.subrange(7, 39) =~= r.key@);
}

/// Decoding the bytes that a second-version record encodes to gives the
/// record back, whatever bytes follow them.
pub proof fn lemma_v2_round_trip(r: StateV2, tail: Seq<u8>)
    ensures
        r.spec_to_bytes().len() == StateV2::LEN,
        StateV2::spec_decode(r.spec_to_bytes() + tail) == Ok::<_, DecodeError>(r),
{
    lemma_auto_spec_u32_to_from_le_bytes();
    lemma_auto_spec_u64_to_from_le_bytes();
    lemma_tag_round_trip(r.state_version, 0);
    lemma_array64_from_view(r.array);
    lemma_key_from_view(r.key);
    lemma_key_from_view(r.key_2);
    let b = r.spec_to_bytes() + tail;
    assert(b.subrange(1, 5) =~= spec_u32_to_le_bytes(r.num));
    assert(b.subrange(5, 69) =~= r.array@);
    assert(b.subrange(69, 101) =~= r.key@);
    assert(b.subrange(101, 133) =~= r.key_2@);
    assert(b.subrange(133, 141) =~= spec_u64_to_le_bytes(r.num_2));
}

} // verus!
