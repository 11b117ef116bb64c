//! Commands, their arguments, and the command payload format.
//!
//! A payload is one byte that selects the command, followed by the
//! command's arguments in the fixed layout of the state module (integers
//! little-endian, keys and arrays as they are), and nothing else.

use vstd::prelude::*;
use vstd::bytes::{
    spec_u16_from_le_bytes, spec_u16_to_le_bytes, spec_u32_from_le_bytes, spec_u32_to_le_bytes,
    spec_u64_from_le_bytes, spec_u64_to_le_bytes, u16_from_le_bytes, u16_to_le_bytes,
    u32_from_le_bytes, u32_to_le_bytes, u64_from_le_bytes, u64_to_le_bytes,
    lemma_auto_spec_u16_to_from_le_bytes, lemma_auto_spec_u32_to_from_le_bytes,
    lemma_auto_spec_u64_to_from_le_bytes,
};
use vstd::slice::{slice_subrange, slice_to_vec};
use crate::error::UpgradeError;
use crate::state::{
    array64_from, key_from, lemma_array64_from_view, lemma_key_from_view, lemma_v1_round_trip,
    read_array64, read_key, Key, StateV1, StateV2, StateVersion,
};

verus! {

broadcast use vstd::array::group_array_axioms;

/// Appends a copy of `bytes` to `out`.
fn append_bytes(out: &mut Vec<u8>, bytes: &[u8])
    ensures
        final(out)@ == old(out)@ + bytes@,
{
    let mut copy = slice_to_vec(bytes);
    out.append(&mut copy);
}

/// Arguments of the first-version initialization.
#[derive(Clone, Copy, Debug, PartialEq, Eq)]
pub struct InitArgsV1 {
    pub num: u32,
    pub num_2: u16,
    pub key: Key,
}

impl InitArgsV1 {
    pub const LEN: usize = 4 + 2 + 32;

    pub open spec fn spec_to_bytes(self) -> Seq<u8> {
        spec_u32_to_le_bytes(self.num) + spec_u16_to_le_bytes(self.num_2) + self.key@
    }

    /// The arguments laid out in `b`, of length `LEN`.
    pub open spec fn spec_from_bytes(b: Seq<u8>) -> InitArgsV1 {
        InitArgsV1 {
            num: spec_u32_from_le_bytes(b.subrange(0, 4)),
            num_2: spec_u16_from_le_bytes(b.subrange(4, 6)),
            key: key_from(b.subrange(6, 38)),
        }
    }

    /// The record that these arguments initialize.
    pub open spec fn spec_to_state(self) -> StateV1 {
        StateV1 {
            state_version: StateVersion::V1,
            num: self.num,
            num_2: self.num_2,
            key: self.key,
        }
    }

    /// The record that these arguments initialize.
    pub fn to_state(&self) -> (r: StateV1)
        ensures
            r == self.spec_to_state(),
    {
        StateV1 { state_version: StateVersion::V1, num: self.num, num_2: self.num_2, key: self.key }
    }

    /// Appends the encoded arguments to `out`.
    pub fn write_to(&self, out: &mut Vec<u8>)
        ensures
            final(out)@ == old(out)@ + self.spec_to_bytes(),
    {
        let mut num = u32_to_le_bytes(self.num);
        out.append(&mut num);
        let mut num_2 = u16_to_le_bytes(self.num_2);
        out.append(&mut num_2);
        append_bytes(out, self.key.as_slice());
    }

    /// Reads the arguments laid out in `src` from `at` on.
    pub fn read_from(src: &[u8], at: usize) -> (r: InitArgsV1)
        requires
            at + Self::LEN <= src@.len(),
        ensures
            r == Self::spec_from_bytes(src@.subrange(at as int, at + Self::LEN)),
    {
        let b = Ghost(src@.subrange(at as int, at + Self::LEN));
        let len = src.len();
        assert(at + Self::LEN <= len);
        let num = u32_from_le_bytes(slice_subrange(src, at, at + 4));
        let num_2 = u16_from_le_bytes(slice_subrange(src, at + 4, at + 6));
        let key = read_key(src, at + 6);
        assert(src@.subrange(at as int, at + 4) =~= b@.subrange(0, 4));
        assert(src@.subrange(at + 4, at + 6) =~= b@.subrange(4, 6));
        assert(src@.subrange(at + 6, at + 38) =~= b@.subrange(6, 38));
        InitArgsV1 { num, num_2, key }
    }
}

/// Arguments of the second-version initialization.
#[derive(Clone, Copy, Debug, PartialEq, Eq)]
pub struct InitArgsV2 {
    pub num: u32,
    pub array: [u8; 64],
    pub key: Key,
    pub key_2: Key,
    pub num_2: u64,
}

impl InitArgsV2 {
    pub const LEN: usize = 4 + 64 + 32 + 32 + 8;

    pub open spec fn spec_to_bytes(self) -> Seq<u8> {
        spec_u32_to_le_bytes(self.num) + self.array@ + self.key@ + self.key_2@
            + spec_u64_to_le_bytes(self.num_2)
    }

    /// The arguments laid out in `b`, of length `LEN`.
    pub open spec fn spec_from_bytes(b: Seq<u8>) -> InitArgsV2 {
        InitArgsV2 {
            num: spec_u32_from_le_bytes(b.subrange(0, 4)),
            array: array64_from(b.subrange(4, 68)),
            key: key_from(b.subrange(68, 100)),
            key_2: key_from(b.subrange(100, 132)),
            num_2: spec_u64_from_le_bytes(b.subrange(132, 140)),
        }
    }

    /// The record that these arguments initialize.
    pub open spec fn spec_to_state(self) -> StateV2 {
        StateV2 {
            state_version: StateVersion::V2,
            num: self.num,
            array: self.array,
            key: self.key,
            key_2: self.key_2,
            num_2: self.num_2,
        }
    }

    /// The record that these arguments initialize.
    pub fn to_state(&self) -> (r: StateV2)
        ensures
            r == self.spec_to_state(),
    {
        StateV2 {
            state_version: StateVersion::V2,
            num: self.num,
            array: self.array,
            key: self.key,
            key_2: self.key_2,
            num_2: self.num_2,
        }
    }

    /// Appends the encoded arguments to `out`.
    pub fn write_to(&self, out: &mut Vec<u8>)
        ensures
            final(out)@ == old(out)@ + self.spec_to_bytes(),
    {
        let mut num = u32_to_le_bytes(self.num);
        out.append(&mut num);
        append_bytes(out, self.array.as_slice());
        append_bytes(out, self.key.as_slice());
        append_bytes(out, self.key_2.as_slice());
        let mut num_2 = u64_to_le_bytes(self.num_2);
        out.append(&mut num_2);
        assert(final(out)@ =~= old(out)@ + self.spec_to_bytes());
    }

    /// Reads the arguments laid out in `src` from `at` on.
    pub fn read_from(src: &[u8], at: usize) -> (r: InitArgsV2)
        requires
            at + Self::LEN <= src@.len(),
        ensures
            r == Self::spec_from_bytes(src@.subrange(at as int, at + Self::LEN)),
    {
        let b = Ghost(src@.subrange(at as int, at + Self::LEN));
        let len = src.len();
        assert(at + Self::LEN <= len);
        let num = u32_from_le_bytes(slice_subrange(src, at, at + 4));
        let array = read_array64(src, at + 4);
        let key = read_key(src, at + 68);
        let key_2 = read_key(src, at + 100);
        let num_2 = u64_from_le_bytes(slice_subrange(src, at + 132, at + 140));
        assert(src@.subrange(at as int, at + 4) =~= b@.subrange(0, 4));
        assert(src@.subrange(at + 4, at + 68) =~= b@.subrange(4, 68));
        assert(src@.subrange(at + 68, at + 100) =~= b@.subrange(68, 100));
        assert(src@.subrange(at + 100, at + 132) =~= b@.subrange(100, 132));
        assert(src@.subrange(at + 132, at + 140) =~= b@.subrange(132, 140));
        InitArgsV2 { num, array, key, key_2, num_2 }
    }
}

/// Fields of a second-version record that a first-version record lacks,
/// supplied by the caller of an upgrade.
#[derive(Clone, Copy, Debug, PartialEq, Eq)]
pub struct V1ToV2UpgradeData {
    pub array: [u8; 64],
    pub key_2: Key,
}

/// Another name for [`V1ToV2UpgradeData`].
pub type V2ToV1UpgradeData = V1ToV2UpgradeData;

impl V1ToV2UpgradeData {
    pub const LEN: usize = 64 + 32;

    pub open spec fn spec_to_bytes(self) -> Seq<u8> {
        self.array@ + self.key_2@
    }

    /// The arguments laid out in `b`, of length `LEN`.
    pub open spec fn spec_from_bytes(b: Seq<u8>) -> V1ToV2UpgradeData {
        V1ToV2UpgradeData {
            array: array64_from(b.subrange(0, 64)),
            key_2: key_from(b.subrange(64, 96)),
        }
    }

    /// Appends the encoded arguments to `out`.
    pub fn write_to(&self, out: &mut Vec<u8>)
        ensures
            final(out)@ == old(out)@ + self.spec_to_bytes(),
    {
        append_bytes(out, self.array.as_slice());
        append_bytes(out, self.key_2.as_slice());
        assert(final(out)@ =~= old(out)@ + self.spec_to_bytes());
    }

    /// Reads the arguments laid out in `src` from `at` on.
    pub fn read_from(src: &[u8], at: usize) -> (r: V1ToV2UpgradeData)
        requires
            at + Self::LEN <= src@.len(),
        ensures
            r == Self::spec_from_bytes(src@.subrange(at as int, at + Self::LEN)),
    {
        let b = Ghost(src@.subrange(at as int, at + Self::LEN));
        let len = src.len();
        assert(at + Self::LEN <= len);
        let array = read_array64(src, at);
        let key_2 = read_key(src, at + 64);
        assert(src@.subrange(at as int, at + 64) =~= b@.subrange(0, 64));
        assert(src@.subrange(at + 64, at + 96) =~= b@.subrange(64, 96));
        V1ToV2UpgradeData { array, key_2 }
    }
}

/// Instruction definition
#[derive(Clone, Copy, Debug, PartialEq, Eq)]
pub enum UpgradeInstruction {
    /// Initializes a buffer with a first-version record.
    InitV1(InitArgsV1),
    /// Checks that a buffer holds a first-version record (version and size).
    UseV1,
    /// Initializes a buffer with a second-version record.
    InitV2(InitArgsV2),
    /// Checks that a buffer holds a second-version record (version and size).
    UseV2,
    /// Reads a first-version record and writes the second-version record
    /// made from it and the given fields into a fresh buffer.
    UpgradeV1ToV2(V1ToV2UpgradeData),
}

impl UpgradeInstruction {
    /// The byte that selects the command.
    pub open spec fn spec_selector(self) -> u8 {
        match self {
            UpgradeInstruction::InitV1(_) => 0,
            UpgradeInstruction::UseV1 => 1,
            UpgradeInstruction::InitV2(_) => 2,
            UpgradeInstruction::UseV2 => 3,
            UpgradeInstruction::UpgradeV1ToV2(_) => 4,
        }
    }

    /// The encoded arguments of the command.
    pub open spec fn spec_args_bytes(self) -> Seq<u8> {
        match self {
            UpgradeInstruction::InitV1(a) => a.spec_to_bytes(),
            UpgradeInstruction::UseV1 => Seq::empty(),
            UpgradeInstruction::InitV2(a) => a.spec_to_bytes(),
            UpgradeInstruction::UseV2 => Seq::empty(),
            UpgradeInstruction::UpgradeV1ToV2(d) => d.spec_to_bytes(),
        }
    }

    /// The payload of the command.
    pub open spec fn spec_pack(self) -> Seq<u8> {
        seq![self.spec_selector()] + self.spec_args_bytes()
    }

    /// The command that the payload `b` holds: a known selector byte
    /// followed by exactly the bytes of that command's arguments.
    pub open spec fn spec_unpack(b: Seq<u8>) -> Result<UpgradeInstruction, UpgradeError> {
        if b.len() == 0 {
            Err(UpgradeError::InvalidInstructionData)
        } else {
            let rest = b.skip(1);
            if b[0] == 0 && rest.len() == InitArgsV1::LEN {
                Ok(UpgradeInstruction::InitV1(InitArgsV1::spec_from_bytes(rest)))
            } else if b[0] == 1 && rest.len() == 0 {
                Ok(UpgradeInstruction::UseV1)
            } else if b[0] == 2 && rest.len() == InitArgsV2::LEN {
                Ok(UpgradeInstruction::InitV2(InitArgsV2::spec_from_bytes(rest)))
            } else if b[0] == 3 && rest.len() == 0 {
                Ok(UpgradeInstruction::UseV2)
            } else if b[0] == 4 && rest.len() == V1ToV2UpgradeData::LEN {
                Ok(UpgradeInstruction::UpgradeV1ToV2(V1ToV2UpgradeData::spec_from_bytes(rest)))
            } else {
                Err(UpgradeError::InvalidInstructionData)
            }
        }
    }

    /// Encodes the command as a payload.
    pub fn pack(&self) -> (r: Vec<u8>)
        ensures
            r@ == self.spec_pack(),
    {
        let mut out: Vec<u8> = Vec::new();
        match self {
            UpgradeInstruction::InitV1(a) => {
                out.push(0);
                a.write_to(&mut out);
            },
            UpgradeInstruction::UseV1 => {
                out.push(1);
            },
            UpgradeInstruction::InitV2(a) => {
                out.push(2);
                a.write_to(&mut out);
            },
            UpgradeInstruction::UseV2 => {
                out.push(3);
            },
            UpgradeInstruction::UpgradeV1ToV2(d) => {
                out.push(4);
                d.write_to(&mut out);
            },
        }
        assert(out@ =~= self.spec_pack());
        out
    }

    /// Decodes a payload into the command it holds.
    pub fn unpack(input: &[u8]) -> (r: Result<UpgradeInstruction, UpgradeError>)
        ensures
            r == Self::spec_unpack(input@),
    {
        let len = input.len();
        if len == 0 {
            return Err(UpgradeError::InvalidInstructionData);
        }
        let selector = input[0];
        let rest = len - 1;
        assert(input@.skip(1).len() == rest);
        if selector == 0 && rest == InitArgsV1::LEN {
            let a = InitArgsV1::read_from(input, 1);
            assert(input@.subrange(1, 1 + InitArgsV1::LEN) =~= input@.skip(1));
            Ok(UpgradeInstruction::InitV1(a))
        } else if selector == 1 && rest == 0 {
            Ok(UpgradeInstruction::UseV1)
        } else if selector == 2 && rest == InitArgsV2::LEN {
            let a = InitArgsV2::read_from(input, 1);
            assert(input@.subrange(1, 1 + InitArgsV2::LEN) =~= input@.skip(1));
            Ok(UpgradeInstruction::InitV2(a))
        } else if selector == 3 && rest == 0 {
            Ok(UpgradeInstruction::UseV2)
        } else if selector == 4 && rest == V1ToV2UpgradeData::LEN {
            let d = V1ToV2UpgradeData::read_from(input, 1);
            assert(input@.subrange(1, 1 + V1ToV2UpgradeData::LEN) =~= input@.skip(1));
            Ok(UpgradeInstruction::UpgradeV1ToV2(d))
        } else {
            Err(UpgradeError::InvalidInstructionData)
        }
    }
}

/// Decoding the payload of a command gives the command back.
pub proof fn lemma_instruction_round_trip(i: UpgradeInstruction)
    ensures
        UpgradeInstruction::spec_unpack(i.spec_pack()) == Ok::<_, UpgradeError>(i),
{
    lemma_auto_spec_u16_to_from_le_bytes();
    lemma_auto_spec_u32_to_from_le_bytes();
    lemma_auto_spec_u64_to_from_le_bytes();
    let b = i.spec_pack();
    let rest = b.skip(1);
    assert(rest =~= i.spec_args_bytes());
    match i {
        UpgradeInstruction::InitV1(a) => {
            lemma_key_from_view(a.key);
            assert(rest.subrange(0, 4) =~= spec_u32_to_le_bytes(a.num));
            assert(rest.subrange(4, 6) =~= spec_u16_to_le_bytes(a.num_2));
            assert(rest.subrange(6, 38) =~= a.key@);
        },
        UpgradeInstruction::InitV2(a) => {
            lemma_array64_from_view(a.array);
            lemma_key_from_view(a.key);
            lemma_key_from_view(a.key_2);
            assert(rest.subrange(0, 4) =~= spec_u32_to_le_bytes(a.num));
            assert(rest.subrange(4, 68) =~= a.array@);
            assert(rest.subrange(68, 100) =~= a.key@);
            assert(rest.subrange(100, 132) =~= a.key_2@);
            assert(rest.subrange(132, 140) =~= spec_u64_to_le_bytes(a.num_2));
        },
        UpgradeInstruction::UpgradeV1ToV2(d) => {
            lemma_array64_from_view(d.array);
            lemma_key_from_view(d.key_2);
            assert(rest.subrange(0, 64) =~= d.array@);
            assert(rest.subrange(64, 96) =~= d.key_2@);
        },
        _ => {},
    }
}

/// The record that first-version arguments initialize is read back from its
/// own encoding.
pub proof fn lemma_init_args_v1_round_trip(args: InitArgsV1)
    ensures
        StateV1::spec_decode(args.spec_to_state().spec_to_bytes()) == Ok::<_, crate::state::DecodeError>(
            args.spec_to_state(),
        ),
{
    let bytes = args.spec_to_state().spec_to_bytes();
    lemma_v1_round_trip(args.spec_to_state(), Seq::empty());
    assert(bytes + Seq::<u8>::empty() =~= bytes);
}

} // verus!
