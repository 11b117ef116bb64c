//! Program state processor: one operation per command, each of which checks
//! every precondition before it writes anything.

use vstd::prelude::*;
use crate::error::UpgradeError;
use crate::instruction::{InitArgsV1, InitArgsV2, UpgradeInstruction, V1ToV2UpgradeData};
use crate::state::{
    lemma_v1_round_trip, lemma_v2_round_trip, write_front, DecodeError, StateV1, StateV2,
    StateVersion,
};

verus! {

/// Outcome of an operation that may write one buffer: its result and the
/// bytes of that buffer afterwards.
pub type Outcome = (Result<(), UpgradeError>, Seq<u8>);

/// Checks of an initialization, in the order they are made: the buffer
/// holds `len` bytes, it is tagged uninitialized, the caller is authorized.
pub open spec fn init_check(data: Seq<u8>, len: nat, authorized: bool) -> Result<(), UpgradeError> {
    if data.len() < len {
        Err(UpgradeError::TooSmall)
    } else if data[0] != StateVersion::Uninitialized.spec_tag() {
        Err(UpgradeError::AlreadyInitialized)
    } else if !authorized {
        Err(UpgradeError::Unauthorized)
    } else {
        Ok(())
    }
}

pub open spec fn spec_initialize_v1(data: Seq<u8>, args: InitArgsV1, authorized: bool) -> Outcome {
    match init_check(data, StateV1::LEN as nat, authorized) {
        Err(e) => (Err(e), data),
        Ok(()) => (Ok(()), write_front(data, args.spec_to_state().spec_to_bytes())),
    }
}

pub open spec fn spec_initialize_v2(data: Seq<u8>, args: InitArgsV2, authorized: bool) -> Outcome {
    match init_check(data, StateV2::LEN as nat, authorized) {
        Err(e) => (Err(e), data),
        Ok(()) => (Ok(()), write_front(data, args.spec_to_state().spec_to_bytes())),
    }
}

/// The first-version record that `data` holds, if it is large enough and
/// tagged as such.
pub open spec fn spec_use_v1(data: Seq<u8>) -> Result<StateV1, UpgradeError> {
    if data.len() < StateV1::LEN {
        Err(UpgradeError::TooSmall)
    } else {
        match StateV1::spec_decode(data) {
            Ok(s) => if s.state_version == StateVersion::V1 {
                Ok(s)
            } else {
                Err(UpgradeError::InvalidVersion)
            },
            Err(_) => Err(UpgradeError::InvalidVersion),
        }
    }
}

/// The second-version record that `data` holds, if it is large enough and
/// tagged as such.
pub open spec fn spec_use_v2(data: Seq<u8>) -> Result<StateV2, UpgradeError> {
    if data.len() < StateV2::LEN {
        Err(UpgradeError::TooSmall)
    } else {
        match StateV2::spec_decode(data) {
            Ok(s) => if s.state_version == StateVersion::V2 {
                Ok(s)
            } else {
                Err(UpgradeError::InvalidVersion)
            },
            Err(_) => Err(UpgradeError::InvalidVersion),
        }
    }
}

/// The second-version record made from a first-version one and the fields
/// that it lacks.
pub open spec fn upgraded(old: StateV1, delta: V1ToV2UpgradeData) -> StateV2 {
    StateV2 {
        state_version: StateVersion::V2,
        num: old.num,
        array: delta.array,
        key: old.key,
        key_2: delta.key_2,
        num_2: old.num_2 as u64,
    }
}

/// Checks of an upgrade, in the order they are made: the source holds a
/// first-version record, the caller is authorized, the destination holds
/// `StateV2::LEN` bytes and is tagged uninitialized.
pub open spec fn upgrade_check(src: Seq<u8>, dst: Seq<u8>, authorized: bool) -> Result<
    (),
    UpgradeError,
> {
    match spec_use_v1(src) {
        Err(e) => Err(e),
        Ok(_) => if !authorized {
            Err(UpgradeError::Unauthorized)
        } else if dst.len() < StateV2::LEN {
            Err(UpgradeError::TooSmall)
        } else if dst[0] != StateVersion::Uninitialized.spec_tag() {
            Err(UpgradeError::InvalidVersion)
        } else {
            Ok(())
        },
    }
}

/// Outcome of an upgrade for the destination buffer; the source is never
/// written.
pub open spec fn spec_upgrade_v1_to_v2(
    src: Seq<u8>,
    dst: Seq<u8>,
    delta: V1ToV2UpgradeData,
    authorized: bool,
) -> Outcome {
    match upgrade_check(src, dst, authorized) {
        Err(e) => (Err(e), dst),
        Ok(()) => (
            Ok(()),
            write_front(dst, upgraded(spec_use_v1(src)->Ok_0, delta).spec_to_bytes()),
        ),
    }
}

/// Outcome of a command payload run against two buffers: its result and
/// the bytes of both buffers afterwards.
pub open spec fn spec_process(input: Seq<u8>, first: Seq<u8>, second: Seq<u8>, authorized: bool) -> (
    Result<(), UpgradeError>,
    Seq<u8>,
    Seq<u8>,
) {
    match UpgradeInstruction::spec_unpack(input) {
        Err(e) => (Err(e), first, second),
        Ok(UpgradeInstruction::InitV1(args)) => {
            let (r, d) = spec_initialize_v1(first, args, authorized);
            (r, d, second)
        },
        Ok(UpgradeInstruction::UseV1) => match spec_use_v1(first) {
            Ok(_) => (Ok(()), first, second),
            Err(e) => (Err(e), first, second),
        },
        Ok(UpgradeInstruction::InitV2(args)) => {
            let (r, d) = spec_initialize_v2(first, args, authorized);
            (r, d, second)
        },
        Ok(UpgradeInstruction::UseV2) => match spec_use_v2(first) {
            Ok(_) => (Ok(()), first, second),
            Err(e) => (Err(e), first, second),
        },
        Ok(UpgradeInstruction::UpgradeV1ToV2(delta)) => {
            let (r, d) = spec_upgrade_v1_to_v2(first, second, delta, authorized);
            (r, first, d)
        },
    }
}

/// Program state handler.
pub struct Processor {}

impl Processor {
    /// Writes the first-version record made from `args` into `data`.
    pub fn initialize_v1(data: &mut Vec<u8>, args: &InitArgsV1, authorized: bool) -> (r: Result<
        (),
        UpgradeError,
    >)
        ensures
            (r, final(data)@) == spec_initialize_v1(old(data)@, *args, authorized),
    {
        if data.len() < StateV1::LEN {
            return Err(UpgradeError::TooSmall);
        }
        if data[0] != StateVersion::Uninitialized.tag() {
            return Err(UpgradeError::AlreadyInitialized);
        }
        if !authorized {
            return Err(UpgradeError::Unauthorized);
        }
        let state = args.to_state();
        state.encode(data);
        Ok(())
    }

    /// Writes the second-version record made from `args` into `data`.
    pub fn initialize_v2(data: &mut Vec<u8>, args: &InitArgsV2, authorized: bool) -> (r: Result<
        (),
        UpgradeError,
    >)
        ensures
            (r, final(data)@) == spec_initialize_v2(old(data)@, *args, authorized),
    {
        if data.len() < StateV2::LEN {
            return Err(UpgradeError::TooSmall);
        }
        if data[0] != StateVersion::Uninitialized.tag() {
            return Err(UpgradeError::AlreadyInitialized);
        }
        if !authorized {
            return Err(UpgradeError::Unauthorized);
        }
        let state = args.to_state();
        state.encode(data);
        Ok(())
    }

    /// Reads the first-version record in `data`, failing unless `data` is
    /// large enough and tagged as such.
    pub fn use_v1(data: &[u8]) -> (r: Result<StateV1, UpgradeError>)
        ensures
            r == spec_use_v1(data@),
    {
        if data.len() < StateV1::LEN {
            return Err(UpgradeError::TooSmall);
        }
        match StateV1::decode(data) {
            Ok(s) => if matches!(s.state_version, StateVersion::V1) {
                Ok(s)
            } else {
                Err(UpgradeError::InvalidVersion)
            },
            Err(_) => Err(UpgradeError::InvalidVersion),
        }
    }

    /// Reads the second-version record in `data`, failing unless `data` is
    /// large enough and tagged as such.
    pub fn use_v2(data: &[u8]) -> (r: Result<StateV2, UpgradeError>)
        ensures
            r == spec_use_v2(data@),
    {
        if data.len() < StateV2::LEN {
            return Err(UpgradeError::TooSmall);
        }
        match StateV2::decode(data) {
            Ok(s) => if matches!(s.state_version, StateVersion::V2) {
                Ok(s)
            } else {
                Err(UpgradeError::InvalidVersion)
            },
            Err(_) => Err(UpgradeError::InvalidVersion),
        }
    }

    /// Writes into `dst` the second-version record made from the
    /// first-version record in `src` and the fields in `delta`.
    pub fn upgrade_v1_to_v2(
        src: &[u8],
        dst: &mut Vec<u8>,
        delta: &V1ToV2UpgradeData,
        authorized: bool,
    ) -> (r: Result<(), UpgradeError>)
        ensures
            (r, final(dst)@) == spec_upgrade_v1_to_v2(src@, old(dst)@, *delta, authorized),
    {
        let old_state = match Self::use_v1(src) {
            Ok(s) => s,
            Err(e) => return Err(e),
        };
        if !authorized {
            return Err(UpgradeError::Unauthorized);
        }
        if dst.len() < StateV2::LEN {
            return Err(UpgradeError::TooSmall);
        }
        if dst[0] != StateVersion::Uninitialized.tag() {
            return Err(UpgradeError::InvalidVersion);
        }
        let new_state = StateV2 {
            state_version: StateVersion::V2,
            num: old_state.num,
            array: delta.array,
            key: old_state.key,
            key_2: delta.key_2,
            num_2: old_state.num_2 as u64,
        };
        new_state.encode(dst);
        Ok(())
    }

    /// Decodes the command in `input` and runs it: the single-buffer
    /// commands on `first`, the upgrade from `first` into `second`.
    pub fn process(input: &[u8], first: &mut Vec<u8>, second: &mut Vec<u8>, authorized: bool) -> (r:
        Result<(), UpgradeError>)
        ensures
            (r, final(first)@, final(second)@) == spec_process(
                input@,
                old(first)@,
                old(second)@,
                authorized,
            ),
    {
        let instruction = match UpgradeInstruction::unpack(input) {
            Ok(i) => i,
            Err(e) => return Err(e),
        };
        match instruction {
            UpgradeInstruction::InitV1(args) => Self::initialize_v1(first, &args, authorized),
            UpgradeInstruction::UseV1 => match Self::use_v1(first.as_slice()) {
                Ok(_) => Ok(()),
                Err(e) => Err(e),
            },
            UpgradeInstruction::InitV2(args) => Self::initialize_v2(first, &args, authorized),
            UpgradeInstruction::UseV2 => match Self::use_v2(first.as_slice()) {
                Ok(_) => Ok(()),
                Err(e) => Err(e),
            },
            UpgradeInstruction::UpgradeV1ToV2(delta) => Self::upgrade_v1_to_v2(
                first.as_slice(),
                second,
                &delta,
                authorized,
            ),
        }
    }
}

/// A buffer that was initialized reads back the record made from the
/// arguments it was initialized with.
pub proof fn lemma_initialized_reads_back(
    data: Seq<u8>,
    args_1: InitArgsV1,
    args_2: InitArgsV2,
    authorized: bool,
)
    ensures
        spec_initialize_v1(data, args_1, authorized).0 is Ok ==> StateV1::spec_decode(
            spec_initialize_v1(data, args_1, authorized).1,
        ) == Ok::<_, DecodeError>(args_1.spec_to_state()),
        spec_initialize_v2(data, args_2, authorized).0 is Ok ==> StateV2::spec_decode(
            spec_initialize_v2(data, args_2, authorized).1,
        ) == Ok::<_, DecodeError>(args_2.spec_to_state()),
{
    lemma_v1_round_trip(args_1.spec_to_state(), data.skip(StateV1::LEN as int));
    lemma_v2_round_trip(args_2.spec_to_state(), data.skip(StateV2::LEN as int));
}

/// Initializing a buffer a second time fails with `AlreadyInitialized`,
/// whatever the arguments and the authority, and leaves it as it was.
pub proof fn lemma_initialize_twice(
    data: Seq<u8>,
    first_v1: InitArgsV1,
    again_v1: InitArgsV1,
    first_v2: InitArgsV2,
    again_v2: InitArgsV2,
    authorized: bool,
    authorized_again: bool,
)
    ensures
        ({
            let (r, d) = spec_initialize_v1(data, first_v1, authorized);
            r is Ok ==> spec_initialize_v1(d, again_v1, authorized_again) == (
                Err::<(), _>(UpgradeError::AlreadyInitialized),
                d,
            )
        }),
        ({
            let (r, d) = spec_initialize_v2(data, first_v2, authorized);
            r is Ok ==> spec_initialize_v2(d, again_v2, authorized_again) == (
                Err::<(), _>(UpgradeError::AlreadyInitialized),
                d,
            )
        }),
{
}

/// A buffer initialized for one version fails the use check of the other.
/// The check of the second version on a first-version buffer fails with
/// `InvalidVersion` where the buffer could hold a second-version record,
/// with `TooSmall` otherwise.
pub proof fn lemma_use_other_version(
    data: Seq<u8>,
    args_1: InitArgsV1,
    args_2: InitArgsV2,
    authorized: bool,
)
    ensures
        ({
            let (r, d) = spec_initialize_v2(data, args_2, authorized);
            r is Ok ==> spec_use_v1(d) == Err::<StateV1, _>(UpgradeError::InvalidVersion)
        }),
        ({
            let (r, d) = spec_initialize_v1(data, args_1, authorized);
            r is Ok ==> spec_use_v2(d) == Err::<StateV2, _>(
                if d.len() >= StateV2::LEN {
                    UpgradeError::InvalidVersion
                } else {
                    UpgradeError::TooSmall
                },
            )
        }),
{
}

/// An upgrade into a buffer that is not tagged uninitialized fails and
/// leaves it as it was; once the source and the authority pass their
/// checks, and the destination is large enough, the error is
/// `InvalidVersion`.
pub proof fn lemma_upgrade_into_used_buffer(
    src: Seq<u8>,
    dst: Seq<u8>,
    delta: V1ToV2UpgradeData,
    authorized: bool,
)
    requires
        dst.len() > 0,
        dst[0] != StateVersion::Uninitialized.spec_tag(),
    ensures
        spec_upgrade_v1_to_v2(src, dst, delta, authorized).0 is Err,
        spec_upgrade_v1_to_v2(src, dst, delta, authorized).1 == dst,
        spec_use_v1(src) is Ok && authorized && dst.len() >= StateV2::LEN ==> spec_upgrade_v1_to_v2(
            src,
            dst,
            delta,
            authorized,
        ).0 == Err::<(), _>(UpgradeError::InvalidVersion),
{
}

/// After an upgrade the destination holds a second-version record whose
/// `num`, `key` and widened `num_2` are those of the source record, and
/// whose `array` and `key_2` are those supplied by the caller.
pub proof fn lemma_upgrade_preserves_fields(
    src: Seq<u8>,
    dst: Seq<u8>,
    delta: V1ToV2UpgradeData,
    authorized: bool,
)
    ensures
        ({
            let (r, d) = spec_upgrade_v1_to_v2(src, dst, delta, authorized);
            r is Ok ==> {
                let old = StateV1::spec_decode(src)->Ok_0;
                &&& StateV1::spec_decode(src) is Ok
                &&& old.state_version == StateVersion::V1
                &&& StateV2::spec_decode(d) == Ok::<_, DecodeError>(
                    StateV2 {
                        state_version: StateVersion::V2,
                        num: old.num,
                        array: delta.array,
                        key: old.key,
                        key_2: delta.key_2,
                        num_2: old.num_2 as u64,
                    },
                )
            }
        }),
{
    if upgrade_check(src, dst, authorized) is Ok {
        let new = upgraded(spec_use_v1(src)->Ok_0, delta);
        lemma_v2_round_trip(new, dst.skip(StateV2::LEN as int));
    }
}

/// A command that fails leaves both buffers as they were.
pub proof fn lemma_failure_writes_nothing(
    input: Seq<u8>,
    first: Seq<u8>,
    second: Seq<u8>,
    authorized: bool,
)
    ensures
        ({
            let (r, f, s) = spec_process(input, first, second, authorized);
            r is Err ==> f == first && s == second
        }),
{
}

} // verus!
