//! What a proxy puts before the arguments of a call, what the receiver checks
//! of it, and what a proxy reads from the reply.

use vstd::prelude::*;
use crate::error::{Error, ErrorKind, Result};
use crate::model::ParcelView;
use crate::parcel::{Parcel, ReadableParcel, WritableParcel};
use crate::parcelable::{Deserialize, Serialize};
use crate::scalar::Scalar;
use crate::string16::String16;

verus! {

/// The bit that a proxy sets in the policy word of every call: violations of
/// the policy are to be gathered and handed back with the reply.
pub const STRICT_MODE_PENALTY_GATHER: i32 = -0x8000_0000;

/// The work-source word of a call that names no work source.
pub const UNSET_WORK_SOURCE: i32 = -1;

/// The word that tells which generation of the protocol a call belongs to.
pub const INTERFACE_HEADER: i32 = 0x5359_5354;

/// The flag of a transaction that has no reply.
pub const FLAG_ONEWAY: u32 = 0x01;

/// What the header of a call says of the caller.
#[derive(Clone, Copy, Debug, PartialEq, Eq, Structural)]
pub struct CallerContext {
    /// The policy word as it stood in the header.
    pub strict_policy: i32,
    /// The work-source word as it stood in the header.
    pub work_source: i32,
}

/// The work-source word for an optional work source.
pub open spec fn work_source_word(work_source: Option<i32>) -> i32 {
    match work_source {
        Some(uid) => uid,
        None => UNSET_WORK_SOURCE,
    }
}

/// The parcel after the header of a call to the interface `descriptor` was
/// written to `parcel`: the policy word with the gather bit set, the
/// work-source word, whose position is recorded if none was before, the
/// protocol word, and the descriptor.
pub open spec fn interface_token_written(
    parcel: ParcelView,
    policy: i32,
    work_source: Option<i32>,
    descriptor: String16,
) -> ParcelView {
    let with_policy = Scalar::I32(policy | STRICT_MODE_PENALTY_GATHER).written(parcel);
    let marked = with_policy.with_cursor(with_policy.cursor.header_seen(with_policy.data.len()));
    let with_source = Scalar::I32(work_source_word(work_source)).written(marked);
    let with_header = Scalar::I32(INTERFACE_HEADER).written(with_source);
    descriptor.written(with_header)
}

/// Writes the header of a call to the interface `descriptor`.
pub fn write_interface_token(
    parcel: &mut WritableParcel<'_>,
    policy: i32,
    work_source: Option<i32>,
    descriptor: &String16,
) -> (r: Result<()>)
    ensures
        *final(final(parcel).inner) == *final(old(parcel).inner),
        old(parcel)@.well_formed() ==> final(parcel)@.well_formed(),
        old(parcel)@.data.is_prefix_of(final(parcel)@.data),
        old(parcel)@.objects.is_prefix_of(final(parcel)@.objects),
        r is Ok <==> descriptor.encodable(),
        r is Ok ==> final(parcel)@ == interface_token_written(
            old(parcel)@,
            policy,
            work_source,
            *descriptor,
        ),
{
    let policy_word: i32 = policy | STRICT_MODE_PENALTY_GATHER;
    parcel.write::<i32>(&policy_word)?;
    parcel.update_work_source_request_header_pos();
    let source_word: i32 = match work_source {
        Some(uid) => uid,
        None => UNSET_WORK_SOURCE,
    };
    parcel.write::<i32>(&source_word)?;
    parcel.write::<i32>(&INTERFACE_HEADER)?;
    parcel.write::<String16>(descriptor)
}

/// Whether two runs of code units are the same.
pub fn same_units(left: &[u16], right: &[u16]) -> (same: bool)
    ensures
        same <==> left@ == right@,
{
    if left.len() != right.len() {
        return false;
    }
    let mut index: usize = 0;
    while index < left.len()
        invariant
            index <= left@.len() == right@.len(),
            left@.take(index as int) == right@.take(index as int),
        decreases left@.len() - index,
    {
        if left[index] != right[index] {
            return false;
        }
        proof {
            assert(left@.take(index + 1) =~= left@.take(index as int).push(left@[index as int]));
            assert(right@.take(index + 1) =~= right@.take(index as int).push(
                right@[index as int],
            ));
        }
        index = index + 1;
    }
    proof {
        assert(left@.take(left@.len() as int) =~= left@);
        assert(right@.take(right@.len() as int) =~= right@);
    }
    true
}

/// Whether checking the header of a call to the interface `descriptor` in the
/// parcel `before` returns `result` and leaves the parcel `after`. The policy
/// word, the work-source word, whose position is recorded if none was before,
/// the protocol word and the descriptor are read in turn. A read that fails is
/// the failure of the check; a protocol word or a descriptor other than the
/// expected one is the failure *bad type*.
pub open spec fn interface_enforced(
    before: ParcelView,
    descriptor: Seq<u16>,
    result: Result<CallerContext>,
    after: ParcelView,
) -> bool {
    match Scalar::I32(0).read(before) {
        (Err(error), next) => result == Err::<CallerContext, Error>(error) && after == next,
        (Ok(policy), next) => {
            let marked = next.with_cursor(next.cursor.header_seen(next.data.len()));
            match Scalar::I32(0).read(marked) {
                (Err(error), next) => result == Err::<CallerContext, Error>(error) && after
                    == next,
                (Ok(source), next) => match Scalar::I32(0).read(next) {
                    (Err(error), next) => result == Err::<CallerContext, Error>(error) && after
                        == next,
                    (Ok(header), next) => if header != Scalar::I32(INTERFACE_HEADER) {
                        result == Err::<CallerContext, Error>(Error { kind: ErrorKind::BadType })
                            && after == next
                    } else {
                        descriptor_enforced(next, descriptor, policy, source, result, after)
                    },
                },
            }
        },
    }
}

/// The last step of the check of a header: the descriptor is read and held
/// against the expected one.
pub open spec fn descriptor_enforced(
    before: ParcelView,
    descriptor: Seq<u16>,
    policy: Scalar,
    source: Scalar,
    result: Result<CallerContext>,
    after: ParcelView,
) -> bool {
    match result {
        Ok(context) => {
            &&& exists|found: String16| #[trigger]
                String16::decodes(before, Ok(found), after) && found@ == descriptor
            &&& policy == Scalar::I32(context.strict_policy)
            &&& source == Scalar::I32(context.work_source)
        },
        Err(error) => {
            ||| String16::decodes(before, Err(error), after)
            ||| error.kind == ErrorKind::BadType && exists|found: String16| #[trigger]
                String16::decodes(before, Ok(found), after) && found@ != descriptor
        },
    }
}

/// Checks that `reader` stands at the header of a call to the interface
/// `descriptor`, and returns what the header says of the caller.
pub fn enforce_interface(reader: &mut ReadableParcel<'_>, descriptor: &String16) -> (r: Result<
    CallerContext,
>)
    ensures
        *final(final(reader).cursor) == *final(old(reader).cursor),
        old(reader)@.same_contents(final(reader)@),
        interface_enforced(old(reader)@, descriptor@, r, final(reader)@),
{
    let strict_policy: i32 = reader.read::<i32>()?;
    reader.update_work_source_request_header_pos();
    let work_source: i32 = reader.read::<i32>()?;
    let header: i32 = reader.read::<i32>()?;
    if header != INTERFACE_HEADER {
        return Err(Error::from(ErrorKind::BadType));
    }
    let found = reader.read::<String16>()?;
    if same_units(found.units(), descriptor.units()) {
        Ok(CallerContext { strict_policy, work_source })
    } else {
        Err(Error::from(ErrorKind::BadType))
    }
}

/// A parcel that holds the header of a call to the interface `descriptor` and
/// waits for the arguments.
pub fn begin_transaction(policy: i32, work_source: Option<i32>, descriptor: &String16) -> (r:
    Result<Parcel>)
    ensures
        r is Ok <==> descriptor.encodable(),
        r matches Ok(parcel) ==> parcel@ == interface_token_written(
            Parcel::empty(),
            policy,
            work_source,
            *descriptor,
        ) && parcel@.well_formed(),
{
    let mut parcel = Parcel::new();
    let mut writer = parcel.as_writable();
    match write_interface_token(&mut writer, policy, work_source, descriptor) {
        Ok(()) => Ok(parcel),
        Err(error) => Err(error),
    }
}

/// The flags of a transaction: the one-way flag for a call that has no reply.
pub fn transaction_flags(one_way: bool) -> (flags: u32)
    ensures
        flags == if one_way {
            FLAG_ONEWAY
        } else {
            0
        },
{
    if one_way {
        FLAG_ONEWAY
    } else {
        0
    }
}

/// Whether reading what a call returns from the reply `before` gives `result`
/// and leaves the reply `after`. A one-way call has no reply: nothing is read
/// and nothing is returned. The reply of a two-way call holds a value of the
/// type that the method returns.
pub open spec fn reply_read<R: Deserialize>(
    one_way: bool,
    before: ParcelView,
    result: Result<Option<R>>,
    after: ParcelView,
) -> bool {
    if one_way {
        result == Ok::<Option<R>, Error>(None) && after == before
    } else {
        match result {
            Ok(Some(value)) => R::decodes(before, Ok(value), after),
            Ok(None) => false,
            Err(error) => R::decodes(before, Err(error), after),
        }
    }
}

/// Reads what a call returns from its reply.
pub fn read_reply<R: Deserialize>(one_way: bool, reply: &mut Parcel) -> (r: Result<Option<R>>)
    ensures
        reply_read(one_way, old(reply)@, r, final(reply)@),
{
    if one_way {
        Ok(None)
    } else {
        let mut reader = reply.as_readable();
        let value = reader.read::<R>()?;
        Ok(Some(value))
    }
}

} // verus!
