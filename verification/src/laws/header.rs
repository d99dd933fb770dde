//! What holds of the header of a call: the receiver accepts what the proxy
//! wrote.

use vstd::prelude::*;
use crate::error::{Error, Result};
use crate::laws::scalars::lemma_scalar_round_trip;
use crate::laws::text::{lemma_prefix_of_prefix, lemma_text_round_trip};
use crate::model::ParcelView;
use crate::parcelable::{Deserialize, Serialize};
use crate::proxy::{
    interface_enforced, interface_token_written, work_source_word, CallerContext, INTERFACE_HEADER,
    STRICT_MODE_PENALTY_GATHER,
};
use crate::scalar::{scalar_bytes, Scalar};
use crate::string16::{padded_units, String16};
use crate::wire::{lemma_le_bytes_len, pad};

verus! {

/// The header of a call that was written passes the check of the receiver.
/// Let the header of a call to the interface `descriptor` be written to the
/// parcel `start`, and anything after it. A check for the same interface from
/// the place where the write began succeeds, and returns the policy word with
/// the gather bit set and the work-source word as they were written.
pub proof fn lemma_interface_token_round_trip(
    policy: i32,
    work_source: Option<i32>,
    descriptor: String16,
    start: ParcelView,
    reader: ParcelView,
    result: Result<CallerContext>,
    after: ParcelView,
)
    requires
        descriptor.encodable(),
        interface_token_written(start, policy, work_source, descriptor).data.is_prefix_of(
            reader.data,
        ),
        reader.cursor.pos == start.data.len(),
        interface_enforced(reader, descriptor@, result, after),
    ensures
        result == Ok::<CallerContext, Error>(
            CallerContext {
                strict_policy: policy | STRICT_MODE_PENALTY_GATHER,
                work_source: work_source_word(work_source),
            },
        ),
        after.cursor.pos == reader.cursor.pos + 16 + pad(2 * descriptor@.len()),
{
    let first = Scalar::I32(policy | STRICT_MODE_PENALTY_GATHER);
    let second = Scalar::I32(work_source_word(work_source));
    let third = Scalar::I32(INTERFACE_HEADER);
    let with_policy = first.written(start);
    let marked = with_policy.with_cursor(with_policy.cursor.header_seen(with_policy.data.len()));
    let with_source = second.written(marked);
    let with_header = third.written(with_source);
    let whole = descriptor.written(with_header);
    let count = Scalar::I32(descriptor@.len() as i32);
    lemma_le_bytes_len(first.number(), 4);
    lemma_le_bytes_len(second.number(), 4);
    lemma_le_bytes_len(third.number(), 4);
    lemma_le_bytes_len(count.number(), 4);
    lemma_prefix_of_prefix(
        count.written(with_header).data,
        padded_units(descriptor@),
        reader.data,
    );
    lemma_prefix_of_prefix(
        with_header.data,
        scalar_bytes(count.number(), 4),
        reader.data,
    );
    lemma_prefix_of_prefix(with_source.data, scalar_bytes(third.number(), 4), reader.data);
    lemma_prefix_of_prefix(marked.data, scalar_bytes(second.number(), 4), reader.data);
    lemma_scalar_round_trip(first, start, reader);
    let after_policy = reader.advanced(4);
    let seen = after_policy.with_cursor(after_policy.cursor.header_seen(after_policy.data.len()));
    lemma_scalar_round_trip(second, marked, seen);
    let after_source = seen.advanced(4);
    lemma_scalar_round_trip(third, with_source, after_source);
    let after_header = after_source.advanced(4);
    assert(after_header.cursor.pos == with_header.data.len());
    match result {
        Ok(context) => {
            let found = choose|found: String16| #[trigger]
                String16::decodes(after_header, Ok(found), after) && found@ == descriptor@;
            lemma_text_round_trip(descriptor, with_header, after_header, Ok(found), after);
        },
        Err(error) => {
            if String16::decodes(after_header, Err(error), after) {
                lemma_text_round_trip(descriptor, with_header, after_header, Err(error), after);
            } else {
                let found = choose|found: String16| #[trigger]
                    String16::decodes(after_header, Ok(found), after) && found@ != descriptor@;
                lemma_text_round_trip(descriptor, with_header, after_header, Ok(found), after);
            }
        },
    }
}

} // verus!
