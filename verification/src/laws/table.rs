//! What holds of the object table: where a lookup finds an offset, what a
//! read of a record does, and what writes of records leave behind.

use vstd::prelude::*;
use crate::error::{fails_with, Error, ErrorKind, Result};
use crate::laws::text::lemma_prefix_of_prefix;
use crate::model::{lookup, scan_backward, scan_forward, ParcelView};
use crate::parcelable::Serialize;
use crate::record::{
    lemma_record_bytes_len, lemma_record_round_trip, FlatBinderObject, FLAT_OBJECT_SIZE,
};
use crate::reference::{lemma_reference_round_trip, reference_decodes, Reference};

verus! {

/// Where a forward scan stops: at or after its start, with only offsets below
/// the target passed, and at the last index or at an offset not below the target.
pub proof fn lemma_scan_forward(objects: Seq<u64>, from: int, target: int)
    requires
        0 <= from < objects.len(),
    ensures
        from <= scan_forward(objects, from, target) < objects.len(),
        forall|k: int| from <= k < scan_forward(objects, from, target) ==> objects[k] < target,
        scan_forward(objects, from, target) == objects.len() - 1 || objects[scan_forward(
            objects,
            from,
            target,
        )] >= target,
    decreases objects.len() - from,
{
    if from < objects.len() - 1 && objects[from] < target {
        lemma_scan_forward(objects, from + 1, target);
    }
}

/// Where a backward scan stops: at or before its start, with only offsets above
/// the target passed, and at the first index or at an offset not above the target.
pub proof fn lemma_scan_backward(objects: Seq<u64>, from: int, target: int)
    requires
        0 <= from < objects.len(),
    ensures
        0 <= scan_backward(objects, from, target) <= from,
        forall|k: int| scan_backward(objects, from, target) < k <= from ==> objects[k] > target,
        scan_backward(objects, from, target) == 0 || objects[scan_backward(objects, from, target)]
            <= target,
    decreases from,
{
    if 0 < from && objects[from] > target {
        lemma_scan_backward(objects, from - 1, target);
    }
}

/// In a strictly increasing object table, a lookup finds an offset exactly if
/// the offset is in the table, and finds it at its index, wherever the lookup
/// hint points.
pub proof fn lemma_lookup_finds_registered(parcel: ParcelView, hint: int, target: int)
    requires
        parcel.table_sorted(),
    ensures
        lookup(parcel.objects, hint, target) == if parcel.is_registered(target) {
            Some(parcel.index_of(target))
        } else {
            None
        },
{
    let objects = parcel.objects;
    if objects.len() > 0 {
        let first = if 0 <= hint < objects.len() {
            lemma_scan_forward(objects, hint, target);
            scan_forward(objects, hint, target)
        } else {
            objects.len() - 1
        };
        lemma_scan_backward(objects, first, target);
        let second = scan_backward(objects, first, target);
        if parcel.is_registered(target) {
            let k = parcel.index_of(target);
            assert(objects[k] == target);
            if objects[first] != target {
                assert(objects[second] == target) by {
                    if k > first {
                        assert(objects[first] < objects[k]);
                    } else if k < second {
                        assert(objects[k] < objects[second]);
                    }
                }
                assert(second == k) by {
                    if second < k {
                        assert(objects[second] < objects[k]);
                    } else if k < second {
                        assert(objects[k] < objects[second]);
                    }
                }
            } else {
                assert(first == k) by {
                    if first < k {
                        assert(objects[first] < objects[k]);
                    } else if k < first {
                        assert(objects[k] < objects[first]);
                    }
                }
            }
        } else {
            assert(objects[first] != target);
            assert(objects[second] != target);
        }
    }
}

/// What a read of a reference record does at a registered offset where 24
/// bytes remain, in a parcel with a strictly increasing object table.
proof fn lemma_read_object_found(parcel: ParcelView, null_meta: bool)
    requires
        parcel.table_sorted(),
        parcel.has(FLAT_OBJECT_SIZE as nat),
        parcel.is_registered(parcel.cursor.pos as int),
    ensures
        ({
            let (r, after) = parcel.read_object(null_meta);
            let record = parcel.record_at(parcel.cursor.pos as int);
            &&& r == Ok::<FlatBinderObject, Error>(record)
            &&& after.cursor.pos == parcel.cursor.pos + FLAT_OBJECT_SIZE
            &&& after.same_contents(parcel)
            &&& null_meta || !record.is_null() ==> after.cursor.next_object_hint
                == parcel.index_of(parcel.cursor.pos as int) + 1
        }),
{
    lemma_lookup_finds_registered(
        parcel,
        parcel.cursor.next_object_hint as int,
        parcel.cursor.pos as int,
    );
}

/// Reading a reference record succeeds at every registered offset, wherever
/// the lookup hint points. Let the cursor of a well-formed parcel stand at an
/// offset of the object table. A read returns the record there and moves the
/// cursor behind it; unless the record was accepted without a lookup, the
/// lookup hint becomes the index after that of the offset.
pub proof fn lemma_read_object_at_registered(parcel: ParcelView, null_meta: bool)
    requires
        parcel.well_formed(),
        parcel.is_registered(parcel.cursor.pos as int),
    ensures
        ({
            let (r, after) = parcel.read_object(null_meta);
            let record = parcel.record_at(parcel.cursor.pos as int);
            &&& r == Ok::<FlatBinderObject, Error>(record)
            &&& after.cursor.pos == parcel.cursor.pos + FLAT_OBJECT_SIZE
            &&& after.same_contents(parcel)
            &&& null_meta || !record.is_null() ==> after.cursor.next_object_hint
                == parcel.index_of(parcel.cursor.pos as int) + 1
        }),
{
    let index = parcel.index_of(parcel.cursor.pos as int);
    assert(parcel.objects[index] + FLAT_OBJECT_SIZE <= parcel.data.len());
    lemma_read_object_found(parcel, null_meta);
}

/// Reading a reference record fails with *bad type* at every offset that is
/// not registered. Let the cursor of a parcel with a strictly increasing
/// object table stand at an offset that is not in the table, with 24 bytes
/// remaining. A read fails with *bad type*, wherever the lookup hint points,
/// unless the record there has neither payload nor cookie and `null_meta` is
/// not set: such a record is accepted without a lookup.
pub proof fn lemma_read_object_elsewhere(parcel: ParcelView, null_meta: bool)
    requires
        parcel.table_sorted(),
        parcel.has(FLAT_OBJECT_SIZE as nat),
        !parcel.is_registered(parcel.cursor.pos as int),
        null_meta || !parcel.record_at(parcel.cursor.pos as int).is_null(),
    ensures
        fails_with(parcel.read_object(null_meta).0, ErrorKind::BadType),
        parcel.read_object(null_meta).1 == parcel.advanced(FLAT_OBJECT_SIZE as nat),
{
    lemma_lookup_finds_registered(
        parcel,
        parcel.cursor.next_object_hint as int,
        parcel.cursor.pos as int,
    );
}

/// Reads keep the cursor within the data and the lookup hint within the object
/// table: if the cursor of `parcel` is not beyond the end of the data, it is
/// not after a read of bytes or of a reference record, and if the lookup hint
/// is not beyond the end of the table, it is not after a read of a record.
pub proof fn lemma_reads_keep_bounds(parcel: ParcelView, len: nat, null_meta: bool)
    ensures
        parcel.remaining() >= 0 ==> parcel.read_data(len).1.remaining() >= 0,
        parcel.remaining() >= 0 ==> parcel.read_object(null_meta).1.remaining() >= 0,
        parcel.cursor.next_object_hint <= parcel.objects.len() ==> parcel.read_object(
            null_meta,
        ).1.cursor.next_object_hint <= parcel.objects.len(),
{
    let objects = parcel.objects;
    let hint = parcel.cursor.next_object_hint as int;
    let target = parcel.cursor.pos as int;
    if objects.len() > 0 {
        let first = if 0 <= hint < objects.len() {
            lemma_scan_forward(objects, hint, target);
            scan_forward(objects, hint, target)
        } else {
            objects.len() - 1
        };
        lemma_scan_backward(objects, first, target);
    }
}

/// The parcel after the records of `records` were written to it one after
/// another, each with its own `null_meta`.
pub open spec fn write_objects(parcel: ParcelView, records: Seq<(FlatBinderObject, bool)>)
    -> ParcelView
    decreases records.len(),
{
    if records.len() == 0 {
        parcel
    } else {
        write_objects(parcel, records.drop_last()).write_object(
            records.last().0,
            records.last().1,
        )
    }
}

/// Whether writing `record` with `null_meta` adds its offset to the object table.
pub open spec fn is_registering(record: FlatBinderObject, null_meta: bool) -> bool {
    null_meta || record.payload != 0
}

/// Writing records, each of which is to be registered, to a well-formed parcel leaves a
/// well-formed parcel: every record adds 24 bytes and one offset to the object
/// table, the offset at which its bytes start. The table therefore grows by as
/// many offsets as records were written, and stays strictly increasing.
pub proof fn lemma_written_records_are_registered(
    parcel: ParcelView,
    records: Seq<(FlatBinderObject, bool)>,
)
    requires
        parcel.well_formed(),
        parcel.data.len() + FLAT_OBJECT_SIZE * records.len() <= u64::MAX,
        forall|i: int|
            0 <= i < records.len() ==> is_registering(#[trigger] records[i].0, records[i].1),
    ensures
        ({
            let after = write_objects(parcel, records);
            &&& after.well_formed()
            &&& after.cursor == parcel.cursor
            &&& after.data.len() == parcel.data.len() + FLAT_OBJECT_SIZE * records.len()
            &&& parcel.data.is_prefix_of(after.data)
            &&& after.objects.len() == parcel.objects.len() + records.len()
            &&& parcel.objects.is_prefix_of(after.objects)
            &&& forall|i: int|
                0 <= i < records.len() ==> {
                    &&& #[trigger] after.objects[parcel.objects.len() + i] == parcel.data.len()
                        + FLAT_OBJECT_SIZE * i
                    &&& after.record_at(parcel.data.len() + FLAT_OBJECT_SIZE * i) == records[i].0
                }
        }),
    decreases records.len(),
{
    if records.len() > 0 {
        let shorter = records.drop_last();
        let (record, null_meta) = records.last();
        lemma_written_records_are_registered(parcel, shorter);
        let before = write_objects(parcel, shorter);
        let after = write_objects(parcel, records);
        let start = before.data.len();
        assert(is_registering(records[records.len() - 1].0, records[records.len() - 1].1));
        assert(after == before.appended(record.bytes()).registered(start as u64));
        lemma_record_bytes_len(record);
        lemma_record_round_trip(record);
        assert(after.data.subrange(start as int, start + FLAT_OBJECT_SIZE) =~= record.bytes());
        assert forall|i: int| 0 <= i < records.len() implies {
            &&& #[trigger] after.objects[parcel.objects.len() + i] == parcel.data.len()
                + FLAT_OBJECT_SIZE * i
            &&& after.record_at(parcel.data.len() + FLAT_OBJECT_SIZE * i) == records[i].0
        } by {
            if i < shorter.len() {
                let at = parcel.data.len() + FLAT_OBJECT_SIZE * i;
                assert(before.objects[parcel.objects.len() + i] == at);
                assert(shorter[i] == records[i]);
                assert(after.data.subrange(at, at + FLAT_OBJECT_SIZE) =~= before.data.subrange(
                    at,
                    at + FLAT_OBJECT_SIZE,
                ));
            }
        }
        assert(after.table_sorted()) by {
            assert forall|i: int, j: int| 0 <= i < j < after.objects.len() implies after.objects[i]
                < after.objects[j] by {
                if j == before.objects.len() {
                    assert(before.objects[i] + FLAT_OBJECT_SIZE <= before.data.len());
                }
            }
        }
        assert(after.table_in_bounds()) by {
            assert forall|i: int| 0 <= i < after.objects.len() implies #[trigger] after.objects[i]
                + FLAT_OBJECT_SIZE <= after.data.len() by {
                if i < before.objects.len() {
                    assert(before.objects[i] + FLAT_OBJECT_SIZE <= before.data.len());
                }
            }
        }
    }
}

/// A reference that was written is read back as it was. Let `reference` be
/// written to a well-formed parcel `start`, and anything after it, so that the
/// object table stays strictly increasing. A read of a reference from the
/// place where the write began returns `reference`, wherever the lookup hint
/// points, and moves the cursor by the 24 bytes of the record. This does not
/// hold of a reference to a local object without payload. Without a cookie
/// too, it is written as the record of no reference. With a cookie, its record
/// is not registered when it is written, and is looked up when it is read.
pub proof fn lemma_reference_is_read_back(
    reference: Reference,
    start: ParcelView,
    reader: ParcelView,
    result: Result<Option<Reference>>,
    after: ParcelView,
)
    requires
        start.data.len() <= u64::MAX,
        !(reference is Local && reference.record().payload == 0),
        reference.written(start).data.is_prefix_of(reader.data),
        reference.written(start).objects.is_prefix_of(reader.objects),
        reader.table_sorted(),
        reader.cursor.pos == start.data.len(),
        reference_decodes(reader, result, after),
    ensures
        result == Ok::<Option<Reference>, Error>(Some(reference)),
        after.cursor.pos == reader.cursor.pos + FLAT_OBJECT_SIZE,
        after.same_contents(reader),
{
    let record = reference.record();
    let written = reference.written(start);
    lemma_record_bytes_len(record);
    lemma_record_round_trip(record);
    lemma_prefix_of_prefix(start.data, record.bytes(), reader.data);
    assert(written.data.len() == start.data.len() + FLAT_OBJECT_SIZE);
    assert(reader.at_cursor(FLAT_OBJECT_SIZE as nat) =~= record.bytes());
    lemma_reference_round_trip(reference);
    if reference.null_meta() || record.payload != 0 {
        let index = start.objects.len() as int;
        assert(written.objects == start.objects.push(start.data.len() as u64));
        assert(written.objects =~= reader.objects.subrange(0, written.objects.len() as int));
        assert(reader.objects[index] == start.data.len()) by {
            assert(written.objects[index] == reader.objects.subrange(
                0,
                written.objects.len() as int,
            )[index]);
        }
        assert(reader.is_registered(reader.cursor.pos as int));
        lemma_read_object_found(reader, false);
    }
}

} // verus!
