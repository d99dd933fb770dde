//! What is written is read back: numbers, one or many, and optional values.

use vstd::prelude::*;
use crate::error::{Error, Result};
use crate::model::ParcelView;
use crate::parcelable::{
    flagged_decodes, flagged_written, Deserialize, Serialize, NON_NULL_PARCELABLE_FLAG,
    NULL_PARCELABLE_FLAG,
};
use crate::scalar::{scalar_bytes, Scalar};
use crate::wire::{
    le_bytes, le_limit, lemma_le_bytes_len, lemma_le_limits, lemma_le_value_of_bytes, pad,
};

verus! {

/// The number that stands for a scalar fits the width of its type, and stands
/// for no other value of that type.
pub proof fn lemma_scalar_number(value: Scalar)
    ensures
        value.number() < le_limit(value.width()),
        value.with_number(value.number()) == value,
{
    lemma_le_limits();
    match value {
        Scalar::Bool(v) => {},
        Scalar::I8(v) => {
            assert((v as u8) as i8 == v) by (bit_vector);
        },
        Scalar::U8(v) => {},
        Scalar::I16(v) => {
            assert((v as u16) as i16 == v) by (bit_vector);
        },
        Scalar::U16(v) => {},
        Scalar::I32(v) => {
            assert((v as u32) as i32 == v) by (bit_vector);
        },
        Scalar::U32(v) => {},
        Scalar::I64(v) => {
            assert((v as u64) as i64 == v) by (bit_vector);
        },
        Scalar::U64(v) => {},
    }
}

/// A scalar that was written is read back as it was. Let `value` be written to
/// the parcel `start`, and anything after it. A read of the type of `value`
/// from the place where the write began returns `value` and moves the cursor
/// by the padded width of the type.
pub proof fn lemma_scalar_round_trip(value: Scalar, start: ParcelView, reader: ParcelView)
    requires
        value.written(start).data.is_prefix_of(reader.data),
        reader.cursor.pos == start.data.len(),
    ensures
        value.read(reader) == (Ok::<Scalar, Error>(value), reader.advanced(pad(value.width()))),
{
    let width = value.width();
    let number = value.number();
    let bytes = scalar_bytes(number, width);
    lemma_scalar_number(value);
    lemma_le_bytes_len(number, width);
    lemma_le_value_of_bytes(number, width);
    assert(value.written(start).data.len() == start.data.len() + pad(width));
    let written = value.written(start).data;
    assert(bytes.len() == pad(width));
    assert(written =~= reader.data.subrange(0, written.len() as int));
    assert forall|i: int| 0 <= i < pad(width) implies reader.at_cursor(pad(width))[i]
        == bytes[i] by {
        assert(reader.data.subrange(0, written.len() as int)[start.data.len() + i]
            == written[start.data.len() + i]);
    }
    assert(reader.at_cursor(pad(width)) =~= bytes);
    assert(bytes.take(width as int) =~= le_bytes(number, width));
}

/// The parcel after the values of `values` were written to it in order.
pub open spec fn write_all(parcel: ParcelView, values: Seq<Scalar>) -> ParcelView
    decreases values.len(),
{
    if values.len() == 0 {
        parcel
    } else {
        write_all(values[0].written(parcel), values.skip(1))
    }
}

/// What reading values of the types of `kinds` in order does to `parcel`: the
/// values read, or the first failure, and the parcel afterwards.
pub open spec fn read_all(parcel: ParcelView, kinds: Seq<Scalar>) -> (
    Result<Seq<Scalar>>,
    ParcelView,
)
    decreases kinds.len(),
{
    if kinds.len() == 0 {
        (Ok(Seq::empty()), parcel)
    } else {
        match kinds[0].read(parcel) {
            (Ok(value), next) => match read_all(next, kinds.skip(1)) {
                (Ok(values), last) => (Ok(seq![value] + values), last),
                (Err(error), last) => (Err(error), last),
            },
            (Err(error), next) => (Err(error), next),
        }
    }
}

/// The number of bytes that the values of `values` take in a parcel: the sum
/// of the padded widths of their types.
pub open spec fn padded_width(values: Seq<Scalar>) -> nat
    decreases values.len(),
{
    if values.len() == 0 {
        0
    } else {
        pad(values[0].width()) + padded_width(values.skip(1))
    }
}

/// Writing scalars appends to the data and changes nothing else.
pub proof fn lemma_write_all_appends(parcel: ParcelView, values: Seq<Scalar>)
    ensures
        parcel.data.is_prefix_of(write_all(parcel, values).data),
        write_all(parcel, values).data.len() == parcel.data.len() + padded_width(values),
        write_all(parcel, values).objects == parcel.objects,
        write_all(parcel, values).cursor == parcel.cursor,
    decreases values.len(),
{
    if values.len() > 0 {
        let next = values[0].written(parcel);
        lemma_le_bytes_len(values[0].number(), values[0].width());
        lemma_write_all_appends(next, values.skip(1));
    }
}

/// Scalars that were written one after another are read back in the same
/// order as they were. Let `values` be written to the parcel `start`, and
/// anything after them. Reads of the same types in the same order, from the
/// place where the writes began, return `values`, and move the cursor by the
/// padded width of each type.
pub proof fn lemma_scalars_round_trip(values: Seq<Scalar>, start: ParcelView, reader: ParcelView)
    requires
        write_all(start, values).data.is_prefix_of(reader.data),
        reader.cursor.pos == start.data.len(),
    ensures
        read_all(reader, values) == (
            Ok::<Seq<Scalar>, Error>(values),
            reader.advanced(padded_width(values)),
        ),
    decreases values.len(),
{
    if values.len() == 0 {
        assert(reader.advanced(0) == reader);
        assert(values =~= Seq::<Scalar>::empty());
    } else {
        let first = values[0];
        let rest = values.skip(1);
        let next = first.written(start);
        lemma_write_all_appends(next, rest);
        lemma_le_bytes_len(first.number(), first.width());
        lemma_scalar_round_trip(first, start, reader);
        let moved = reader.advanced(pad(first.width()));
        lemma_scalars_round_trip(rest, next, moved);
        assert(moved.advanced(padded_width(rest)) == reader.advanced(padded_width(values)));
        assert(seq![first] + rest =~= values);
    }
}

/// An absent optional value that was written behind a flag is read back as
/// absent. Let it be written to the parcel `start`, and anything after it. A
/// read of an optional value from the place where the write began returns the
/// absent value and moves the cursor by the four bytes of the flag.
pub proof fn lemma_absent_round_trip<T: Serialize + Deserialize>(
    start: ParcelView,
    reader: ParcelView,
    result: Result<Option<T>>,
    after: ParcelView,
)
    requires
        flagged_written::<T>(None, start).data.is_prefix_of(reader.data),
        reader.cursor.pos == start.data.len(),
        flagged_decodes::<T>(reader, result, after),
    ensures
        result == Ok::<Option<T>, Error>(None),
        after == reader.advanced(4),
{
    lemma_scalar_round_trip(Scalar::I32(NULL_PARCELABLE_FLAG), start, reader);
}

/// A present optional value that was written behind a flag is read back as it
/// was, if the value itself is. Let the flag of a present value be written to
/// the parcel `start`, and let every read of a `T` behind the flag return
/// `value` and leave the parcel `expected`. A read of an optional value from
/// the place where the write began returns `value` as present and leaves the
/// parcel `expected`.
pub proof fn lemma_present_round_trip<T: Serialize + Deserialize>(
    value: T,
    start: ParcelView,
    reader: ParcelView,
    expected: ParcelView,
    result: Result<Option<T>>,
    after: ParcelView,
)
    requires
        Scalar::I32(NON_NULL_PARCELABLE_FLAG).written(start).data.is_prefix_of(reader.data),
        reader.cursor.pos == start.data.len(),
        forall|inner: Result<T>, last: ParcelView| #[trigger]
            T::decodes(reader.advanced(4), inner, last) ==> inner == Ok::<T, Error>(value) && last
                == expected,
        flagged_decodes::<T>(reader, result, after),
    ensures
        result == Ok::<Option<T>, Error>(Some(value)),
        after == expected,
{
    lemma_scalar_round_trip(Scalar::I32(NON_NULL_PARCELABLE_FLAG), start, reader);
}

/// An optional 32-bit number that was written is read back as it was, absent
/// or present. Let `value` be written to the parcel `start`, and anything
/// after it. A read of an optional number from the place where the write began
/// returns `value`; it moves the cursor by four bytes where `value` is absent
/// and by eight where it is present.
pub proof fn lemma_optional_number_round_trip(
    value: Option<u32>,
    start: ParcelView,
    reader: ParcelView,
    result: Result<Option<u32>>,
    after: ParcelView,
)
    requires
        value.written(start).data.is_prefix_of(reader.data),
        reader.cursor.pos == start.data.len(),
        Option::<u32>::decodes(reader, result, after),
    ensures
        result == Ok::<Option<u32>, Error>(value),
        after == reader.advanced(
            if value is Some {
                8
            } else {
                4
            },
        ),
{
    match value {
        None => {
            lemma_absent_round_trip::<u32>(start, reader, result, after);
        },
        Some(number) => {
            let flag = Scalar::I32(NON_NULL_PARCELABLE_FLAG);
            let flagged = flag.written(start);
            let moved = reader.advanced(4);
            lemma_le_bytes_len(flag.number(), 4);
            lemma_le_bytes_len(Scalar::U32(number).number(), 4);
            assert(flagged.data.is_prefix_of(reader.data)) by {
                let whole = value.written(start).data;
                assert(whole =~= reader.data.subrange(0, whole.len() as int));
                assert(flagged.data =~= reader.data.subrange(0, flagged.data.len() as int));
            }
            lemma_scalar_round_trip(Scalar::U32(number), flagged, moved);
            assert(moved.advanced(4) == reader.advanced(8));
            lemma_present_round_trip::<u32>(
                number,
                start,
                reader,
                reader.advanced(8),
                result,
                after,
            );
        },
    }
}

} // verus!
