//! Numbers and truth values in a parcel: each takes the bytes of its type,
//! least significant first, padded with zeros to a multiple of four.

use vstd::prelude::*;
use crate::error::{Error, Result};
use crate::model::ParcelView;
use crate::parcel::{ReadableParcel, WritableParcel};
use crate::parcelable::{
    deserialize_flagged, flagged_decodes, flagged_written, serialize_flagged, Deserialize,
    DeserializeOption, Serialize, SerializeOption,
};
use crate::wire::{
    get_le, le_bytes, le_limit, le_value, lemma_le_bytes_len, lemma_le_limits, lemma_le_value_bound,
    pad, pad_size, put_le,
};

verus! {

/// `count` zero bytes.
pub open spec fn zeros(count: nat) -> Seq<u8> {
    Seq::new(count, |i: int| 0u8)
}

/// A number of `width` bytes as a parcel holds it: least significant byte
/// first, then zeros up to the padded width.
pub open spec fn scalar_bytes(number: nat, width: nat) -> Seq<u8> {
    le_bytes(number, width) + zeros((pad(width) - width) as nat)
}

/// What reading a number of `width` bytes does: the number that the first
/// `width` of the padded bytes at the cursor hold, with the cursor moved past
/// the padded bytes; or *not enough data*, with nothing changed.
pub open spec fn scalar_read(parcel: ParcelView, width: nat) -> (Result<nat>, ParcelView) {
    let (bytes, after) = parcel.read_data(width);
    match bytes {
        Ok(bytes) => (Ok(le_value(bytes.take(width as int))), after),
        Err(error) => (Err(error), after),
    }
}

/// Appends the first `width` bytes of `number`, padded with zeros.
pub(crate) fn write_scalar(parcel: &mut WritableParcel<'_>, number: u64, width: usize)
    requires
        width <= 8,
    ensures
        *final(final(parcel).inner) == *final(old(parcel).inner),
        final(parcel)@ == old(parcel)@.appended(scalar_bytes(number as nat, width as nat)),
        old(parcel)@.well_formed() ==> final(parcel)@.well_formed(),
{
    let padded: usize = pad_size(width);
    let mut bytes: Vec<u8> = Vec::with_capacity(padded);
    put_le(&mut bytes, number, width);
    proof {
        lemma_le_bytes_len(number as nat, width as nat);
    }
    while bytes.len() < padded
        invariant
            width <= bytes@.len() <= padded,
            padded == pad(width as nat),
            bytes@ == le_bytes(number as nat, width as nat) + zeros((bytes@.len() - width) as nat),
        decreases padded - bytes@.len(),
    {
        bytes.push(0);
    }
    parcel.write_data(bytes.as_slice());
}

/// Reads a number of `width` bytes.
pub(crate) fn read_scalar(parcel: &mut ReadableParcel<'_>, width: usize) -> (r: Result<u64>)
    requires
        width <= 8,
    ensures
        *final(final(parcel).cursor) == *final(old(parcel).cursor),
        old(parcel)@.same_contents(final(parcel)@),
        final(parcel)@ == scalar_read(old(parcel)@, width as nat).1,
        match r {
            Ok(number) => scalar_read(old(parcel)@, width as nat).0 == Ok::<nat, Error>(
                number as nat,
            ),
            Err(error) => scalar_read(old(parcel)@, width as nat).0 == Err::<nat, Error>(error),
        },
{
    let bytes = parcel.read_data(width)?;
    Ok(get_le(vstd::slice::slice_subrange(bytes, 0, width)))
}

/// A value of one of the fixed-width types that a parcel holds.
pub enum Scalar {
    Bool(bool),
    I8(i8),
    U8(u8),
    I16(i16),
    U16(u16),
    I32(i32),
    U32(u32),
    I64(i64),
    U64(u64),
}

impl Scalar {
    /// The number of bytes of the type, before padding.
    pub open spec fn width(self) -> nat {
        match self {
            Scalar::Bool(_) | Scalar::I8(_) | Scalar::U8(_) => 1,
            Scalar::I16(_) | Scalar::U16(_) => 2,
            Scalar::I32(_) | Scalar::U32(_) => 4,
            Scalar::I64(_) | Scalar::U64(_) => 8,
        }
    }

    /// The number whose bytes stand for the value: the value itself, in two's
    /// complement where it is signed, and one or zero for a truth value.
    pub open spec fn number(self) -> nat {
        match self {
            Scalar::Bool(v) => if v { 1 } else { 0 },
            Scalar::I8(v) => (v as u8) as nat,
            Scalar::U8(v) => v as nat,
            Scalar::I16(v) => (v as u16) as nat,
            Scalar::U16(v) => v as nat,
            Scalar::I32(v) => (v as u32) as nat,
            Scalar::U32(v) => v as nat,
            Scalar::I64(v) => (v as u64) as nat,
            Scalar::U64(v) => v as nat,
        }
    }

    /// The value of the type of this one that `number` stands for. A truth
    /// value is true for every number but zero.
    pub open spec fn with_number(self, number: nat) -> Scalar {
        match self {
            Scalar::Bool(_) => Scalar::Bool(number != 0),
            Scalar::I8(_) => Scalar::I8((number as u8) as i8),
            Scalar::U8(_) => Scalar::U8(number as u8),
            Scalar::I16(_) => Scalar::I16((number as u16) as i16),
            Scalar::U16(_) => Scalar::U16(number as u16),
            Scalar::I32(_) => Scalar::I32((number as u32) as i32),
            Scalar::U32(_) => Scalar::U32(number as u32),
            Scalar::I64(_) => Scalar::I64((number as u64) as i64),
            Scalar::U64(_) => Scalar::U64(number as u64),
        }
    }

    /// The parcel after this value was written to `parcel`.
    pub open spec fn written(self, parcel: ParcelView) -> ParcelView {
        parcel.appended(scalar_bytes(self.number(), self.width()))
    }

    /// What reading a value of the type of this one does to `parcel`.
    pub open spec fn read(self, parcel: ParcelView) -> (Result<Scalar>, ParcelView) {
        match scalar_read(parcel, self.width()) {
            (Ok(number), after) => (Ok(self.with_number(number)), after),
            (Err(error), after) => (Err(error), after),
        }
    }
}

/// The number that reading `width` bytes gives is one that `width` bytes can hold.
pub proof fn lemma_scalar_read_bound(parcel: ParcelView, width: nat)
    ensures
        scalar_read(parcel, width).0 matches Ok(number) ==> number < le_limit(width),
        le_limit(1) == 0x100,
        le_limit(2) == 0x1_0000,
        le_limit(4) == 0x1_0000_0000,
        le_limit(8) == 0x1_0000_0000_0000_0000,
{
    lemma_le_limits();
    if parcel.has(pad(width)) {
        lemma_le_value_bound(parcel.at_cursor(pad(width)).take(width as int));
    }
}

impl Serialize for bool {
    open spec fn encodable(&self) -> bool {
        true
    }

    open spec fn written(&self, parcel: ParcelView) -> ParcelView {
        Scalar::Bool(*self).written(parcel)
    }

    fn serialize(&self, parcel: &mut WritableParcel<'_>) -> (r: Result<()>) {
        write_scalar(parcel, if *self { 1 } else { 0 }, 1);
        Ok(())
    }
}

impl Deserialize for bool {
    open spec fn decodes(before: ParcelView, result: Result<bool>, after: ParcelView) -> bool {
        Scalar::Bool(false).read(before) == (
            match result {
                Ok(value) => Ok(Scalar::Bool(value)),
                Err(error) => Err(error),
            },
            after,
        )
    }

    fn deserialize(parcel: &mut ReadableParcel<'_>) -> (r: Result<bool>) {
        let number: u64 = read_scalar(parcel, 1)?;
        proof {
            lemma_scalar_read_bound(old(parcel)@, 1);
        }
        Ok(number != 0)
    }
}

impl Serialize for i8 {
    open spec fn encodable(&self) -> bool {
        true
    }

    open spec fn written(&self, parcel: ParcelView) -> ParcelView {
        Scalar::I8(*self).written(parcel)
    }

    fn serialize(&self, parcel: &mut WritableParcel<'_>) -> (r: Result<()>) {
        write_scalar(parcel, (*self as u8) as u64, 1);
        Ok(())
    }
}

impl Deserialize for i8 {
    open spec fn decodes(before: ParcelView, result: Result<i8>, after: ParcelView) -> bool {
        Scalar::I8(0).read(before) == (
            match result {
                Ok(value) => Ok(Scalar::I8(value)),
                Err(error) => Err(error),
            },
            after,
        )
    }

    fn deserialize(parcel: &mut ReadableParcel<'_>) -> (r: Result<i8>) {
        let number: u64 = read_scalar(parcel, 1)?;
        proof {
            lemma_scalar_read_bound(old(parcel)@, 1);
        }
        Ok((number as u8) as i8)
    }
}

impl Serialize for u8 {
    open spec fn encodable(&self) -> bool {
        true
    }

    open spec fn written(&self, parcel: ParcelView) -> ParcelView {
        Scalar::U8(*self).written(parcel)
    }

    fn serialize(&self, parcel: &mut WritableParcel<'_>) -> (r: Result<()>) {
        write_scalar(parcel, *self as u64, 1);
        Ok(())
    }
}

impl Deserialize for u8 {
    open spec fn decodes(before: ParcelView, result: Result<u8>, after: ParcelView) -> bool {
        Scalar::U8(0).read(before) == (
            match result {
                Ok(value) => Ok(Scalar::U8(value)),
                Err(error) => Err(error),
            },
            after,
        )
    }

    fn deserialize(parcel: &mut ReadableParcel<'_>) -> (r: Result<u8>) {
        let number: u64 = read_scalar(parcel, 1)?;
        proof {
            lemma_scalar_read_bound(old(parcel)@, 1);
        }
        Ok(number as u8)
    }
}

impl Serialize for i16 {
    open spec fn encodable(&self) -> bool {
        true
    }

    open spec fn written(&self, parcel: ParcelView) -> ParcelView {
        Scalar::I16(*self).written(parcel)
    }

    fn serialize(&self, parcel: &mut WritableParcel<'_>) -> (r: Result<()>) {
        write_scalar(parcel, (*self as u16) as u64, 2);
        Ok(())
    }
}

impl Deserialize for i16 {
    open spec fn decodes(before: ParcelView, result: Result<i16>, after: ParcelView) -> bool {
        Scalar::I16(0).read(before) == (
            match result {
                Ok(value) => Ok(Scalar::I16(value)),
                Err(error) => Err(error),
            },
            after,
        )
    }

    fn deserialize(parcel: &mut ReadableParcel<'_>) -> (r: Result<i16>) {
        let number: u64 = read_scalar(parcel, 2)?;
        proof {
            lemma_scalar_read_bound(old(parcel)@, 2);
        }
        Ok((number as u16) as i16)
    }
}

impl Serialize for u16 {
    open spec fn encodable(&self) -> bool {
        true
    }

    open spec fn written(&self, parcel: ParcelView) -> ParcelView {
        Scalar::U16(*self).written(parcel)
    }

    fn serialize(&self, parcel: &mut WritableParcel<'_>) -> (r: Result<()>) {
        write_scalar(parcel, *self as u64, 2);
        Ok(())
    }
}

impl Deserialize for u16 {
    open spec fn decodes(before: ParcelView, result: Result<u16>, after: ParcelView) -> bool {
        Scalar::U16(0).read(before) == (
            match result {
                Ok(value) => Ok(Scalar::U16(value)),
                Err(error) => Err(error),
            },
            after,
        )
    }

    fn deserialize(parcel: &mut ReadableParcel<'_>) -> (r: Result<u16>) {
        let number: u64 = read_scalar(parcel, 2)?;
        proof {
            lemma_scalar_read_bound(old(parcel)@, 2);
        }
        Ok(number as u16)
    }
}

impl Serialize for i32 {
    open spec fn encodable(&self) -> bool {
        true
    }

    open spec fn written(&self, parcel: ParcelView) -> ParcelView {
        Scalar::I32(*self).written(parcel)
    }

    fn serialize(&self, parcel: &mut WritableParcel<'_>) -> (r: Result<()>) {
        write_scalar(parcel, (*self as u32) as u64, 4);
        Ok(())
    }
}

impl Deserialize for i32 {
    open spec fn decodes(before: ParcelView, result: Result<i32>, after: ParcelView) -> bool {
        Scalar::I32(0).read(before) == (
            match result {
                Ok(value) => Ok(Scalar::I32(value)),
                Err(error) => Err(error),
            },
            after,
        )
    }

    fn deserialize(parcel: &mut ReadableParcel<'_>) -> (r: Result<i32>) {
        let number: u64 = read_scalar(parcel, 4)?;
        proof {
            lemma_scalar_read_bound(old(parcel)@, 4);
        }
        Ok((number as u32) as i32)
    }
}

impl Serialize for u32 {
    open spec fn encodable(&self) -> bool {
        true
    }

    open spec fn written(&self, parcel: ParcelView) -> ParcelView {
        Scalar::U32(*self).written(parcel)
    }

    fn serialize(&self, parcel: &mut WritableParcel<'_>) -> (r: Result<()>) {
        write_scalar(parcel, *self as u64, 4);
        Ok(())
    }
}

impl Deserialize for u32 {
    open spec fn decodes(before: ParcelView, result: Result<u32>, after: ParcelView) -> bool {
        Scalar::U32(0).read(before) == (
            match result {
                Ok(value) => Ok(Scalar::U32(value)),
                Err(error) => Err(error),
            },
            after,
        )
    }

    fn deserialize(parcel: &mut ReadableParcel<'_>) -> (r: Result<u32>) {
        let number: u64 = read_scalar(parcel, 4)?;
        proof {
            lemma_scalar_read_bound(old(parcel)@, 4);
        }
        Ok(number as u32)
    }
}

impl Serialize for i64 {
    open spec fn encodable(&self) -> bool {
        true
    }

    open spec fn written(&self, parcel: ParcelView) -> ParcelView {
        Scalar::I64(*self).written(parcel)
    }

    fn serialize(&self, parcel: &mut WritableParcel<'_>) -> (r: Result<()>) {
        write_scalar(parcel, *self as u64, 8);
        Ok(())
    }
}

impl Deserialize for i64 {
    open spec fn decodes(before: ParcelView, result: Result<i64>, after: ParcelView) -> bool {
        Scalar::I64(0).read(before) == (
            match result {
                Ok(value) => Ok(Scalar::I64(value)),
                Err(error) => Err(error),
            },
            after,
        )
    }

    fn deserialize(parcel: &mut ReadableParcel<'_>) -> (r: Result<i64>) {
        let number: u64 = read_scalar(parcel, 8)?;
        proof {
            lemma_scalar_read_bound(old(parcel)@, 8);
        }
        Ok(number as i64)
    }
}

impl Serialize for u64 {
    open spec fn encodable(&self) -> bool {
        true
    }

    open spec fn written(&self, parcel: ParcelView) -> ParcelView {
        Scalar::U64(*self).written(parcel)
    }

    fn serialize(&self, parcel: &mut WritableParcel<'_>) -> (r: Result<()>) {
        write_scalar(parcel, *self, 8);
        Ok(())
    }
}

impl Deserialize for u64 {
    open spec fn decodes(before: ParcelView, result: Result<u64>, after: ParcelView) -> bool {
        Scalar::U64(0).read(before) == (
            match result {
                Ok(value) => Ok(Scalar::U64(value)),
                Err(error) => Err(error),
            },
            after,
        )
    }

    fn deserialize(parcel: &mut ReadableParcel<'_>) -> (r: Result<u64>) {
        let number: u64 = read_scalar(parcel, 8)?;
        proof {
            lemma_scalar_read_bound(old(parcel)@, 8);
        }
        Ok(number)
    }
}

impl SerializeOption for bool {
    open spec fn option_written(this: Option<&Self>, parcel: ParcelView) -> ParcelView {
        flagged_written(this, parcel)
    }

    fn serialize_option(this: Option<&Self>, parcel: &mut WritableParcel<'_>) -> (r: Result<()>) {
        serialize_flagged(this, parcel)
    }
}

impl DeserializeOption for bool {
    open spec fn option_decodes(
        before: ParcelView,
        result: Result<Option<Self>>,
        after: ParcelView,
    ) -> bool {
        flagged_decodes(before, result, after)
    }

    fn deserialize_option(parcel: &mut ReadableParcel<'_>) -> (r: Result<Option<Self>>) {
        deserialize_flagged(parcel)
    }
}

impl SerializeOption for i8 {
    open spec fn option_written(this: Option<&Self>, parcel: ParcelView) -> ParcelView {
        flagged_written(this, parcel)
    }

    fn serialize_option(this: Option<&Self>, parcel: &mut WritableParcel<'_>) -> (r: Result<()>) {
        serialize_flagged(this, parcel)
    }
}

impl DeserializeOption for i8 {
    open spec fn option_decodes(
        before: ParcelView,
        result: Result<Option<Self>>,
        after: ParcelView,
    ) -> bool {
        flagged_decodes(before, result, after)
    }

    fn deserialize_option(parcel: &mut ReadableParcel<'_>) -> (r: Result<Option<Self>>) {
        deserialize_flagged(parcel)
    }
}

impl SerializeOption for u8 {
    open spec fn option_written(this: Option<&Self>, parcel: ParcelView) -> ParcelView {
        flagged_written(this, parcel)
    }

    fn serialize_option(this: Option<&Self>, parcel: &mut WritableParcel<'_>) -> (r: Result<()>) {
        serialize_flagged(this, parcel)
    }
}

impl DeserializeOption for u8 {
    open spec fn option_decodes(
        before: ParcelView,
        result: Result<Option<Self>>,
        after: ParcelView,
    ) -> bool {
        flagged_decodes(before, result, after)
    }

    fn deserialize_option(parcel: &mut ReadableParcel<'_>) -> (r: Result<Option<Self>>) {
        deserialize_flagged(parcel)
    }
}

impl SerializeOption for i16 {
    open spec fn option_written(this: Option<&Self>, parcel: ParcelView) -> ParcelView {
        flagged_written(this, parcel)
    }

    fn serialize_option(this: Option<&Self>, parcel: &mut WritableParcel<'_>) -> (r: Result<()>) {
        serialize_flagged(this, parcel)
    }
}

impl DeserializeOption for i16 {
    open spec fn option_decodes(
        before: ParcelView,
        result: Result<Option<Self>>,
        after: ParcelView,
    ) -> bool {
        flagged_decodes(before, result, after)
    }

    fn deserialize_option(parcel: &mut ReadableParcel<'_>) -> (r: Result<Option<Self>>) {
        deserialize_flagged(parcel)
    }
}

impl SerializeOption for u16 {
    open spec fn option_written(this: Option<&Self>, parcel: ParcelView) -> ParcelView {
        flagged_written(this, parcel)
    }

    fn serialize_option(this: Option<&Self>, parcel: &mut WritableParcel<'_>) -> (r: Result<()>) {
        serialize_flagged(this, parcel)
    }
}

impl DeserializeOption for u16 {
    open spec fn option_decodes(
        before: ParcelView,
        result: Result<Option<Self>>,
        after: ParcelView,
    ) -> bool {
        flagged_decodes(before, result, after)
    }

    fn deserialize_option(parcel: &mut ReadableParcel<'_>) -> (r: Result<Option<Self>>) {
        deserialize_flagged(parcel)
    }
}

impl SerializeOption for i32 {
    open spec fn option_written(this: Option<&Self>, parcel: ParcelView) -> ParcelView {
        flagged_written(this, parcel)
    }

    fn serialize_option(this: Option<&Self>, parcel: &mut WritableParcel<'_>) -> (r: Result<()>) {
        serialize_flagged(this, parcel)
    }
}

impl DeserializeOption for i32 {
    open spec fn option_decodes(
        before: ParcelView,
        result: Result<Option<Self>>,
        after: ParcelView,
    ) -> bool {
        flagged_decodes(before, result, after)
    }

    fn deserialize_option(parcel: &mut ReadableParcel<'_>) -> (r: Result<Option<Self>>) {
        deserialize_flagged(parcel)
    }
}

impl SerializeOption for u32 {
    open spec fn option_written(this: Option<&Self>, parcel: ParcelView) -> ParcelView {
        flagged_written(this, parcel)
    }

    fn serialize_option(this: Option<&Self>, parcel: &mut WritableParcel<'_>) -> (r: Result<()>) {
        serialize_flagged(this, parcel)
    }
}

impl DeserializeOption for u32 {
    open spec fn option_decodes(
        before: ParcelView,
        result: Result<Option<Self>>,
        after: ParcelView,
    ) -> bool {
        flagged_decodes(before, result, after)
    }

    fn deserialize_option(parcel: &mut ReadableParcel<'_>) -> (r: Result<Option<Self>>) {
        deserialize_flagged(parcel)
    }
}

impl SerializeOption for i64 {
    open spec fn option_written(this: Option<&Self>, parcel: ParcelView) -> ParcelView {
        flagged_written(this, parcel)
    }

    fn serialize_option(this: Option<&Self>, parcel: &mut WritableParcel<'_>) -> (r: Result<()>) {
        serialize_flagged(this, parcel)
    }
}

impl DeserializeOption for i64 {
    open spec fn option_decodes(
        before: ParcelView,
        result: Result<Option<Self>>,
        after: ParcelView,
    ) -> bool {
        flagged_decodes(before, result, after)
    }

    fn deserialize_option(parcel: &mut ReadableParcel<'_>) -> (r: Result<Option<Self>>) {
        deserialize_flagged(parcel)
    }
}

impl SerializeOption for u64 {
    open spec fn option_written(this: Option<&Self>, parcel: ParcelView) -> ParcelView {
        flagged_written(this, parcel)
    }

    fn serialize_option(this: Option<&Self>, parcel: &mut WritableParcel<'_>) -> (r: Result<()>) {
        serialize_flagged(this, parcel)
    }
}

impl DeserializeOption for u64 {
    open spec fn option_decodes(
        before: ParcelView,
        result: Result<Option<Self>>,
        after: ParcelView,
    ) -> bool {
        flagged_decodes(before, result, after)
    }

    fn deserialize_option(parcel: &mut ReadableParcel<'_>) -> (r: Result<Option<Self>>) {
        deserialize_flagged(parcel)
    }
}

} // verus!
