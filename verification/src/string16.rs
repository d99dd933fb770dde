//! Text as a parcel holds it: a count of UTF-16 code units, then the units.

use vstd::prelude::*;
use crate::error::{Error, ErrorKind, Result};
use crate::model::ParcelView;
use crate::parcel::{ReadableParcel, WritableParcel};
use crate::parcelable::{
    deserialize_flagged, flagged_decodes, flagged_written, serialize_flagged, Deserialize,
    DeserializeOption, Serialize, SerializeOption,
};
use crate::scalar::{read_scalar, scalar_read, write_scalar, zeros, Scalar};
use crate::wire::{
    get_le, le_bytes, le_value, lemma_le_bytes_len, lemma_le_limits, lemma_le_value_bound,
    lemma_le_value_of_bytes, pad, put_le,
};

verus! {

/// The one or two UTF-16 code units of a character: the character itself
/// where it is below 0x10000, else a high and a low surrogate.
pub open spec fn utf16_of_char(c: char) -> Seq<u16> {
    let code = c as int;
    if code < 0x1_0000 {
        seq![code as u16]
    } else {
        seq![
            (0xD800 + (code - 0x1_0000) / 0x400) as u16,
            (0xDC00 + (code - 0x1_0000) % 0x400) as u16,
        ]
    }
}

/// The UTF-16 code units of a text.
pub open spec fn utf16(text: Seq<char>) -> Seq<u16>
    decreases text.len(),
{
    if text.len() == 0 {
        Seq::empty()
    } else {
        utf16(text.drop_last()) + utf16_of_char(text.last())
    }
}

/// The bytes of a run of code units, two for each, least significant first.
pub open spec fn units_bytes(units: Seq<u16>) -> Seq<u8>
    decreases units.len(),
{
    if units.len() == 0 {
        Seq::empty()
    } else {
        units_bytes(units.drop_last()) + le_bytes(units.last() as nat, 2)
    }
}

/// The code units that a run of bytes holds, two bytes for each.
pub open spec fn units_of(bytes: Seq<u8>) -> Seq<u16> {
    Seq::new(bytes.len() / 2, |i: int| le_value(bytes.subrange(2 * i, 2 * i + 2)) as u16)
}

/// A text of UTF-16 code units.
#[derive(Clone, Debug, PartialEq, Eq)]
pub struct String16 {
    units: Vec<u16>,
}

impl View for String16 {
    type V = Seq<u16>;

    closed spec fn view(&self) -> Seq<u16> {
        self.units@
    }
}

/// The error of `String::from_utf16`.
#[verifier::external_type_specification]
#[verifier::external_body]
pub struct ExFromUtf16Error(std::string::FromUtf16Error);

/// `String::from_utf16` of std: the text whose UTF-16 form `units` is. It
/// fails only where `units` is the UTF-16 form of no text.
#[verifier::external_body]
fn string_from_utf16(units: &[u16]) -> (r: core::result::Result<
    String,
    std::string::FromUtf16Error,
>)
    ensures
        r matches Ok(text) ==> utf16(text@) == units@,
        r is Err ==> forall|text: Seq<char>| #[trigger] utf16(text) != units@,
{
    String::from_utf16(units)
}

fn push_utf16(units: &mut Vec<u16>, c: char)
    ensures
        final(units)@ == old(units)@ + utf16_of_char(c),
{
    let code: u32 = c as u32;
    if code < 0x1_0000 {
        units.push(code as u16);
    } else {
        let rest: u32 = code - 0x1_0000;
        units.push((0xD800 + rest / 0x400) as u16);
        units.push((0xDC00 + rest % 0x400) as u16);
    }
}

impl String16 {
    /// The text of the code units `units`.
    pub fn from_units(units: Vec<u16>) -> (text: String16)
        ensures
            text@ == units@,
    {
        String16 { units }
    }

    /// The UTF-16 form of `text`.
    pub fn from_str(text: &str) -> (encoded: String16)
        ensures
            encoded@ == utf16(text@),
    {
        let mut units: Vec<u16> = Vec::new();
        for c in iter: text.chars()
            invariant
                iter.seq() == text@,
                units@ == utf16(text@.take(iter.index() as int)),
        {
            proof {
                let taken = text@.take(iter.index() + 1);
                assert(taken.drop_last() =~= text@.take(iter.index() as int));
                assert(taken.last() == c);
            }
            push_utf16(&mut units, c);
        }
        proof {
            assert(text@.take(text@.len() as int) =~= text@);
        }
        String16 { units }
    }

    /// The code units of the text.
    pub fn units(&self) -> (units: &[u16])
        ensures
            units@ == self@,
    {
        self.units.as_slice()
    }

    /// The text whose UTF-16 form this is; *conversion* where this is the
    /// UTF-16 form of no text.
    pub fn to_text(&self) -> (r: Result<String>)
        ensures
            match r {
                Ok(text) => utf16(text@) == self@,
                Err(error) => error.kind == ErrorKind::Conversion && forall|text: Seq<char>|
                    #[trigger] utf16(text) != self@,
            },
    {
        match string_from_utf16(self.units.as_slice()) {
            Ok(text) => Ok(text),
            Err(_) => Err(Error::from(ErrorKind::Conversion)),
        }
    }
}

/// The bytes that follow the count of a text of `units`: the units, then
/// zeros up to a multiple of four.
pub open spec fn padded_units(units: Seq<u16>) -> Seq<u8> {
    units_bytes(units) + zeros((pad(2 * units.len()) - 2 * units.len()) as nat)
}

/// A run of `count` code units takes twice as many bytes.
pub proof fn lemma_units_bytes_len(units: Seq<u16>)
    ensures
        units_bytes(units).len() == 2 * units.len(),
    decreases units.len(),
{
    if units.len() > 0 {
        lemma_units_bytes_len(units.drop_last());
        lemma_le_bytes_len(units.last() as nat, 2);
    }
}

/// The code units that the bytes of a run of code units hold are the run,
/// whatever follows the bytes.
pub proof fn lemma_units_round_trip(units: Seq<u16>, bytes: Seq<u8>)
    requires
        units_bytes(units).is_prefix_of(bytes),
    ensures
        units_of(bytes.take(2 * units.len() as int)) == units,
    decreases units.len(),
{
    lemma_units_bytes_len(units);
    let taken = bytes.take(2 * units.len() as int);
    assert(taken =~= units_bytes(units));
    if units.len() > 0 {
        let shorter = units.drop_last();
        lemma_units_bytes_len(shorter);
        lemma_le_bytes_len(units.last() as nat, 2);
        assert(units_bytes(shorter).is_prefix_of(bytes)) by {
            assert(units_bytes(shorter) =~= bytes.subrange(0, 2 * shorter.len() as int));
        }
        lemma_units_round_trip(shorter, bytes);
        let shorter_taken = bytes.take(2 * shorter.len() as int);
        assert forall|i: int| 0 <= i < units.len() implies units_of(taken)[i] == units[i] by {
            if i < shorter.len() {
                assert(taken.subrange(2 * i, 2 * i + 2) =~= shorter_taken.subrange(
                    2 * i,
                    2 * i + 2,
                ));
                assert(units_of(shorter_taken)[i] == shorter[i]);
            } else {
                assert(taken.subrange(2 * i, 2 * i + 2) =~= le_bytes(units.last() as nat, 2));
                lemma_le_limits();
                lemma_le_value_of_bytes(units.last() as nat, 2);
            }
        }
        assert(units_of(taken) =~= units);
    } else {
        assert(units_of(taken) =~= units);
    }
}

impl Serialize for String16 {
    /// A text can be written if the count of its code units fits 31 bits.
    open spec fn encodable(&self) -> bool {
        self@.len() <= i32::MAX
    }

    /// The count of code units as a 32-bit number, then the units, then
    /// zeros up to a multiple of four.
    open spec fn written(&self, parcel: ParcelView) -> ParcelView {
        Scalar::I32(self@.len() as i32).written(parcel).appended(padded_units(self@))
    }

    fn serialize(&self, parcel: &mut WritableParcel<'_>) -> (r: Result<()>) {
        let count: usize = self.units.len();
        if count > i32::MAX as usize {
            return Err(Error::from(ErrorKind::Conversion));
        }
        write_scalar(parcel, count as u64, 4);
        let mut bytes: Vec<u8> = Vec::new();
        let mut index: usize = 0;
        while index < count
            invariant
                index <= count == self.units@.len(),
                bytes@ == units_bytes(self.units@.take(index as int)),
            decreases count - index,
        {
            proof {
                let taken = self.units@.take(index + 1);
                assert(taken.drop_last() =~= self.units@.take(index as int));
                assert(taken.last() == self.units@[index as int]);
            }
            put_le(&mut bytes, self.units[index] as u64, 2);
            index = index + 1;
        }
        proof {
            assert(self.units@.take(count as int) =~= self.units@);
            lemma_units_bytes_len(self.units@);
        }
        if count % 2 == 1 {
            bytes.push(0);
            bytes.push(0);
        }
        assert(bytes@ =~= padded_units(self.units@));
        parcel.write_data(bytes.as_slice());
        proof {
            assert(count as i32 == count);
            assert((count as i32) as u32 == count) by (bit_vector)
                requires
                    count <= 0x7fff_ffff,
            ;
        }
        Ok(())
    }
}

impl Deserialize for String16 {
    /// A text is read as a 32-bit count and then twice as many bytes, padded;
    /// a count below zero is the failure *conversion*.
    open spec fn decodes(before: ParcelView, result: Result<String16>, after: ParcelView) -> bool {
        match scalar_read(before, 4) {
            (Err(error), next) => result == Err::<String16, Error>(error) && after == next,
            (Ok(number), next) => {
                let count = (number as u32) as i32;
                if count < 0 {
                    result matches Err(error) && error.kind == ErrorKind::Conversion && after
                        == next
                } else {
                    match next.read_data((2 * count) as nat) {
                        (Err(error), last) => result == Err::<String16, Error>(error) && after
                            == last,
                        (Ok(bytes), last) => result matches Ok(text) && text@ == units_of(
                            bytes.take(2 * count),
                        ) && after == last,
                    }
                }
            },
        }
    }

    fn deserialize(parcel: &mut ReadableParcel<'_>) -> (r: Result<String16>) {
        let number: u64 = read_scalar(parcel, 4)?;
        proof {
            crate::scalar::lemma_scalar_read_bound(old(parcel)@, 4);
        }
        let count: i32 = (number as u32) as i32;
        if count < 0 {
            return Err(Error::from(ErrorKind::Conversion));
        }
        let wanted: usize = count as usize;
        assert(2 * wanted <= usize::MAX) by {
            assert(wanted <= 0x7fff_ffff);
        }
        let bytes = parcel.read_data(2 * wanted)?;
        let mut units: Vec<u16> = Vec::with_capacity(wanted);
        let mut index: usize = 0;
        while index < wanted
            invariant
                index <= wanted <= i32::MAX,
                2 * wanted <= bytes@.len(),
                units@ == units_of(bytes@.take(2 * index)),
            decreases wanted - index,
        {
            let unit: u64 = get_le(vstd::slice::slice_subrange(bytes, 2 * index, 2 * index + 2));
            proof {
                lemma_le_limits();
                lemma_le_value_bound(bytes@.subrange(2 * index, 2 * index + 2));
                let shorter = bytes@.take(2 * index);
                let longer = bytes@.take(2 * (index + 1));
                assert forall|i: int| 0 <= i < index + 1 implies units@.push(unit as u16)[i]
                    == units_of(longer)[i] by {
                    if i < index {
                        assert(longer.subrange(2 * i, 2 * i + 2) =~= shorter.subrange(
                            2 * i,
                            2 * i + 2,
                        ));
                    } else {
                        assert(longer.subrange(2 * i, 2 * i + 2) =~= bytes@.subrange(
                            2 * index,
                            2 * index + 2,
                        ));
                    }
                }
                assert(units@.push(unit as u16) =~= units_of(longer));
            }
            units.push(unit as u16);
            index = index + 1;
        }
        Ok(String16 { units })
    }
}

impl SerializeOption for String16 {
    open spec fn option_written(this: Option<&Self>, parcel: ParcelView) -> ParcelView {
        flagged_written(this, parcel)
    }

    fn serialize_option(this: Option<&Self>, parcel: &mut WritableParcel<'_>) -> (r: Result<()>) {
        serialize_flagged(this, parcel)
    }
}

impl DeserializeOption for String16 {
    open spec fn option_decodes(
        before: ParcelView,
        result: Result<Option<Self>>,
        after: ParcelView,
    ) -> bool {
        flagged_decodes(before, result, after)
    }

    fn deserialize_option(parcel: &mut ReadableParcel<'_>) -> (r: Result<Option<Self>>) {
        deserialize_flagged(parcel)
    }
}

} // verus!
