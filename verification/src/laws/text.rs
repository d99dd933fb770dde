//! What holds of text: it is read back as it was written, and its UTF-16
//! form stands for no other text.

use vstd::prelude::*;
use crate::error::Result;
use crate::laws::scalars::{lemma_scalar_number, lemma_scalar_round_trip};
use crate::model::ParcelView;
use crate::parcelable::{Deserialize, Serialize};
use crate::scalar::Scalar;
use crate::string16::{
    lemma_units_bytes_len, lemma_units_round_trip, padded_units, units_bytes, utf16,
    utf16_of_char, String16,
};
use crate::wire::{lemma_le_bytes_len, pad};

verus! {

/// A part of what a parcel holds is in every parcel that holds the whole.
pub(crate) proof fn lemma_prefix_of_prefix(part: Seq<u8>, more: Seq<u8>, whole: Seq<u8>)
    requires
        (part + more).is_prefix_of(whole),
    ensures
        part.is_prefix_of(whole),
        forall|i: int| 0 <= i < more.len() ==> whole[part.len() + i] == more[i],
{
    let both = part + more;
    assert(both =~= whole.subrange(0, both.len() as int));
    assert(part =~= whole.subrange(0, part.len() as int)) by {
        assert forall|i: int| 0 <= i < part.len() implies part[i] == whole[i] by {
            assert(both[i] == whole.subrange(0, both.len() as int)[i]);
        }
    }
    assert forall|i: int| 0 <= i < more.len() implies whole[part.len() + i] == more[i] by {
        assert(both[part.len() + i] == whole.subrange(0, both.len() as int)[part.len() + i]);
    }
}

/// A text that was written is read back as it was. Let `value` be written to
/// the parcel `start`, and anything after it. A read of a text from the place
/// where the write began returns the code units of `value`, and moves the
/// cursor by the four bytes of the count and the padded bytes of the units.
pub proof fn lemma_text_round_trip(
    value: String16,
    start: ParcelView,
    reader: ParcelView,
    result: Result<String16>,
    after: ParcelView,
)
    requires
        value.encodable(),
        value.written(start).data.is_prefix_of(reader.data),
        reader.cursor.pos == start.data.len(),
        String16::decodes(reader, result, after),
    ensures
        result matches Ok(text) && text@ == value@,
        after == reader.advanced(4 + pad(2 * value@.len())),
{
    let units = value@;
    let count = Scalar::I32(units.len() as i32);
    let counted = count.written(start);
    let tail = padded_units(units);
    lemma_le_bytes_len(count.number(), 4);
    lemma_units_bytes_len(units);
    lemma_prefix_of_prefix(counted.data, tail, reader.data);
    lemma_scalar_round_trip(count, start, reader);
    lemma_scalar_number(count);
    let moved = reader.advanced(4);
    assert(tail.len() == pad(2 * units.len()));
    assert(moved.has(pad(2 * units.len())));
    let bytes = moved.at_cursor(pad(2 * units.len()));
    assert(bytes =~= tail);
    assert(units_bytes(units).is_prefix_of(bytes)) by {
        assert(units_bytes(units) =~= bytes.subrange(0, 2 * units.len() as int));
    }
    lemma_units_round_trip(units, bytes);
    assert(moved.advanced(pad(2 * units.len())) == reader.advanced(4 + pad(2 * units.len())));
}

/// A character has one or two code units, and its last code unit is a low
/// surrogate exactly if it has two.
proof fn lemma_utf16_of_char(c: char)
    ensures
        1 <= utf16_of_char(c).len() <= 2,
        utf16_of_char(c).len() == 2 <==> 0xDC00 <= utf16_of_char(c).last() <= 0xDFFF,
        utf16_of_char(c).len() == 2 ==> 0xD800 <= utf16_of_char(c)[0] <= 0xDBFF,
        utf16_of_char(c).len() == 1 ==> utf16_of_char(c)[0] == c as int,
        utf16_of_char(c).len() == 2 ==> c as int == 0x1_0000 + (utf16_of_char(c)[0] - 0xD800)
            * 0x400 + (utf16_of_char(c)[1] - 0xDC00),
{
}

/// A text has at least as many code units as characters.
proof fn lemma_utf16_len(text: Seq<char>)
    ensures
        utf16(text).len() >= text.len(),
    decreases text.len(),
{
    if text.len() > 0 {
        lemma_utf16_len(text.drop_last());
        lemma_utf16_of_char(text.last());
    }
}

/// Two texts with the same UTF-16 code units are the same text.
pub proof fn lemma_utf16_is_injective(left: Seq<char>, right: Seq<char>)
    requires
        utf16(left) == utf16(right),
    ensures
        left == right,
    decreases left.len(),
{
    lemma_utf16_len(left);
    lemma_utf16_len(right);
    if left.len() == 0 || right.len() == 0 {
        assert(left =~= right);
    } else {
        let a = left.last();
        let b = right.last();
        let head_a = utf16(left.drop_last());
        let head_b = utf16(right.drop_last());
        let tail_a = utf16_of_char(a);
        let tail_b = utf16_of_char(b);
        let units = utf16(left);
        lemma_utf16_of_char(a);
        lemma_utf16_of_char(b);
        assert(units == head_a + tail_a);
        assert(units == head_b + tail_b);
        assert(units.last() == tail_a.last());
        assert(units.last() == tail_b.last());
        assert(tail_a.len() == tail_b.len());
        assert(head_a =~= units.subrange(0, units.len() - tail_a.len()));
        assert(head_b =~= units.subrange(0, units.len() - tail_b.len()));
        if tail_a.len() == 2 {
            assert(tail_a[0] == units[units.len() - 2]);
            assert(tail_b[0] == units[units.len() - 2]);
        }
        assert(a as int == b as int);
        lemma_utf16_is_injective(left.drop_last(), right.drop_last());
        assert(left =~= left.drop_last().push(a));
        assert(right =~= right.drop_last().push(b));
    }
}

} // verus!
