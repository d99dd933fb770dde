//! The parcel: a byte buffer, the table of the offsets at which reference
//! records sit in it, and a cursor.

use vstd::prelude::*;
use vstd::std_specs::convert::TryFromSpecImpl;
use crate::dump::{
    decimal, decimal_digits, dump_layout, hex_dump, layout_dump, pretty_hex_text,
};
use crate::error::{Error, ErrorKind, Result};
use crate::model::{lookup, scan_backward, scan_forward, Cursor, CursorView, ParcelView};
use crate::parcelable::{Deserialize, Serialize};
use crate::record::{FlatBinderObject, FLAT_OBJECT_SIZE};
use crate::wire::checked_pad_size;

verus! {

/// `Vec::capacity` of std: the number of elements that the vector can hold
/// without allocating again, which is never less than its length. How much more
/// it is depends on the allocator, so nothing else is said of it.
#[verifier::external_body]
fn vec_capacity(data: &Vec<u8>) -> (capacity: usize)
    ensures
        capacity >= data@.len(),
{
    data.capacity()
}

/// A parcel that owns its bytes: values are appended to it and read back from
/// the cursor.
pub struct Parcel {
    data: Vec<u8>,
    objects: Vec<u64>,
    cursor: Cursor,
}

impl View for Parcel {
    type V = ParcelView;

    closed spec fn view(&self) -> ParcelView {
        ParcelView { data: self.data@, objects: self.objects@, cursor: self.cursor@ }
    }
}

impl Parcel {
    /// What an empty parcel holds.
    pub open spec fn empty() -> ParcelView {
        ParcelView {
            data: Seq::empty(),
            objects: Seq::empty(),
            cursor: CursorView::start(),
        }
    }

    /// An empty parcel with room for 256 bytes.
    pub fn new() -> (parcel: Parcel)
        ensures
            parcel@.data == Seq::<u8>::empty(),
            parcel@.objects == Seq::<u64>::empty(),
            parcel@.cursor == CursorView::start(),
            parcel@.well_formed(),
    {
        Parcel::with_capacity(256)
    }

    /// An empty parcel with room for `capacity` bytes.
    pub fn with_capacity(capacity: usize) -> (parcel: Parcel)
        ensures
            parcel@.data == Seq::<u8>::empty(),
            parcel@.objects == Seq::<u64>::empty(),
            parcel@.cursor == CursorView::start(),
            parcel@.well_formed(),
    {
        Parcel { data: Vec::with_capacity(capacity), objects: Vec::new(), cursor: Cursor::new() }
    }

    /// A parcel that holds `data`, with an empty object table and the cursor at
    /// the start.
    pub fn from_vec(data: Vec<u8>) -> (parcel: Parcel)
        ensures
            parcel@.data == data@,
            parcel@.objects == Seq::<u64>::empty(),
            parcel@.cursor == CursorView::start(),
            parcel@.well_formed(),
    {
        Parcel { data, objects: Vec::new(), cursor: Cursor::new() }
    }

    /// Appends `other` as it is, without padding.
    pub fn extend_from_slice(&mut self, other: &[u8])
        ensures
            final(self)@ == old(self)@.appended(other@),
            old(self)@.well_formed() ==> final(self)@.well_formed(),
    {
        self.data.extend_from_slice(other);
        assert(self.data@ =~= old(self).data@ + other@);
    }

    /// Moves the cursor to `pos`; `pos` is not held against the length of the
    /// data here, but by the reads that follow.
    pub fn set_data_position(&mut self, pos: usize)
        ensures
            final(self)@ == old(self)@.with_cursor(old(self)@.cursor.at(pos as nat)),
    {
        self.cursor.pos = pos;
    }

    /// The offset of the next byte to read.
    pub fn data_position(&self) -> (pos: usize)
        ensures
            pos == self@.cursor.pos,
    {
        self.cursor.pos
    }

    /// Whether nothing is left to read.
    pub fn is_empty(&self) -> (empty: bool)
        ensures
            empty <==> self@.remaining() <= 0,
    {
        self.cursor.pos >= self.data.len()
    }

    /// The number of bytes from the cursor to the end.
    pub fn len(&self) -> (len: usize)
        requires
            0 <= self@.remaining() < i32::MAX,
        ensures
            len == self@.remaining(),
    {
        self.data.len() - self.cursor.pos
    }

    /// The bytes of the parcel.
    pub fn as_slice(&self) -> (data: &[u8])
        ensures
            data@ == self@.data,
    {
        self.data.as_slice()
    }

    /// The object table of the parcel.
    pub fn objects(&self) -> (objects: &[u64])
        ensures
            objects@ == self@.objects,
    {
        self.objects.as_slice()
    }

    /// The number of bytes that the parcel can hold without allocating again.
    pub fn capacity(&self) -> (capacity: usize)
        ensures
            capacity >= self@.data.len(),
    {
        vec_capacity(&self.data)
    }

    /// The descriptor numbers of the registered records that carry a file
    /// descriptor, in the order of the object table. These, and no others, are
    /// the descriptors that whoever owns the buffer may close.
    pub fn file_descriptors(&self) -> (fds: Vec<u32>)
        ensures
            fds@ == self@.file_descriptors(),
    {
        let size: usize = self.data.len();
        let total: u64 = size as u64;
        let mut fds: Vec<u32> = Vec::new();
        let mut index: usize = 0;
        while index < self.objects.len()
            invariant
                index <= self.objects@.len(),
                total == size == self.data@.len(),
                fds@ == self@.file_descriptors_upto(index as nat),
            decreases self.objects@.len() - index,
        {
            let offset: u64 = self.objects[index];
            if offset <= total && FLAT_OBJECT_SIZE as u64 <= total - offset {
                let start: usize = offset as usize;
                let record = FlatBinderObject::from_bytes(
                    vstd::slice::slice_subrange(
                        self.data.as_slice(),
                        start,
                        start + FLAT_OBJECT_SIZE,
                    ),
                );
                if record.is_fd() {
                    fds.push(record.handle());
                }
            }
            index = index + 1;
        }
        fds
    }

    /// The text that shows the parcel: a line with the cursor position and the
    /// length of the data, then the data as a hex dump.
    pub fn dump(&self) -> (text: String)
        ensures
            text@ == dump_layout(
                decimal_digits(self@.cursor.pos),
                decimal_digits(self@.data.len()),
                pretty_hex_text(self@.data),
            ),
    {
        let pos = decimal(self.cursor.pos);
        let len = decimal(self.data.len());
        let hex = hex_dump(self.data.as_slice());
        layout_dump(pos.as_str(), len.as_str(), hex.as_str())
    }

    /// The reading side of this parcel. What it does to the cursor is done to
    /// the cursor of this parcel.
    pub fn as_readable(&mut self) -> (reader: ReadableParcel<'_>)
        ensures
            reader@ == old(self)@,
            final(self)@ == old(self)@.with_cursor(final(reader.cursor)@),
    {
        ReadableParcel {
            data: self.data.as_slice(),
            objects: self.objects.as_slice(),
            cursor: &mut self.cursor,
        }
    }

    /// The writing side of this parcel. What is written to it is written to
    /// this parcel.
    pub fn as_writable(&mut self) -> (writer: WritableParcel<'_>)
        ensures
            writer@ == old(self)@,
            final(self)@ == final(writer.inner)@,
    {
        WritableParcel { inner: self }
    }
}

/// The writing side of a parcel.
///
/// Every operation leaves the writer on the parcel that it was made for: this
/// is what `*final(final(self).inner) == *final(old(self).inner)` says in the
/// contracts, and it is what lets a caller conclude from what was done to the
/// writer what has been done to its parcel.
pub struct WritableParcel<'a> {
    pub inner: &'a mut Parcel,
}

impl<'a> View for WritableParcel<'a> {
    type V = ParcelView;

    open spec fn view(&self) -> ParcelView {
        self.inner@
    }
}

impl<'a> WritableParcel<'a> {
    /// Appends `data` as it is, without padding.
    pub fn write_data(&mut self, data: &[u8])
        ensures
            *final(final(self).inner) == *final(old(self).inner),
            final(self)@ == old(self)@.appended(data@),
            old(self)@.well_formed() ==> final(self)@.well_formed(),
    {
        self.inner.extend_from_slice(data);
    }

    /// Appends the 24 bytes of `obj`. The offset at which they start is added
    /// to the object table if the record has a payload or `null_meta` is set;
    /// a record that stands for no reference is not registered otherwise.
    pub fn write_object(&mut self, obj: &FlatBinderObject, null_meta: bool) -> (r: Result<()>)
        ensures
            *final(final(self).inner) == *final(old(self).inner),
            r is Ok,
            final(self)@ == old(self)@.write_object(*obj, null_meta),
            old(self)@.well_formed() ==> final(self)@.well_formed(),
    {
        let data_pos: usize = self.inner.data.len();
        let bytes = obj.to_bytes();
        self.write_data(bytes.as_slice());
        if null_meta || obj.payload != 0 {
            self.inner.objects.push(data_pos as u64);
        }
        Ok(())
    }

    /// Records the length of the data, which is where the next write goes, as
    /// the position of the request header, the first time that it is called;
    /// later calls change nothing.
    pub fn update_work_source_request_header_pos(&mut self)
        ensures
            *final(final(self).inner) == *final(old(self).inner),
            final(self)@ == old(self)@.with_cursor(
                old(self)@.cursor.header_seen(old(self)@.data.len()),
            ),
    {
        if !self.inner.cursor.request_header_present {
            self.inner.cursor.work_source_request_header_pos = self.inner.data.len();
            self.inner.cursor.request_header_present = true;
        }
    }

    /// Writes a value of a type that can be written to a parcel.
    pub fn write<S: Serialize + ?Sized>(&mut self, parcelable: &S) -> (r: Result<()>)
        ensures
            *final(final(self).inner) == *final(old(self).inner),
            old(self)@.grown_into(final(self)@),
            old(self)@.well_formed() ==> final(self)@.well_formed(),
            r is Ok <==> parcelable.encodable(),
            r is Ok ==> final(self)@ == parcelable.written(old(self)@),
    {
        parcelable.serialize(self)
    }
}

/// A parcel over bytes and an object table that another party owns: it reads
/// them and never changes or frees them.
pub struct ImmutableParcel<'a> {
    data: &'a [u8],
    objects: &'a [u64],
    cursor: Cursor,
}

impl<'a> View for ImmutableParcel<'a> {
    type V = ParcelView;

    closed spec fn view(&self) -> ParcelView {
        ParcelView { data: self.data@, objects: self.objects@, cursor: self.cursor@ }
    }
}

impl<'a> ImmutableParcel<'a> {
    /// A parcel over the bytes `data` and the object table `objects`, with the
    /// cursor at the start.
    pub fn from_ipc_parts(data: &'a [u8], objects: &'a [u64]) -> (parcel: ImmutableParcel<'a>)
        ensures
            parcel@.data == data@,
            parcel@.objects == objects@,
            parcel@.cursor == CursorView::start(),
    {
        ImmutableParcel { data, objects, cursor: Cursor::new() }
    }

    /// The reading side of this parcel. What it does to the cursor is done to
    /// the cursor of this parcel.
    pub fn as_readable(&mut self) -> (reader: ReadableParcel<'_>)
        ensures
            reader@ == old(self)@,
            final(self)@ == old(self)@.with_cursor(final(reader.cursor)@),
    {
        ReadableParcel { data: self.data, objects: self.objects, cursor: &mut self.cursor }
    }

    /// The number of bytes from the cursor to the end.
    pub fn len(&self) -> (len: usize)
        requires
            0 <= self@.remaining() < i32::MAX,
        ensures
            len == self@.remaining(),
    {
        self.data.len() - self.cursor.pos
    }

    /// Moves the cursor to `pos`; `pos` is not held against the length of the
    /// data here, but by the reads that follow.
    pub fn set_data_position(&mut self, pos: usize)
        ensures
            final(self)@ == old(self)@.with_cursor(old(self)@.cursor.at(pos as nat)),
    {
        self.cursor.pos = pos;
    }
}

/// What can be read as a parcel is read: bytes at a cursor, beside an object
/// table with a lookup hint.
pub trait Readable {
    /// What the parcel holds. A type that does not say is held to nothing.
    open spec fn parcel(&self) -> ParcelView {
        arbitrary()
    }

    /// The offset of the next byte to read.
    fn data_position(&self) -> (pos: usize)
        ensures
            pos == self.parcel().cursor.pos,
    ;

    /// Reads the next `len` bytes, as many as asked for and no padding, and
    /// moves the cursor past them. Where fewer remain, this fails with *not
    /// enough data* and the parcel is as it was.
    fn read(&mut self, len: usize) -> (r: Result<&[u8]>)
        ensures
            match r {
                Ok(bytes) => {
                    &&& old(self).parcel().has(len as nat)
                    &&& bytes@ == old(self).parcel().at_cursor(len as nat)
                    &&& final(self).parcel() == old(self).parcel().advanced(len as nat)
                },
                Err(error) => {
                    &&& !old(self).parcel().has(len as nat)
                    &&& error.kind == ErrorKind::NotEnoughData
                    &&& final(self).parcel() == old(self).parcel()
                },
            },
    ;

    /// The object table.
    fn objects(&self) -> (objects: &[u64])
        ensures
            objects@ == self.parcel().objects,
    ;

    /// The lookup hint, to read and to set.
    fn next_object_hint(&mut self) -> (hint: &mut usize)
        ensures
            *hint == old(self).parcel().cursor.next_object_hint,
            final(self).parcel() == old(self).parcel().with_cursor(
                old(self).parcel().cursor.hinted(*final(hint) as nat),
            ),
    ;

    /// Records the length of the data as the position of the request header,
    /// the first time that it is called; later calls change nothing.
    fn update_work_source_request_header_pos(&mut self)
        ensures
            final(self).parcel() == old(self).parcel().with_cursor(
                old(self).parcel().cursor.header_seen(old(self).parcel().data.len()),
            ),
    ;
}

impl<'a> Readable for ImmutableParcel<'a> {
    open spec fn parcel(&self) -> ParcelView {
        self@
    }

    fn data_position(&self) -> (pos: usize) {
        self.cursor.pos
    }

    fn read(&mut self, len: usize) -> (r: Result<&[u8]>) {
        let pos: usize = self.cursor.pos;
        let data: &'a [u8] = self.data;
        let total: usize = data.len();
        if pos <= total && len <= total - pos {
            self.cursor.pos = pos + len;
            Ok(vstd::slice::slice_subrange(data, pos, pos + len))
        } else {
            Err(Error::from(ErrorKind::NotEnoughData))
        }
    }

    fn objects(&self) -> (objects: &[u64]) {
        self.objects
    }

    fn next_object_hint(&mut self) -> (hint: &mut usize) {
        &mut self.cursor.next_object_hint
    }

    fn update_work_source_request_header_pos(&mut self) {
        if !self.cursor.request_header_present {
            self.cursor.work_source_request_header_pos = self.data.len();
            self.cursor.request_header_present = true;
        }
    }
}

/// The error of the conversion of a slice to an array.
#[verifier::external_type_specification]
#[verifier::external_body]
pub struct ExTryFromSliceError(core::array::TryFromSliceError);

/// `<[u8; N] as TryFrom<&[u8]>>::try_from` of std: the array that holds the
/// bytes of a slice of exactly `N` bytes; it fails for a slice of any other
/// length.
#[verifier::external_body]
fn array_from_slice<const N: usize>(bytes: &[u8]) -> (r: core::result::Result<
    [u8; N],
    core::array::TryFromSliceError,
>)
    ensures
        r is Ok <==> bytes@.len() == N,
        r matches Ok(array) ==> array@ == bytes@,
{
    <[u8; N]>::try_from(bytes)
}

/// Whether reading an array of `count` bytes from the parcel `before` returns
/// `result` and leaves the parcel `after`. The padded bytes are taken as they
/// are: a count that is not a multiple of four is the failure *conversion*,
/// with the cursor behind the padded bytes.
pub open spec fn array_decodes(
    before: ParcelView,
    count: nat,
    result: Result<Seq<u8>>,
    after: ParcelView,
) -> bool {
    &&& after == before.read_data(count).1
    &&& match before.read_data(count).0 {
        Err(error) => result == Err::<Seq<u8>, Error>(error),
        Ok(bytes) => if bytes.len() == count {
            result == Ok::<Seq<u8>, Error>(bytes)
        } else {
            result matches Err(error) && error.kind == ErrorKind::Conversion
        },
    }
}

/// The reading side of a parcel: the bytes and the object table, which it
/// cannot change, and the cursor, which it moves.
///
/// Every operation leaves the reader on the cursor that it was made for: this
/// is what `*final(final(self).cursor) == *final(old(self).cursor)` says in the
/// contracts, and it is what lets a caller conclude from what was done to the
/// reader where the cursor of its parcel stands.
pub struct ReadableParcel<'a> {
    pub data: &'a [u8],
    pub objects: &'a [u64],
    pub cursor: &'a mut Cursor,
}

impl<'a> View for ReadableParcel<'a> {
    type V = ParcelView;

    open spec fn view(&self) -> ParcelView {
        ParcelView { data: self.data@, objects: self.objects@, cursor: self.cursor@ }
    }
}

impl<'a> ReadableParcel<'a> {
    /// The number of bytes from the cursor to the end.
    pub fn len(&self) -> (len: usize)
        requires
            0 <= self@.remaining() < i32::MAX,
        ensures
            len == self@.remaining(),
    {
        self.data.len() - self.cursor.pos
    }

    /// Reads the next `len` bytes, padded to a multiple of four, without
    /// copying them, and moves the cursor past them. Where fewer remain, this
    /// fails with *not enough data* and the parcel is as it was.
    pub fn read_data(&mut self, len: usize) -> (r: Result<&'a [u8]>)
        ensures
            *final(final(self).cursor) == *final(old(self).cursor),
            final(self)@ == old(self)@.read_data(len as nat).1,
            match r {
                Ok(bytes) => old(self)@.read_data(len as nat).0 == Ok::<Seq<u8>, Error>(bytes@),
                Err(error) => old(self)@.read_data(len as nat).0 == Err::<Seq<u8>, Error>(error),
            },
    {
        let pos: usize = self.cursor.pos;
        let data: &'a [u8] = self.data;
        let total: usize = data.len();
        match checked_pad_size(len) {
            Some(padded) => {
                if pos <= total && padded <= total - pos {
                    self.cursor.pos = pos + padded;
                    Ok(vstd::slice::slice_subrange(data, pos, pos + padded))
                } else {
                    Err(Error::from(ErrorKind::NotEnoughData))
                }
            },
            None => Err(Error::from(ErrorKind::NotEnoughData)),
        }
    }

    /// Reads the reference record at the cursor. A record without payload and
    /// cookie is accepted as it is, unless `null_meta` is set. Any other record
    /// must stand at an offset of the object table, which is searched from the
    /// lookup hint; where it does not, this fails with *bad type*.
    pub fn read_object(&mut self, null_meta: bool) -> (r: Result<FlatBinderObject>)
        ensures
            *final(final(self).cursor) == *final(old(self).cursor),
            (r, final(self)@) == old(self)@.read_object(null_meta),
    {
        let pos: usize = self.cursor.pos;
        let target: u64 = pos as u64;
        let bytes = self.read_data(FLAT_OBJECT_SIZE)?;
        let record = FlatBinderObject::from_bytes(bytes);
        if !null_meta && record.cookie == 0 && record.payload == 0 {
            return Ok(record);
        }
        let objects: &'a [u64] = self.objects;
        let count: usize = objects.len();
        let hint: usize = self.cursor.next_object_hint;
        let mut opos: usize = hint;
        if count > 0 {
            if opos < count {
                while opos < count - 1 && objects[opos] < target
                    invariant
                        count == objects@.len(),
                        hint <= opos < count,
                        scan_forward(objects@, opos as int, target as int) == scan_forward(
                            objects@,
                            hint as int,
                            target as int,
                        ),
                    decreases count - opos,
                {
                    opos = opos + 1;
                }
            } else {
                opos = count - 1;
            }
            if objects[opos] == target {
                self.cursor.next_object_hint = opos + 1;
                return Ok(record);
            }
            let ghost first: usize = opos;
            while opos > 0 && objects[opos] > target
                invariant
                    count == objects@.len(),
                    opos <= first < count,
                    scan_backward(objects@, opos as int, target as int) == scan_backward(
                        objects@,
                        first as int,
                        target as int,
                    ),
                decreases opos,
            {
                opos = opos - 1;
            }
            if objects[opos] == target {
                self.cursor.next_object_hint = opos + 1;
                return Ok(record);
            }
        }
        Err(Error::from(ErrorKind::BadType))
    }

    /// Records the length of the data as the position of the request header,
    /// the first time that it is called; later calls change nothing.
    pub fn update_work_source_request_header_pos(&mut self)
        ensures
            *final(final(self).cursor) == *final(old(self).cursor),
            final(self)@ == old(self)@.with_cursor(
                old(self)@.cursor.header_seen(old(self)@.data.len()),
            ),
    {
        if !self.cursor.request_header_present {
            self.cursor.work_source_request_header_pos = self.data.len();
            self.cursor.request_header_present = true;
        }
    }

    /// Reads an array of `N` bytes.
    pub fn read_array<const N: usize>(&mut self) -> (r: Result<[u8; N]>)
        ensures
            *final(final(self).cursor) == *final(old(self).cursor),
            array_decodes(
                old(self)@,
                N as nat,
                match r {
                    Ok(array) => Ok(array@),
                    Err(error) => Err(error),
                },
                final(self)@,
            ),
    {
        let bytes = self.read_data(N)?;
        match array_from_slice::<N>(bytes) {
            Ok(array) => Ok(array),
            Err(_) => Err(Error::from(ErrorKind::Conversion)),
        }
    }

    /// Reads a value of a type that can be read from a parcel.
    pub fn read<D: Deserialize>(&mut self) -> (r: Result<D>)
        ensures
            *final(final(self).cursor) == *final(old(self).cursor),
            old(self)@.same_contents(final(self)@),
            D::decodes(old(self)@, r, final(self)@),
    {
        D::deserialize(self)
    }
}

impl<'a, 'b, const N: usize> TryFrom<&'b mut ReadableParcel<'a>> for [u8; N] {
    type Error = Error;

    /// Reads an array of `N` bytes from `parcel`.
    fn try_from(parcel: &'b mut ReadableParcel<'a>) -> (r: Result<[u8; N]>)
        ensures
            *final(final(parcel).cursor) == *final(old(parcel).cursor),
            array_decodes(
                old(parcel)@,
                N as nat,
                match r {
                    Ok(array) => Ok(array@),
                    Err(error) => Err(error),
                },
                final(parcel)@,
            ),
    {
        parcel.read_array::<N>()
    }
}

/// The conversion moves the cursor of the parcel, which no function of the
/// argument alone can say: the contract of `try_from` says what it does.
impl<'a, 'b, const N: usize> TryFromSpecImpl<&'b mut ReadableParcel<'a>> for [u8; N] {
    open spec fn obeys_try_from_spec() -> bool {
        false
    }

    open spec fn try_from_spec(parcel: &'b mut ReadableParcel<'a>) -> Result<[u8; N]> {
        arbitrary()
    }
}

} // verus!
