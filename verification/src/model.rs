//! The mathematical model of a parcel: what it holds, and what reading and
//! writing do to it.

use vstd::prelude::*;
use crate::error::{Error, ErrorKind, Result};
use crate::record::{record_of, FlatBinderObject, FLAT_OBJECT_SIZE};
use crate::wire::pad;

verus! {

/// Where a parcel is being read, and what it remembers between reads.
#[derive(Clone, Copy, Debug, PartialEq, Eq, Structural)]
pub struct Cursor {
    /// The offset of the next byte to read.
    pub pos: usize,
    /// The index in the object table at which the next lookup starts.
    pub next_object_hint: usize,
    /// Whether the position of the request header has been recorded.
    pub request_header_present: bool,
    /// The recorded position of the request header.
    pub work_source_request_header_pos: usize,
}

/// A cursor as numbers without bounds.
pub struct CursorView {
    pub pos: nat,
    pub next_object_hint: nat,
    pub request_header_present: bool,
    pub work_source_request_header_pos: nat,
}

impl View for Cursor {
    type V = CursorView;

    open spec fn view(&self) -> CursorView {
        CursorView {
            pos: self.pos as nat,
            next_object_hint: self.next_object_hint as nat,
            request_header_present: self.request_header_present,
            work_source_request_header_pos: self.work_source_request_header_pos as nat,
        }
    }
}

impl CursorView {
    /// The cursor of a fresh parcel.
    pub open spec fn start() -> CursorView {
        CursorView {
            pos: 0,
            next_object_hint: 0,
            request_header_present: false,
            work_source_request_header_pos: 0,
        }
    }

    /// This cursor moved to `pos`.
    pub open spec fn at(self, pos: nat) -> CursorView {
        CursorView { pos, ..self }
    }

    /// This cursor with the lookup hint `hint`.
    pub open spec fn hinted(self, hint: nat) -> CursorView {
        CursorView { next_object_hint: hint, ..self }
    }

    /// This cursor after the request header was seen at `pos`: the first
    /// position seen is kept.
    pub open spec fn header_seen(self, pos: nat) -> CursorView {
        if self.request_header_present {
            self
        } else {
            CursorView { request_header_present: true, work_source_request_header_pos: pos, ..self }
        }
    }
}

impl Cursor {
    /// The cursor of a fresh parcel.
    pub fn new() -> (cursor: Cursor)
        ensures
            cursor@ == CursorView::start(),
    {
        Cursor {
            pos: 0,
            next_object_hint: 0,
            request_header_present: false,
            work_source_request_header_pos: 0,
        }
    }
}

/// The index at which a scan of `objects` stops that starts at `from` and moves
/// forward while the offset there is below `target` and is not the last.
pub open spec fn scan_forward(objects: Seq<u64>, from: int, target: int) -> int
    decreases objects.len() - from,
{
    if 0 <= from < objects.len() - 1 && objects[from] < target {
        scan_forward(objects, from + 1, target)
    } else {
        from
    }
}

/// The index at which a scan of `objects` stops that starts at `from` and moves
/// backward while the offset there is above `target` and is not the first.
pub open spec fn scan_backward(objects: Seq<u64>, from: int, target: int) -> int
    decreases from,
{
    if 0 < from < objects.len() && objects[from] > target {
        scan_backward(objects, from - 1, target)
    } else {
        from
    }
}

/// The index at which a lookup of `target` in `objects` finds it, if it does.
/// The lookup scans forward from `hint` (from the last index, where `hint` lies
/// beyond the table), and backward from where that scan stopped if `target` is
/// not there.
pub open spec fn lookup(objects: Seq<u64>, hint: int, target: int) -> Option<int> {
    if objects.len() == 0 {
        None
    } else {
        let first = if 0 <= hint < objects.len() {
            scan_forward(objects, hint, target)
        } else {
            objects.len() - 1
        };
        if objects[first] == target {
            Some(first)
        } else {
            let second = scan_backward(objects, first, target);
            if objects[second] == target {
                Some(second)
            } else {
                None
            }
        }
    }
}

/// What a parcel holds: the bytes, the object table and the cursor.
pub struct ParcelView {
    pub data: Seq<u8>,
    pub objects: Seq<u64>,
    pub cursor: CursorView,
}

impl ParcelView {
    /// The number of bytes from the cursor to the end; negative where the
    /// cursor lies beyond the end.
    pub open spec fn remaining(self) -> int {
        self.data.len() - self.cursor.pos
    }

    /// Whether `len` bytes remain from the cursor.
    pub open spec fn has(self, len: nat) -> bool {
        self.cursor.pos + len <= self.data.len()
    }

    /// The `len` bytes at the cursor.
    pub open spec fn at_cursor(self, len: nat) -> Seq<u8> {
        self.data.subrange(self.cursor.pos as int, (self.cursor.pos + len) as int)
    }

    /// This parcel with the cursor `len` bytes further.
    pub open spec fn advanced(self, len: nat) -> ParcelView {
        ParcelView { cursor: self.cursor.at(self.cursor.pos + len), ..self }
    }

    /// This parcel with another cursor.
    pub open spec fn with_cursor(self, cursor: CursorView) -> ParcelView {
        ParcelView { cursor, ..self }
    }

    /// This parcel with `bytes` appended.
    pub open spec fn appended(self, bytes: Seq<u8>) -> ParcelView {
        ParcelView { data: self.data + bytes, ..self }
    }

    /// This parcel with `offset` added to the object table.
    pub open spec fn registered(self, offset: u64) -> ParcelView {
        ParcelView { objects: self.objects.push(offset), ..self }
    }

    /// Whether `other` holds all that this parcel holds, in the same places,
    /// and perhaps more after it, with the same cursor.
    pub open spec fn grown_into(self, other: ParcelView) -> bool {
        &&& self.data.is_prefix_of(other.data)
        &&& self.objects.is_prefix_of(other.objects)
        &&& self.cursor == other.cursor
    }

    /// Whether `other` holds the bytes and the object table of this parcel;
    /// the cursors may differ.
    pub open spec fn same_contents(self, other: ParcelView) -> bool {
        self.data == other.data && self.objects == other.objects
    }

    /// Whether the object table is strictly increasing.
    pub open spec fn table_sorted(self) -> bool {
        forall|i: int, j: int| 0 <= i < j < self.objects.len() ==> self.objects[i] < self.objects[j]
    }

    /// Whether every offset in the object table is the start of a record that
    /// lies within the bytes.
    pub open spec fn table_in_bounds(self) -> bool {
        forall|i: int|
            0 <= i < self.objects.len() ==> #[trigger] self.objects[i] + FLAT_OBJECT_SIZE
                <= self.data.len()
    }

    /// Whether `offset` is in the object table.
    pub open spec fn is_registered(self, offset: int) -> bool {
        exists|i: int| 0 <= i < self.objects.len() && #[trigger] self.objects[i] == offset
    }

    /// Whether the object table is valid: strictly increasing, each offset the
    /// start of a record that lies within the bytes.
    pub open spec fn well_formed(self) -> bool {
        self.table_sorted() && self.table_in_bounds()
    }

    /// The index in the object table at which `offset` stands.
    pub open spec fn index_of(self, offset: int) -> int {
        choose|i: int| 0 <= i < self.objects.len() && #[trigger] self.objects[i] == offset
    }

    /// What reading `len` bytes does: the bytes at the cursor, padded to a
    /// multiple of four, with the cursor moved past them; or, where fewer
    /// remain, *not enough data* with nothing changed.
    pub open spec fn read_data(self, len: nat) -> (Result<Seq<u8>>, ParcelView) {
        if self.has(pad(len)) {
            (Ok(self.at_cursor(pad(len))), self.advanced(pad(len)))
        } else {
            (Err(Error { kind: ErrorKind::NotEnoughData }), self)
        }
    }

    /// What reading a reference record does. Where fewer than 24 bytes remain:
    /// *not enough data*, with nothing changed. Else the cursor moves past the
    /// record. A record without payload and cookie is accepted as it is, unless
    /// `null_meta` asks for it to be registered. Any other record must stand at
    /// an offset that the lookup finds in the object table: the lookup hint then
    /// becomes the index after it. Where it finds none: *bad type*.
    pub open spec fn read_object(self, null_meta: bool) -> (Result<FlatBinderObject>, ParcelView) {
        if !self.has(FLAT_OBJECT_SIZE as nat) {
            (Err(Error { kind: ErrorKind::NotEnoughData }), self)
        } else {
            let record = record_of(self.at_cursor(FLAT_OBJECT_SIZE as nat));
            let next = self.advanced(FLAT_OBJECT_SIZE as nat);
            if !null_meta && record.is_null() {
                (Ok(record), next)
            } else {
                let hint = self.cursor.next_object_hint as int;
                match lookup(self.objects, hint, self.cursor.pos as int) {
                    Some(index) => (
                        Ok(record),
                        next.with_cursor(next.cursor.hinted((index + 1) as nat)),
                    ),
                    None => (Err(Error { kind: ErrorKind::BadType }), next),
                }
            }
        }
    }

    /// What writing a reference record does: its 24 bytes are appended, and the
    /// offset at which they start is added to the object table if the record
    /// has a payload or `null_meta` asks for it.
    pub open spec fn write_object(self, record: FlatBinderObject, null_meta: bool) -> ParcelView {
        let written = self.appended(record.bytes());
        if null_meta || record.payload != 0 {
            written.registered(self.data.len() as u64)
        } else {
            written
        }
    }

    /// The descriptor numbers that the first `upto` offsets of the object table
    /// name: those of the records there that lie within the bytes and carry a
    /// file descriptor, in the order of the table.
    pub open spec fn file_descriptors_upto(self, upto: nat) -> Seq<u32>
        decreases upto,
    {
        if upto == 0 {
            Seq::empty()
        } else {
            let before = self.file_descriptors_upto((upto - 1) as nat);
            let offset = self.objects[upto - 1] as int;
            if offset + FLAT_OBJECT_SIZE <= self.data.len() && self.record_at(offset).is_fd() {
                before.push(self.record_at(offset).handle())
            } else {
                before
            }
        }
    }

    /// The descriptor numbers that the object table names.
    pub open spec fn file_descriptors(self) -> Seq<u32> {
        self.file_descriptors_upto(self.objects.len())
    }

    /// The record that the 24 bytes at `offset` hold.
    pub open spec fn record_at(self, offset: int) -> FlatBinderObject {
        record_of(self.data.subrange(offset, offset + FLAT_OBJECT_SIZE))
    }
}

} // verus!
