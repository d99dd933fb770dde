//! The fixed-width record that describes one reference embedded in a buffer.

use vstd::prelude::*;
use crate::wire::{
    get_le, le_bytes, le_value, lemma_le_bytes_len, lemma_le_bytes_of_value, lemma_le_limits,
    lemma_le_value_bound, lemma_le_value_of_bytes, put_le,
};

verus! {

/// The tag of a record that refers to an object of this process by its address.
pub const BINDER_TYPE_BINDER: u32 = 0x7362_2a85;

/// The tag of a record that refers weakly to an object of this process.
pub const BINDER_TYPE_WEAK_BINDER: u32 = 0x7762_2a85;

/// The tag of a record that refers to a remote object by its handle.
pub const BINDER_TYPE_HANDLE: u32 = 0x7368_2a85;

/// The tag of a record that refers weakly to a remote object.
pub const BINDER_TYPE_WEAK_HANDLE: u32 = 0x7768_2a85;

/// The tag of a record that carries a file descriptor.
pub const BINDER_TYPE_FD: u32 = 0x6664_2a85;

/// The number of bytes that a record occupies in a buffer.
pub const FLAT_OBJECT_SIZE: usize = 24;

/// One reference as the kernel structure lays it out: a tag, flags, an
/// eight-byte payload (an address, a handle or a descriptor number, by the tag)
/// and an eight-byte cookie. Every field is stored least significant byte first.
#[derive(Clone, Copy, Debug, PartialEq, Eq, Structural)]
pub struct FlatBinderObject {
    pub type_: u32,
    pub flags: u32,
    pub payload: u64,
    pub cookie: u64,
}

/// The record that 24 bytes hold, field by field at fixed offsets.
pub open spec fn record_of(bytes: Seq<u8>) -> FlatBinderObject {
    FlatBinderObject {
        type_: le_value(bytes.subrange(0, 4)) as u32,
        flags: le_value(bytes.subrange(4, 8)) as u32,
        payload: le_value(bytes.subrange(8, 16)) as u64,
        cookie: le_value(bytes.subrange(16, 24)) as u64,
    }
}

impl FlatBinderObject {
    /// The 24 bytes of this record.
    pub open spec fn bytes(self) -> Seq<u8> {
        le_bytes(self.type_ as nat, 4) + le_bytes(self.flags as nat, 4) + le_bytes(
            self.payload as nat,
            8,
        ) + le_bytes(self.cookie as nat, 8)
    }

    /// The payload read as a handle or a descriptor number: its low 32 bits.
    pub open spec fn spec_handle(self) -> u32 {
        (self.payload % 0x1_0000_0000) as u32
    }

    /// Whether the record stands for no reference: payload and cookie are both zero.
    pub open spec fn spec_is_null(self) -> bool {
        self.payload == 0 && self.cookie == 0
    }

    /// Whether the record carries a file descriptor.
    pub open spec fn spec_is_fd(self) -> bool {
        self.type_ == BINDER_TYPE_FD
    }

    /// A record that refers to the remote object `handle`.
    pub fn from_handle(handle: u32) -> (record: FlatBinderObject)
        ensures
            record == (FlatBinderObject {
                type_: BINDER_TYPE_HANDLE,
                flags: 0,
                payload: handle as u64,
                cookie: 0,
            }),
            record.spec_handle() == handle,
    {
        FlatBinderObject { type_: BINDER_TYPE_HANDLE, flags: 0, payload: handle as u64, cookie: 0 }
    }

    /// A record that refers to the object of this process at `binder`, with `cookie`.
    pub fn from_local(binder: u64, cookie: u64) -> (record: FlatBinderObject)
        ensures
            record == (FlatBinderObject {
                type_: BINDER_TYPE_BINDER,
                flags: 0,
                payload: binder,
                cookie,
            }),
    {
        FlatBinderObject { type_: BINDER_TYPE_BINDER, flags: 0, payload: binder, cookie }
    }

    /// A record that carries the file descriptor `fd`; a non-zero `cookie` marks
    /// the descriptor as owned by the buffer.
    pub fn from_fd(fd: u32, cookie: u64) -> (record: FlatBinderObject)
        ensures
            record == (FlatBinderObject {
                type_: BINDER_TYPE_FD,
                flags: 0,
                payload: fd as u64,
                cookie,
            }),
            record.spec_handle() == fd,
            record.spec_is_fd(),
    {
        FlatBinderObject { type_: BINDER_TYPE_FD, flags: 0, payload: fd as u64, cookie }
    }

    /// The record that stands for no reference.
    pub fn null() -> (record: FlatBinderObject)
        ensures
            record == (FlatBinderObject {
                type_: BINDER_TYPE_BINDER,
                flags: 0,
                payload: 0,
                cookie: 0,
            }),
            record.spec_is_null(),
    {
        FlatBinderObject { type_: BINDER_TYPE_BINDER, flags: 0, payload: 0, cookie: 0 }
    }

    /// The payload read as a handle or a descriptor number.
    #[verifier::when_used_as_spec(spec_handle)]
    pub fn handle(self) -> (handle: u32)
        ensures
            handle == self.spec_handle(),
    {
        (self.payload % 0x1_0000_0000) as u32
    }

    /// Whether the record stands for no reference.
    #[verifier::when_used_as_spec(spec_is_null)]
    pub fn is_null(self) -> (null: bool)
        ensures
            null == self.spec_is_null(),
    {
        self.payload == 0 && self.cookie == 0
    }

    /// Whether the record carries a file descriptor.
    #[verifier::when_used_as_spec(spec_is_fd)]
    pub fn is_fd(self) -> (fd: bool)
        ensures
            fd == self.spec_is_fd(),
    {
        self.type_ == BINDER_TYPE_FD
    }

    /// Packs the record into its 24 bytes.
    pub fn to_bytes(&self) -> (bytes: Vec<u8>)
        ensures
            bytes@ == self.bytes(),
            bytes@.len() == FLAT_OBJECT_SIZE,
    {
        let mut bytes: Vec<u8> = Vec::with_capacity(FLAT_OBJECT_SIZE);
        put_le(&mut bytes, self.type_ as u64, 4);
        put_le(&mut bytes, self.flags as u64, 4);
        put_le(&mut bytes, self.payload, 8);
        put_le(&mut bytes, self.cookie, 8);
        proof {
            lemma_record_bytes_len(*self);
            assert(bytes@ =~= self.bytes());
        }
        bytes
    }

    /// Unpacks the record that `bytes` hold.
    pub fn from_bytes(bytes: &[u8]) -> (record: FlatBinderObject)
        requires
            bytes@.len() == FLAT_OBJECT_SIZE,
        ensures
            record == record_of(bytes@),
    {
        proof {
            lemma_le_limits();
            lemma_le_value_bound(bytes@.subrange(0, 4));
            lemma_le_value_bound(bytes@.subrange(4, 8));
            lemma_le_value_bound(bytes@.subrange(8, 16));
            lemma_le_value_bound(bytes@.subrange(16, 24));
        }
        let type_: u64 = get_le(vstd::slice::slice_subrange(bytes, 0, 4));
        let flags: u64 = get_le(vstd::slice::slice_subrange(bytes, 4, 8));
        let payload: u64 = get_le(vstd::slice::slice_subrange(bytes, 8, 16));
        let cookie: u64 = get_le(vstd::slice::slice_subrange(bytes, 16, 24));
        FlatBinderObject { type_: type_ as u32, flags: flags as u32, payload, cookie }
    }
}

/// A record occupies exactly 24 bytes.
pub proof fn lemma_record_bytes_len(record: FlatBinderObject)
    ensures
        record.bytes().len() == FLAT_OBJECT_SIZE,
{
    lemma_le_bytes_len(record.type_ as nat, 4);
    lemma_le_bytes_len(record.flags as nat, 4);
    lemma_le_bytes_len(record.payload as nat, 8);
    lemma_le_bytes_len(record.cookie as nat, 8);
}

/// Unpacking the bytes of a record gives the record back.
pub proof fn lemma_record_round_trip(record: FlatBinderObject)
    ensures
        record_of(record.bytes()) == record,
{
    let t = le_bytes(record.type_ as nat, 4);
    let f = le_bytes(record.flags as nat, 4);
    let p = le_bytes(record.payload as nat, 8);
    let c = le_bytes(record.cookie as nat, 8);
    lemma_record_bytes_len(record);
    lemma_le_bytes_len(record.type_ as nat, 4);
    lemma_le_bytes_len(record.flags as nat, 4);
    lemma_le_bytes_len(record.payload as nat, 8);
    lemma_le_bytes_len(record.cookie as nat, 8);
    lemma_le_limits();
    lemma_le_value_of_bytes(record.type_ as nat, 4);
    lemma_le_value_of_bytes(record.flags as nat, 4);
    lemma_le_value_of_bytes(record.payload as nat, 8);
    lemma_le_value_of_bytes(record.cookie as nat, 8);
    assert(record.bytes().subrange(0, 4) =~= t);
    assert(record.bytes().subrange(4, 8) =~= f);
    assert(record.bytes().subrange(8, 16) =~= p);
    assert(record.bytes().subrange(16, 24) =~= c);
}

/// Packing the record that 24 bytes hold gives the bytes back.
pub proof fn lemma_bytes_round_trip(bytes: Seq<u8>)
    requires
        bytes.len() == FLAT_OBJECT_SIZE,
    ensures
        record_of(bytes).bytes() == bytes,
{
    lemma_le_limits();
    lemma_le_value_bound(bytes.subrange(0, 4));
    lemma_le_value_bound(bytes.subrange(4, 8));
    lemma_le_value_bound(bytes.subrange(8, 16));
    lemma_le_value_bound(bytes.subrange(16, 24));
    lemma_le_bytes_of_value(bytes.subrange(0, 4));
    lemma_le_bytes_of_value(bytes.subrange(4, 8));
    lemma_le_bytes_of_value(bytes.subrange(8, 16));
    lemma_le_bytes_of_value(bytes.subrange(16, 24));
    assert(record_of(bytes).bytes() =~= bytes);
}

} // verus!
