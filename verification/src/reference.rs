//! References as values: what a reference record refers to, and how a
//! reference is written to a parcel and read from one.

use vstd::prelude::*;
use crate::error::{Error, ErrorKind, Result};
use crate::model::ParcelView;
use crate::parcel::{ReadableParcel, WritableParcel};
use crate::parcelable::{Deserialize, DeserializeOption, Serialize, SerializeOption};
use crate::record::{
    FlatBinderObject, BINDER_TYPE_BINDER, BINDER_TYPE_FD, BINDER_TYPE_HANDLE,
    BINDER_TYPE_WEAK_BINDER, BINDER_TYPE_WEAK_HANDLE,
};

verus! {

/// What a reference record refers to.
#[derive(Clone, Copy, Debug, PartialEq, Eq, Structural)]
pub enum Reference {
    /// An object of this process, by the two numbers under which the process
    /// knows it.
    Local { binder: u64, cookie: u64 },
    /// An object of another process, by its handle.
    Remote { handle: u32 },
    /// A file descriptor; a cookie other than zero says that whoever holds the
    /// record owns the descriptor.
    FileDescriptor { fd: u32, cookie: u64 },
}

/// The reference that `record` stands for: none for a record of a local
/// object without payload and cookie, and *bad type* for a tag that is none of
/// the tags of references.
pub open spec fn reference_of(record: FlatBinderObject) -> Result<Option<Reference>> {
    if record.type_ == BINDER_TYPE_BINDER || record.type_ == BINDER_TYPE_WEAK_BINDER {
        if record.is_null() {
            Ok(None)
        } else {
            Ok(Some(Reference::Local { binder: record.payload, cookie: record.cookie }))
        }
    } else if record.type_ == BINDER_TYPE_HANDLE || record.type_ == BINDER_TYPE_WEAK_HANDLE {
        Ok(Some(Reference::Remote { handle: record.handle() }))
    } else if record.type_ == BINDER_TYPE_FD {
        Ok(Some(Reference::FileDescriptor { fd: record.handle(), cookie: record.cookie }))
    } else {
        Err(Error { kind: ErrorKind::BadType })
    }
}

/// The record of an optional reference: that of the reference, or the record
/// that stands for no reference.
pub open spec fn record_of_option(reference: Option<Reference>) -> FlatBinderObject {
    match reference {
        Some(reference) => reference.record(),
        None => FlatBinderObject { type_: BINDER_TYPE_BINDER, flags: 0, payload: 0, cookie: 0 },
    }
}

impl Reference {
    /// The record that stands for this reference.
    pub open spec fn record(self) -> FlatBinderObject {
        match self {
            Reference::Local { binder, cookie } => FlatBinderObject {
                type_: BINDER_TYPE_BINDER,
                flags: 0,
                payload: binder,
                cookie,
            },
            Reference::Remote { handle } => FlatBinderObject {
                type_: BINDER_TYPE_HANDLE,
                flags: 0,
                payload: handle as u64,
                cookie: 0,
            },
            Reference::FileDescriptor { fd, cookie } => FlatBinderObject {
                type_: BINDER_TYPE_FD,
                flags: 0,
                payload: fd as u64,
                cookie,
            },
        }
    }

    /// Whether the record of this reference is looked up in the object table
    /// even where it has neither payload nor cookie: so it is for a file
    /// descriptor, whose number may be zero.
    pub open spec fn spec_null_meta(self) -> bool {
        self is FileDescriptor
    }

    /// The record that stands for this reference.
    pub fn to_record(self) -> (record: FlatBinderObject)
        ensures
            record == self.record(),
    {
        match self {
            Reference::Local { binder, cookie } => FlatBinderObject::from_local(binder, cookie),
            Reference::Remote { handle } => FlatBinderObject::from_handle(handle),
            Reference::FileDescriptor { fd, cookie } => FlatBinderObject::from_fd(fd, cookie),
        }
    }

    /// The reference that `record` stands for.
    pub fn from_record(record: FlatBinderObject) -> (r: Result<Option<Reference>>)
        ensures
            r == reference_of(record),
    {
        if record.type_ == BINDER_TYPE_BINDER || record.type_ == BINDER_TYPE_WEAK_BINDER {
            if record.is_null() {
                Ok(None)
            } else {
                Ok(Some(Reference::Local { binder: record.payload, cookie: record.cookie }))
            }
        } else if record.type_ == BINDER_TYPE_HANDLE || record.type_ == BINDER_TYPE_WEAK_HANDLE {
            Ok(Some(Reference::Remote { handle: record.handle() }))
        } else if record.type_ == BINDER_TYPE_FD {
            Ok(Some(Reference::FileDescriptor { fd: record.handle(), cookie: record.cookie }))
        } else {
            Err(Error::from(ErrorKind::BadType))
        }
    }

    /// Whether the record of this reference is looked up in the object table
    /// even where it has neither payload nor cookie.
    #[verifier::when_used_as_spec(spec_null_meta)]
    pub fn null_meta(self) -> (null_meta: bool)
        ensures
            null_meta == self.spec_null_meta(),
    {
        match self {
            Reference::FileDescriptor { .. } => true,
            _ => false,
        }
    }
}

/// The record of a reference stands for that reference, unless the reference
/// is to a local object with neither payload nor cookie: its record is the one
/// that stands for no reference.
pub proof fn lemma_reference_round_trip(reference: Reference)
    requires
        !(reference is Local && reference.record().is_null()),
    ensures
        reference_of(reference.record()) == Ok::<Option<Reference>, Error>(Some(reference)),
{
}

/// The record that stands for no reference is read as none.
pub proof fn lemma_null_reference_round_trip()
    ensures
        reference_of(record_of_option(None)) == Ok::<Option<Reference>, Error>(None),
{
}

/// Whether reading an optional reference from the parcel `before` returns
/// `result` and leaves the parcel `after`: the record at the cursor is read,
/// without a lookup where it has neither payload nor cookie, and stands for
/// the reference.
pub open spec fn reference_decodes(
    before: ParcelView,
    result: Result<Option<Reference>>,
    after: ParcelView,
) -> bool {
    match before.read_object(false) {
        (Err(error), next) => result == Err::<Option<Reference>, Error>(error) && after == next,
        (Ok(record), next) => result == reference_of(record) && after == next,
    }
}

impl Serialize for Reference {
    open spec fn encodable(&self) -> bool {
        true
    }

    open spec fn written(&self, parcel: ParcelView) -> ParcelView {
        parcel.write_object(self.record(), self.null_meta())
    }

    fn serialize(&self, parcel: &mut WritableParcel<'_>) -> (r: Result<()>) {
        let record = self.to_record();
        parcel.write_object(&record, self.null_meta())
    }
}

impl SerializeOption for Reference {
    /// An absent reference is written as the record that stands for no
    /// reference, which the object table does not track.
    open spec fn option_written(this: Option<&Self>, parcel: ParcelView) -> ParcelView {
        match this {
            Some(reference) => reference.written(parcel),
            None => parcel.write_object(record_of_option(None), false),
        }
    }

    fn serialize_option(this: Option<&Self>, parcel: &mut WritableParcel<'_>) -> (r: Result<()>) {
        match this {
            Some(reference) => reference.serialize(parcel),
            None => {
                let record = FlatBinderObject::null();
                parcel.write_object(&record, false)
            },
        }
    }
}

impl DeserializeOption for Reference {
    open spec fn option_decodes(
        before: ParcelView,
        result: Result<Option<Self>>,
        after: ParcelView,
    ) -> bool {
        reference_decodes(before, result, after)
    }

    fn deserialize_option(parcel: &mut ReadableParcel<'_>) -> (r: Result<Option<Self>>) {
        let record = parcel.read_object(false)?;
        Reference::from_record(record)
    }
}

impl Deserialize for Reference {
    /// A reference that must be present is read as an optional one: the
    /// record that stands for no reference is the failure *unexpected null*.
    open spec fn decodes(before: ParcelView, result: Result<Self>, after: ParcelView) -> bool {
        match result {
            Ok(reference) => reference_decodes(before, Ok(Some(reference)), after),
            Err(error) => reference_decodes(before, Err(error), after) || (error.kind
                == ErrorKind::UnexpectedNull && reference_decodes(before, Ok(None), after)),
        }
    }

    fn deserialize(parcel: &mut ReadableParcel<'_>) -> (r: Result<Self>) {
        match Reference::deserialize_option(parcel) {
            Ok(Some(reference)) => Ok(reference),
            Ok(None) => Err(Error::from(ErrorKind::UnexpectedNull)),
            Err(error) => Err(error),
        }
    }
}

/// Whether reading a file descriptor from the parcel `before` returns `result`
/// and leaves the parcel `after`: the record at the cursor must be registered
/// in the object table and carry a file descriptor, else the read fails with
/// *bad type*.
pub open spec fn descriptor_decodes(before: ParcelView, result: Result<u32>, after: ParcelView)
    -> bool {
    match before.read_object(true) {
        (Err(error), next) => result == Err::<u32, Error>(error) && after == next,
        (Ok(record), next) => after == next && if record.is_fd() {
            result == Ok::<u32, Error>(record.handle())
        } else {
            result == Err::<u32, Error>(Error { kind: ErrorKind::BadType })
        },
    }
}

/// Reads the number of the file descriptor whose record stands at the cursor.
pub fn read_file_descriptor(parcel: &mut ReadableParcel<'_>) -> (r: Result<u32>)
    ensures
        *final(final(parcel).cursor) == *final(old(parcel).cursor),
        old(parcel)@.same_contents(final(parcel)@),
        descriptor_decodes(old(parcel)@, r, final(parcel)@),
{
    let record = parcel.read_object(true)?;
    if record.is_fd() {
        Ok(record.handle())
    } else {
        Err(Error::from(ErrorKind::BadType))
    }
}

} // verus!
