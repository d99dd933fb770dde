//! The marshal contract: what it is for a type to be written to a parcel and
//! read from one, and how optional values, structured values and
//! enumerations are marshaled.

use vstd::prelude::*;
use crate::error::{Error, ErrorKind, Result};
use crate::model::ParcelView;
use crate::parcel::{ReadableParcel, WritableParcel};
use crate::scalar::Scalar;

verus! {

/// A type whose values can be written to a parcel.
pub trait Serialize {
    /// Whether this value has an encoding. A type that does not say is held
    /// to nothing.
    open spec fn encodable(&self) -> bool {
        arbitrary()
    }

    /// The parcel after this value was written to `parcel`. A type that does
    /// not say is held to nothing.
    open spec fn written(&self, parcel: ParcelView) -> ParcelView {
        arbitrary()
    }

    /// Writes this value at the end of `parcel`. What the parcel held stays
    /// where it was, whether or not the value could be written.
    fn serialize(&self, parcel: &mut WritableParcel<'_>) -> (r: Result<()>)
        ensures
            *final(final(parcel).inner) == *final(old(parcel).inner),
            old(parcel)@.grown_into(final(parcel)@),
            old(parcel)@.well_formed() ==> final(parcel)@.well_formed(),
            r is Ok <==> self.encodable(),
            r is Ok ==> final(parcel)@ == self.written(old(parcel)@),
    ;
}

/// A type whose values can be read from a parcel.
pub trait Deserialize: Sized {
    /// Whether reading a value of this type from the parcel `before` returns
    /// `result` and leaves the parcel `after`. A type that does not say is held
    /// to nothing.
    open spec fn decodes(before: ParcelView, result: Result<Self>, after: ParcelView) -> bool {
        arbitrary()
    }

    /// Reads a value at the cursor of `parcel`.
    fn deserialize(parcel: &mut ReadableParcel<'_>) -> (r: Result<Self>)
        ensures
            *final(final(parcel).cursor) == *final(old(parcel).cursor),
            old(parcel)@.same_contents(final(parcel)@),
            Self::decodes(old(parcel)@, r, final(parcel)@),
    ;
}

/// The flag that stands before the encoding of an optional value that is absent.
pub const NULL_PARCELABLE_FLAG: i32 = 0;

/// The flag that stands before the encoding of an optional value that is present.
pub const NON_NULL_PARCELABLE_FLAG: i32 = 1;

/// A type whose optional values can be written to a parcel. The type chooses
/// how absence is encoded.
pub trait SerializeOption: Serialize {
    /// The parcel after the optional value `this` was written to `parcel`. A
    /// type that does not say is held to nothing.
    open spec fn option_written(this: Option<&Self>, parcel: ParcelView) -> ParcelView {
        arbitrary()
    }

    /// Writes the optional value `this` at the end of `parcel`.
    fn serialize_option(this: Option<&Self>, parcel: &mut WritableParcel<'_>) -> (r: Result<()>)
        ensures
            *final(final(parcel).inner) == *final(old(parcel).inner),
            old(parcel)@.grown_into(final(parcel)@),
            old(parcel)@.well_formed() ==> final(parcel)@.well_formed(),
            r is Ok <==> (this matches Some(value) ==> value.encodable()),
            r is Ok ==> final(parcel)@ == Self::option_written(this, old(parcel)@),
    ;
}

/// A type whose optional values can be read from a parcel.
pub trait DeserializeOption: Deserialize {
    /// Whether reading an optional value of this type from the parcel `before`
    /// returns `result` and leaves the parcel `after`. A type that does not
    /// say is held to nothing.
    open spec fn option_decodes(
        before: ParcelView,
        result: Result<Option<Self>>,
        after: ParcelView,
    ) -> bool {
        arbitrary()
    }

    /// Reads an optional value at the cursor of `parcel`.
    fn deserialize_option(parcel: &mut ReadableParcel<'_>) -> (r: Result<Option<Self>>)
        ensures
            *final(final(parcel).cursor) == *final(old(parcel).cursor),
            old(parcel)@.same_contents(final(parcel)@),
            Self::option_decodes(old(parcel)@, r, final(parcel)@),
    ;
}

impl<T: SerializeOption> Serialize for Option<T> {
    open spec fn encodable(&self) -> bool {
        self matches Some(value) ==> value.encodable()
    }

    open spec fn written(&self, parcel: ParcelView) -> ParcelView {
        T::option_written(
            match self {
                Some(value) => Some(value),
                None => None,
            },
            parcel,
        )
    }

    fn serialize(&self, parcel: &mut WritableParcel<'_>) -> (r: Result<()>) {
        T::serialize_option(self.as_ref(), parcel)
    }
}

impl<T: DeserializeOption> Deserialize for Option<T> {
    open spec fn decodes(before: ParcelView, result: Result<Option<T>>, after: ParcelView) -> bool {
        T::option_decodes(before, result, after)
    }

    fn deserialize(parcel: &mut ReadableParcel<'_>) -> (r: Result<Option<T>>) {
        T::deserialize_option(parcel)
    }
}

/// The parcel after the optional value `this` was written to `parcel` behind a
/// flag: the flag for a present value and the encoding of the value, or the
/// flag for an absent value and no more.
pub open spec fn flagged_written<T: Serialize + ?Sized>(this: Option<&T>, parcel: ParcelView)
    -> ParcelView {
    match this {
        Some(value) => value.written(Scalar::I32(NON_NULL_PARCELABLE_FLAG).written(parcel)),
        None => Scalar::I32(NULL_PARCELABLE_FLAG).written(parcel),
    }
}

/// Whether reading an optional value behind a flag from the parcel `before`
/// returns `result` and leaves the parcel `after`. The flag for an absent value
/// gives an absent value; any other flag is followed by the value.
pub open spec fn flagged_decodes<T: Deserialize>(
    before: ParcelView,
    result: Result<Option<T>>,
    after: ParcelView,
) -> bool {
    match Scalar::I32(0).read(before) {
        (Err(error), next) => result == Err::<Option<T>, Error>(error) && after == next,
        (Ok(flag), next) => if flag == Scalar::I32(NULL_PARCELABLE_FLAG) {
            result == Ok::<Option<T>, Error>(None) && after == next
        } else {
            match result {
                Ok(Some(value)) => T::decodes(next, Ok(value), after),
                Ok(None) => false,
                Err(error) => T::decodes(next, Err(error), after),
            }
        },
    }
}

/// Writes the optional value `this` behind a flag.
pub fn serialize_flagged<T: Serialize + ?Sized>(
    this: Option<&T>,
    parcel: &mut WritableParcel<'_>,
) -> (r: Result<()>)
    ensures
        *final(final(parcel).inner) == *final(old(parcel).inner),
        old(parcel)@.grown_into(final(parcel)@),
        old(parcel)@.well_formed() ==> final(parcel)@.well_formed(),
        r is Ok <==> (this matches Some(value) ==> value.encodable()),
        r is Ok ==> final(parcel)@ == flagged_written(this, old(parcel)@),
{
    match this {
        Some(value) => {
            parcel.write::<i32>(&NON_NULL_PARCELABLE_FLAG)?;
            value.serialize(parcel)
        },
        None => parcel.write::<i32>(&NULL_PARCELABLE_FLAG),
    }
}

/// Reads an optional value behind a flag.
pub fn deserialize_flagged<T: Deserialize>(parcel: &mut ReadableParcel<'_>) -> (r: Result<
    Option<T>,
>)
    ensures
        *final(final(parcel).cursor) == *final(old(parcel).cursor),
        old(parcel)@.same_contents(final(parcel)@),
        flagged_decodes(old(parcel)@, r, final(parcel)@),
{
    let flag: i32 = parcel.read::<i32>()?;
    if flag == NULL_PARCELABLE_FLAG {
        Ok(None)
    } else {
        let value = parcel.read::<T>()?;
        Ok(Some(value))
    }
}

/// Whether reading a value that must be present, but is encoded as an
/// optional one, from the parcel `before` returns `result` and leaves the
/// parcel `after`: an absent value is the failure *unexpected null*.
pub open spec fn non_null_decodes<T: DeserializeOption>(
    before: ParcelView,
    result: Result<T>,
    after: ParcelView,
) -> bool {
    match result {
        Ok(value) => T::option_decodes(before, Ok(Some(value)), after),
        Err(error) => T::option_decodes(before, Err(error), after) || (error.kind
            == ErrorKind::UnexpectedNull && T::option_decodes(before, Ok(None), after)),
    }
}

/// Reads a value that must be present from the encoding of an optional one.
pub fn deserialize_non_null<T: DeserializeOption>(parcel: &mut ReadableParcel<'_>) -> (r: Result<T>)
    ensures
        *final(final(parcel).cursor) == *final(old(parcel).cursor),
        old(parcel)@.same_contents(final(parcel)@),
        non_null_decodes(old(parcel)@, r, final(parcel)@),
{
    match T::deserialize_option(parcel) {
        Ok(Some(value)) => Ok(value),
        Ok(None) => Err(Error::from(ErrorKind::UnexpectedNull)),
        Err(error) => Err(error),
    }
}

/// A structured value that writes its fields to a parcel and reads them back
/// into itself. In a parcel such a value stands behind the flag of an optional
/// value, whether or not it may be absent.
pub trait Parcelable: Sized {
    /// Whether the fields of this value have an encoding. A type that does
    /// not say is held to nothing.
    open spec fn fields_encodable(&self) -> bool {
        arbitrary()
    }

    /// The parcel after the fields of this value were written to `parcel`. A
    /// type that does not say is held to nothing.
    open spec fn fields_written(&self, parcel: ParcelView) -> ParcelView {
        arbitrary()
    }

    /// Writes the fields of this value at the end of `parcel`.
    fn write_to_parcel(&self, parcel: &mut WritableParcel<'_>) -> (r: Result<()>)
        ensures
            *final(final(parcel).inner) == *final(old(parcel).inner),
            old(parcel)@.grown_into(final(parcel)@),
            old(parcel)@.well_formed() ==> final(parcel)@.well_formed(),
            r is Ok <==> self.fields_encodable(),
            r is Ok ==> final(parcel)@ == self.fields_written(old(parcel)@),
    ;

    /// Whether reading the fields of a value from the parcel `before` into
    /// `old_value` returns `result`, makes the value `new_value` and leaves the
    /// parcel `after`. A type that does not say is held to nothing.
    open spec fn fields_read(
        before: ParcelView,
        old_value: Self,
        result: Result<()>,
        new_value: Self,
        after: ParcelView,
    ) -> bool {
        arbitrary()
    }

    /// Reads the fields of this value at the cursor of `parcel`.
    fn read_from_parcel(&mut self, parcel: &mut ReadableParcel<'_>) -> (r: Result<()>)
        ensures
            *final(final(parcel).cursor) == *final(old(parcel).cursor),
            old(parcel)@.same_contents(final(parcel)@),
            Self::fields_read(old(parcel)@, *old(self), r, *final(self), final(parcel)@),
    ;
}

/// The parcel after the optional structured value `this` was written to
/// `parcel`: the flag, and the fields of the value where it is present.
pub open spec fn parcelable_written<P: Parcelable>(this: Option<&P>, parcel: ParcelView)
    -> ParcelView {
    match this {
        Some(value) => value.fields_written(
            Scalar::I32(NON_NULL_PARCELABLE_FLAG).written(parcel),
        ),
        None => Scalar::I32(NULL_PARCELABLE_FLAG).written(parcel),
    }
}

/// Writes the optional structured value `this`: the flag, and the fields of
/// the value where it is present.
pub fn serialize_parcelable_option<P: Parcelable>(
    this: Option<&P>,
    parcel: &mut WritableParcel<'_>,
) -> (r: Result<()>)
    ensures
        *final(final(parcel).inner) == *final(old(parcel).inner),
        old(parcel)@.grown_into(final(parcel)@),
        old(parcel)@.well_formed() ==> final(parcel)@.well_formed(),
        r is Ok <==> (this matches Some(value) ==> value.fields_encodable()),
        r is Ok ==> final(parcel)@ == parcelable_written(this, old(parcel)@),
{
    match this {
        Some(value) => {
            parcel.write::<i32>(&NON_NULL_PARCELABLE_FLAG)?;
            value.write_to_parcel(parcel)
        },
        None => parcel.write::<i32>(&NULL_PARCELABLE_FLAG),
    }
}

/// Writes the structured value `this` as a present optional value.
pub fn serialize_parcelable<P: Parcelable>(this: &P, parcel: &mut WritableParcel<'_>) -> (r: Result<
    (),
>)
    ensures
        *final(final(parcel).inner) == *final(old(parcel).inner),
        old(parcel)@.grown_into(final(parcel)@),
        old(parcel)@.well_formed() ==> final(parcel)@.well_formed(),
        r is Ok <==> this.fields_encodable(),
        r is Ok ==> final(parcel)@ == parcelable_written(Some(this), old(parcel)@),
{
    serialize_parcelable_option(Some(this), parcel)
}

/// Whether reading a structured value that must be present from the parcel
/// `before` into `old_value` returns `result`, makes the value `new_value`
/// and leaves the parcel `after`. The flag of an absent value is the failure
/// *unexpected null*, and leaves the value as it was.
pub open spec fn parcelable_read<P: Parcelable>(
    before: ParcelView,
    old_value: P,
    result: Result<()>,
    new_value: P,
    after: ParcelView,
) -> bool {
    match Scalar::I32(0).read(before) {
        (Err(error), next) => result == Err::<(), Error>(error) && new_value == old_value && after
            == next,
        (Ok(flag), next) => if flag == Scalar::I32(NULL_PARCELABLE_FLAG) {
            &&& result matches Err(error) && error.kind == ErrorKind::UnexpectedNull
            &&& new_value == old_value
            &&& after == next
        } else {
            P::fields_read(next, old_value, result, new_value, after)
        },
    }
}

/// Reads a structured value that must be present into `this`.
pub fn deserialize_parcelable_from<P: Parcelable>(
    this: &mut P,
    parcel: &mut ReadableParcel<'_>,
) -> (r: Result<()>)
    ensures
        *final(final(parcel).cursor) == *final(old(parcel).cursor),
        old(parcel)@.same_contents(final(parcel)@),
        parcelable_read(old(parcel)@, *old(this), r, *final(this), final(parcel)@),
{
    let status: i32 = parcel.read::<i32>()?;
    if status == NULL_PARCELABLE_FLAG {
        Err(Error::from(ErrorKind::UnexpectedNull))
    } else {
        this.read_from_parcel(parcel)
    }
}

/// Whether reading the fields of a value from the parcel `before` into some
/// fresh value returns `result`, makes the value `read` and leaves the parcel
/// `after`.
pub open spec fn reads_into_fresh<P: Parcelable>(
    before: ParcelView,
    result: Result<()>,
    read: P,
    after: ParcelView,
) -> bool {
    exists|fresh: P| #[trigger] P::fields_read(before, fresh, result, read, after)
}

/// Whether reading an optional structured value from the parcel `before` into
/// `old_value` returns `result`, makes the value `new_value` and leaves the
/// parcel `after`. The flag of an absent value makes the value absent. Any
/// other flag is followed by the fields, which are read into the value that
/// was there, or into a default value where none was.
pub open spec fn parcelable_option_read<P: Parcelable>(
    before: ParcelView,
    old_value: Option<P>,
    result: Result<()>,
    new_value: Option<P>,
    after: ParcelView,
) -> bool {
    match Scalar::I32(0).read(before) {
        (Err(error), next) => result == Err::<(), Error>(error) && new_value == old_value && after
            == next,
        (Ok(flag), next) => if flag == Scalar::I32(NULL_PARCELABLE_FLAG) {
            result is Ok && new_value is None && after == next
        } else {
            &&& new_value matches Some(read)
            &&& match old_value {
                Some(held) => P::fields_read(next, held, result, read, after),
                None => reads_into_fresh::<P>(next, result, read, after),
            }
        },
    }
}

/// Reads an optional structured value into `this`.
pub fn deserialize_parcelable_option_from<P: Parcelable + Default>(
    this: &mut Option<P>,
    parcel: &mut ReadableParcel<'_>,
) -> (r: Result<()>)
    ensures
        *final(final(parcel).cursor) == *final(old(parcel).cursor),
        old(parcel)@.same_contents(final(parcel)@),
        parcelable_option_read(old(parcel)@, *old(this), r, *final(this), final(parcel)@),
{
    let status: i32 = parcel.read::<i32>()?;
    if status == NULL_PARCELABLE_FLAG {
        *this = None;
        Ok(())
    } else {
        let mut value = match this.take() {
            Some(held) => held,
            None => P::default(),
        };
        let ghost start = value;
        let ghost behind_flag = parcel@;
        let r = value.read_from_parcel(parcel);
        assert(P::fields_read(behind_flag, start, r, value, parcel@));
        *this = Some(value);
        r
    }
}

/// Reads an optional structured value.
pub fn deserialize_parcelable_option<P: Parcelable + Default>(
    parcel: &mut ReadableParcel<'_>,
) -> (r: Result<Option<P>>)
    ensures
        *final(final(parcel).cursor) == *final(old(parcel).cursor),
        old(parcel)@.same_contents(final(parcel)@),
        match r {
            Ok(value) => parcelable_option_read(old(parcel)@, None, Ok(()), value, final(parcel)@),
            Err(error) => exists|value: Option<P>|
                parcelable_option_read(old(parcel)@, None, Err(error), value, final(parcel)@),
        },
{
    let mut result: Option<P> = None;
    deserialize_parcelable_option_from(&mut result, parcel)?;
    Ok(result)
}

/// Reads a structured value that must be present: an absent one is the
/// failure *unexpected null*.
pub fn deserialize_parcelable<P: Parcelable + Default>(parcel: &mut ReadableParcel<'_>) -> (r:
    Result<P>)
    ensures
        *final(final(parcel).cursor) == *final(old(parcel).cursor),
        old(parcel)@.same_contents(final(parcel)@),
        match r {
            Ok(value) => parcelable_option_read(
                old(parcel)@,
                None,
                Ok(()),
                Some(value),
                final(parcel)@,
            ),
            Err(error) => {
                ||| exists|value: Option<P>|
                    parcelable_option_read(old(parcel)@, None, Err(error), value, final(parcel)@)
                ||| {
                    &&& error.kind == ErrorKind::UnexpectedNull
                    &&& parcelable_option_read::<P>(
                        old(parcel)@,
                        None,
                        Ok(()),
                        None,
                        final(parcel)@,
                    )
                }
            },
        },
{
    match deserialize_parcelable_option::<P>(parcel) {
        Ok(Some(value)) => Ok(value),
        Ok(None) => Err(Error::from(ErrorKind::UnexpectedNull)),
        Err(error) => Err(error),
    }
}

/// An enumeration: a type whose values are named values of a backing integer
/// type. In a parcel a value of the enumeration is its backing value, with
/// nothing before or after it.
pub trait BinderEnum: Sized {
    /// The integer type of the backing values.
    type Backing: Serialize + Deserialize;

    /// The backing value of this value.
    fn backing(&self) -> Self::Backing;

    /// The value of the enumeration with the backing value `backing`.
    fn from_backing(backing: Self::Backing) -> Self;
}

/// Whether writing `value` to the parcel `before` returns `result` and leaves
/// the parcel `after`: the backing value of `value` is written.
pub open spec fn enum_written<E: BinderEnum>(
    value: &E,
    before: ParcelView,
    result: Result<()>,
    after: ParcelView,
) -> bool {
    exists|backing: E::Backing| #[trigger]
        call_ensures(E::backing, (value,), backing) && (result is Ok <==> backing.encodable())
            && (result is Ok ==> after == backing.written(before))
}

/// Writes a value of an enumeration as its backing value.
pub fn serialize_enum<E: BinderEnum>(value: &E, parcel: &mut WritableParcel<'_>) -> (r: Result<()>)
    ensures
        *final(final(parcel).inner) == *final(old(parcel).inner),
        old(parcel)@.grown_into(final(parcel)@),
        old(parcel)@.well_formed() ==> final(parcel)@.well_formed(),
        enum_written(value, old(parcel)@, r, final(parcel)@),
{
    let backing = value.backing();
    parcel.write(&backing)
}

/// Whether reading a value of the enumeration `E` from the parcel `before`
/// returns `result` and leaves the parcel `after`: a backing value is read,
/// and the value of the enumeration is made of it.
pub open spec fn enum_decodes<E: BinderEnum>(
    before: ParcelView,
    result: Result<E>,
    after: ParcelView,
) -> bool {
    match result {
        Ok(value) => exists|backing: E::Backing| #[trigger]
            E::Backing::decodes(before, Ok(backing), after) && call_ensures(
                E::from_backing,
                (backing,),
                value,
            ),
        Err(error) => E::Backing::decodes(before, Err(error), after),
    }
}

/// Reads a value of an enumeration as its backing value.
pub fn deserialize_enum<E: BinderEnum>(parcel: &mut ReadableParcel<'_>) -> (r: Result<E>)
    ensures
        *final(final(parcel).cursor) == *final(old(parcel).cursor),
        old(parcel)@.same_contents(final(parcel)@),
        enum_decodes(old(parcel)@, r, final(parcel)@),
{
    let backing = parcel.read::<E::Backing>()?;
    Ok(E::from_backing(backing))
}

} // verus!
