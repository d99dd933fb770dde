//! Marshaling for a kernel-mediated cross-process call mechanism.
//!
//! Typed values and live references (remote objects, local objects, file
//! descriptors) are laid out in a flat byte buffer, the *parcel*, beside a
//! table of the offsets at which the references sit, so that the kernel can
//! find and translate them when the buffer crosses to another process.
//!
//! - [`wire`] and [`record`] fix the bytes: the padding rule, the little-endian
//!   form of numbers, the 24 bytes of a reference record.
//! - [`model`] says what a parcel holds and what reading and writing do to it;
//!   [`parcel`] is the parcel itself, with its reading and its writing side.
//! - [`parcelable`], [`scalar`], [`string16`] and [`reference`] marshal values:
//!   optional and structured values, numbers, text, references.
//! - [`binder`] resolves a generic reference to a proxy or to a local object,
//!   and [`proxy`] frames the calls that a proxy forwards.
//! - [`laws`] holds what is proved of all of this together.

pub mod binder;
pub mod dump;
pub mod error;
pub mod laws;
pub mod model;
pub mod parcel;
pub mod parcelable;
pub mod proxy;
pub mod record;
pub mod reference;
pub mod scalar;
pub mod string16;
pub mod wire;

pub use binder::{Binder, Proxy, ProxyHandle, Remotable, SIBinder, Strong, TransactionCode};
pub use error::{Error, ErrorKind, Result};
pub use parcel::{ImmutableParcel, Parcel, Readable, ReadableParcel, WritableParcel};
pub use parcelable::{
    BinderEnum, Deserialize, DeserializeOption, Parcelable, Serialize, SerializeOption,
    NON_NULL_PARCELABLE_FLAG, NULL_PARCELABLE_FLAG,
};
pub use record::FlatBinderObject;
pub use reference::Reference;
pub use string16::String16;
