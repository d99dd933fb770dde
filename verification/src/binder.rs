//! The interface dispatch protocol: a generic reference is either a handle to
//! a remote object or a local object, and resolves against the descriptor of
//! an interface to a proxy, to the local object, or not at all.

use std::sync::Arc;
use vstd::prelude::*;
use vstd::string::StringExecFns;
use crate::error::{fails_with, Error, ErrorKind, Result};
use crate::model::ParcelView;
use crate::parcel::{Parcel, WritableParcel};
use crate::parcelable::{Serialize, SerializeOption};
use crate::reference::{record_of_option, Reference};

verus! {

/// The number that tells the methods of an interface apart in a transaction.
pub type TransactionCode = u32;

/// A handle to a remote object, with the descriptor of the interface that the
/// object reports.
#[derive(Debug)]
pub struct ProxyHandle {
    handle: u32,
    descriptor: String,
}

/// What a handle to a remote object holds.
pub struct ProxyHandleView {
    pub handle: u32,
    pub descriptor: Seq<char>,
}

impl View for ProxyHandle {
    type V = ProxyHandleView;

    closed spec fn view(&self) -> ProxyHandleView {
        ProxyHandleView { handle: self.handle, descriptor: self.descriptor@ }
    }
}

impl Clone for ProxyHandle {
    fn clone(&self) -> (copy: ProxyHandle)
        ensures
            copy@ == self@,
    {
        ProxyHandle { handle: self.handle, descriptor: self.descriptor.clone() }
    }
}

impl ProxyHandle {
    /// The handle `handle` to an object that reports the interface `descriptor`.
    pub fn new(handle: u32, descriptor: &str) -> (proxy: ProxyHandle)
        ensures
            proxy@ == (ProxyHandleView { handle, descriptor: descriptor@ }),
    {
        ProxyHandle { handle, descriptor: String::from_str(descriptor) }
    }

    /// The number by which the kernel knows the remote object.
    pub fn handle(&self) -> (handle: u32)
        ensures
            handle == self@.handle,
    {
        self.handle
    }

    /// The descriptor of the interface that the remote object reports.
    pub fn descriptor(&self) -> (descriptor: &str)
        ensures
            descriptor@ == self@.descriptor,
    {
        self.descriptor.as_str()
    }
}

/// The local side of an interface: the stub that takes the transactions that
/// come in for one implementation.
pub trait Remotable {
    /// The descriptor of the interface. A type that does not say is held to
    /// nothing.
    open spec fn spec_descriptor() -> Seq<char> {
        arbitrary()
    }

    /// The descriptor of the interface.
    fn descriptor() -> (descriptor: &'static str)
        ensures
            descriptor@ == Self::spec_descriptor(),
    ;

    /// Whether handling the transaction `code`, with the request `request` and
    /// the reply `reply`, returns `result` and leaves the two parcels
    /// `request_after` and `reply_after`. A type that does not say is held to
    /// nothing.
    open spec fn transacts(
        &self,
        code: TransactionCode,
        request: ParcelView,
        reply: ParcelView,
        result: Result<()>,
        request_after: ParcelView,
        reply_after: ParcelView,
    ) -> bool {
        arbitrary()
    }

    /// Handles one transaction: reads the arguments from `reader`, calls the
    /// implementation and writes what it returns to `reply`.
    fn on_transact(&self, code: TransactionCode, reader: &mut Parcel, reply: &mut Parcel) -> (r:
        Result<()>)
        ensures
            self.transacts(code, old(reader)@, old(reply)@, r, final(reader)@, final(reply)@),
            old(reader)@.well_formed() ==> final(reader)@.well_formed(),
            old(reply)@.well_formed() ==> final(reply)@.well_formed(),
    ;

    /// Whether dumping the state of the implementation for the arguments
    /// `args` to the text `before` returns `result` and leaves the text
    /// `after`. A type that does not say is held to nothing.
    open spec fn dumps(
        &self,
        args: Seq<String>,
        before: Seq<char>,
        result: Result<()>,
        after: Seq<char>,
    ) -> bool {
        arbitrary()
    }

    /// Writes the state of the implementation to `writer`.
    fn on_dump(&self, writer: &mut String, args: &[String]) -> (r: Result<()>)
        ensures
            self.dumps(args@, old(writer)@, r, final(writer)@),
    ;
}

/// The remote side of an interface: a value that forwards the methods of the
/// interface to a remote object as transactions.
pub trait Proxy: Sized {
    /// The descriptor of the interface. A type that does not say is held to
    /// nothing.
    open spec fn spec_descriptor() -> Seq<char> {
        arbitrary()
    }

    /// The descriptor of the interface.
    fn descriptor() -> (descriptor: &'static str)
        ensures
            descriptor@ == Self::spec_descriptor(),
    ;

    /// The handle that this proxy forwards to. A type that does not say is
    /// held to nothing.
    open spec fn spec_handle(&self) -> ProxyHandleView {
        arbitrary()
    }

    /// A proxy that forwards to `handle`.
    fn from_handle(handle: ProxyHandle) -> (proxy: Self)
        ensures
            proxy.spec_handle() == handle@,
    ;

    /// The handle that this proxy forwards to.
    fn as_handle(&self) -> (handle: &ProxyHandle)
        ensures
            handle@ == self.spec_handle(),
    ;
}

/// A local object: a native stub, with the two numbers under which this
/// process hands it to the kernel.
pub struct Binder<N> {
    native: N,
    binder: u64,
    cookie: u64,
}

/// A generic reference: it says where an object is, and nothing of the
/// interface as a type.
pub enum SIBinder<N> {
    /// An object of another process.
    Remote(ProxyHandle),
    /// An object of this process.
    Local(Arc<Binder<N>>),
}

/// A shared handle to an interface: a proxy where the object is remote, the
/// object itself where it is local.
pub enum Strong<P, N> {
    Proxy(Arc<P>),
    Native(Arc<Binder<N>>),
}

/// `Arc::clone` of std: one more handle to the value that `shared` holds.
#[verifier::external_body]
fn arc_clone<T>(shared: &Arc<T>) -> (copy: Arc<T>)
    ensures
        copy == *shared,
{
    Arc::clone(shared)
}

impl<N: Remotable> Binder<N> {
    /// A local object around `native` that the kernel does not know yet.
    pub fn new(native: N) -> (object: Binder<N>)
        ensures
            object.spec_native() == native,
            object.identity() == (0u64, 0u64),
    {
        Binder { native, binder: 0, cookie: 0 }
    }

    /// A local object around `native` that is handed to the kernel as
    /// `binder` and `cookie`.
    pub fn with_identity(native: N, binder: u64, cookie: u64) -> (object: Binder<N>)
        ensures
            object.spec_native() == native,
            object.identity() == (binder, cookie),
    {
        Binder { native, binder, cookie }
    }

    /// The native stub of this object.
    pub closed spec fn spec_native(&self) -> N {
        self.native
    }

    /// The two numbers under which this process hands the object to the kernel.
    pub closed spec fn identity(&self) -> (u64, u64) {
        (self.binder, self.cookie)
    }

    /// The native stub of this object.
    pub fn native(&self) -> (native: &N)
        ensures
            *native == self.spec_native(),
    {
        &self.native
    }

    /// Hands a transaction to the native stub. What the stub does to the two
    /// parcels and what it returns is what this returns: a failure of the stub
    /// is the failure of the transaction.
    pub fn transact(&self, code: TransactionCode, reader: &mut Parcel, reply: &mut Parcel) -> (r:
        Result<()>)
        ensures
            self.spec_native().transacts(
                code,
                old(reader)@,
                old(reply)@,
                r,
                final(reader)@,
                final(reply)@,
            ),
            old(reader)@.well_formed() ==> final(reader)@.well_formed(),
            old(reply)@.well_formed() ==> final(reply)@.well_formed(),
    {
        self.native.on_transact(code, reader, reply)
    }

    /// Hands a request for a dump to the native stub.
    pub fn dump(&self, writer: &mut String, args: &[String]) -> (r: Result<()>)
        ensures
            self.spec_native().dumps(args@, old(writer)@, r, final(writer)@),
    {
        self.native.on_dump(writer, args)
    }

    /// The local object behind `binder`, if `binder` is a local object that
    /// implements the interface `descriptor`; *bad type* else.
    pub fn try_from(binder: SIBinder<N>, descriptor: &str) -> (r: Result<Arc<Binder<N>>>)
        ensures
            match binder {
                SIBinder::Local(object) if N::spec_descriptor() == descriptor@ => r == Ok::<
                    Arc<Binder<N>>,
                    Error,
                >(object),
                _ => fails_with(r, ErrorKind::BadType),
            },
    {
        match binder {
            SIBinder::Local(object) => {
                let own = String::from_str(N::descriptor());
                let wanted = String::from_str(descriptor);
                if own == wanted {
                    Ok(object)
                } else {
                    Err(Error::from(ErrorKind::BadType))
                }
            },
            SIBinder::Remote(_) => Err(Error::from(ErrorKind::BadType)),
        }
    }
}

impl<N: Remotable> SIBinder<N> {
    /// The descriptor that the reference reports: that of the handle, or that
    /// of the native stub.
    pub open spec fn spec_descriptor(self) -> Seq<char> {
        match self {
            SIBinder::Remote(handle) => handle@.descriptor,
            SIBinder::Local(_) => N::spec_descriptor(),
        }
    }

    /// What stands for this reference in a parcel.
    pub open spec fn spec_reference(self) -> Reference {
        match self {
            SIBinder::Remote(handle) => Reference::Remote { handle: handle@.handle },
            SIBinder::Local(object) => Reference::Local {
                binder: object.identity().0,
                cookie: object.identity().1,
            },
        }
    }

    /// The descriptor that the reference reports.
    pub fn descriptor(&self) -> (descriptor: &str)
        ensures
            descriptor@ == self.spec_descriptor(),
    {
        match self {
            SIBinder::Remote(handle) => handle.descriptor(),
            SIBinder::Local(_) => N::descriptor(),
        }
    }

    /// The handle behind the reference, if the object is remote.
    pub fn as_proxy(&self) -> (proxy: Option<&ProxyHandle>)
        ensures
            match *self {
                SIBinder::Remote(handle) => proxy == Some(&handle),
                SIBinder::Local(_) => proxy is None,
            },
    {
        match self {
            SIBinder::Remote(handle) => Some(handle),
            SIBinder::Local(_) => None,
        }
    }

    /// What stands for this reference in a parcel.
    pub fn reference(&self) -> (reference: Reference)
        ensures
            reference == self.spec_reference(),
    {
        match self {
            SIBinder::Remote(handle) => Reference::Remote { handle: handle.handle() },
            SIBinder::Local(object) => Reference::Local {
                binder: object.binder,
                cookie: object.cookie,
            },
        }
    }
}

/// Whether `binder` resolves to a proxy of the type `P`: it is a handle to a
/// remote object and reports the descriptor of `P`.
pub open spec fn is_proxy_of<P: Proxy, N: Remotable>(binder: SIBinder<N>) -> bool {
    binder matches SIBinder::Remote(handle) && handle@.descriptor == P::spec_descriptor()
}

/// Whether `proxy` is the proxy that `binder` resolves to: `binder` resolves
/// to a proxy of the type `P`, and `proxy` forwards to the handle of `binder`.
pub open spec fn is_proxy_for<P: Proxy, N: Remotable>(proxy: P, binder: SIBinder<N>) -> bool {
    binder matches SIBinder::Remote(handle) && handle@.descriptor == P::spec_descriptor()
        && proxy.spec_handle() == handle@
}

/// Whether `binder` resolves to the local object behind it for the interface
/// of `P`: it is a local object whose stub has the descriptor of `P`.
pub open spec fn is_native_of<P: Proxy, N: Remotable>(binder: SIBinder<N>) -> bool {
    binder is Local && N::spec_descriptor() == P::spec_descriptor()
}

/// A proxy of the type `P` for `binder`, if `binder` is a handle to a remote
/// object that reports the descriptor of `P`.
pub fn from_binder<P: Proxy, N: Remotable>(binder: &SIBinder<N>) -> (proxy: Option<P>)
    ensures
        match proxy {
            Some(proxy) => is_proxy_for(proxy, *binder),
            None => !is_proxy_of::<P, N>(*binder),
        },
{
    let own = String::from_str(binder.descriptor());
    let wanted = String::from_str(P::descriptor());
    if own != wanted {
        return None;
    }
    match binder.as_proxy() {
        Some(handle) => Some(P::from_handle(handle.clone())),
        None => None,
    }
}

impl<P: Proxy, N: Remotable> Strong<P, N> {
    /// Resolves `binder` against the interface of `P`. A handle to a remote
    /// object that reports the descriptor of `P` gives a proxy that forwards
    /// to it. Else a local object whose stub has that descriptor gives the
    /// object itself. Anything else fails with *bad type*: so does every
    /// reference that reports another descriptor.
    pub fn try_from(binder: SIBinder<N>) -> (r: Result<Strong<P, N>>)
        ensures
            match r {
                Ok(Strong::Proxy(proxy)) => is_proxy_for(*proxy, binder),
                Ok(Strong::Native(object)) => is_native_of::<P, N>(binder) && binder
                    == SIBinder::<N>::Local(object),
                Err(error) => error.kind == ErrorKind::BadType && !is_proxy_of::<P, N>(binder)
                    && !is_native_of::<P, N>(binder),
            },
            binder.spec_descriptor() != P::spec_descriptor() ==> fails_with(r, ErrorKind::BadType),
    {
        match from_binder::<P, N>(&binder) {
            Some(proxy) => Ok(Strong::Proxy(Arc::new(proxy))),
            None => match Binder::<N>::try_from(binder, P::descriptor()) {
                Ok(object) => Ok(Strong::Native(object)),
                Err(error) => Err(error),
            },
        }
    }

    /// What stands for the generic reference behind this handle in a parcel.
    pub open spec fn spec_reference(self) -> Reference {
        match self {
            Strong::Proxy(proxy) => Reference::Remote { handle: proxy.spec_handle().handle },
            Strong::Native(object) => Reference::Local {
                binder: object.identity().0,
                cookie: object.identity().1,
            },
        }
    }

    /// A handle to the local object `object`.
    pub fn from_native(object: Binder<N>) -> (strong: Strong<P, N>)
        ensures
            strong matches Strong::Native(shared) && *shared == object,
    {
        Strong::Native(Arc::new(object))
    }

    /// The generic reference behind this handle.
    pub fn as_binder(&self) -> (binder: SIBinder<N>)
        ensures
            match *self {
                Strong::Proxy(proxy) => binder matches SIBinder::Remote(handle) && handle@
                    == proxy.spec_handle(),
                Strong::Native(object) => binder == SIBinder::<N>::Local(object),
            },
    {
        match self {
            Strong::Proxy(proxy) => SIBinder::Remote(proxy.as_handle().clone()),
            Strong::Native(object) => SIBinder::Local(arc_clone(object)),
        }
    }
}

impl<N: Remotable> Serialize for SIBinder<N> {
    open spec fn encodable(&self) -> bool {
        true
    }

    /// A reference is written as the record that stands for it.
    open spec fn written(&self, parcel: ParcelView) -> ParcelView {
        self.spec_reference().written(parcel)
    }

    fn serialize(&self, parcel: &mut WritableParcel<'_>) -> (r: Result<()>) {
        self.reference().serialize(parcel)
    }
}

impl<N: Remotable> SerializeOption for SIBinder<N> {
    /// An absent reference is written as the record that stands for no
    /// reference.
    open spec fn option_written(this: Option<&Self>, parcel: ParcelView) -> ParcelView {
        match this {
            Some(binder) => binder.written(parcel),
            None => parcel.write_object(record_of_option(None), false),
        }
    }

    fn serialize_option(this: Option<&Self>, parcel: &mut WritableParcel<'_>) -> (r: Result<()>) {
        match this {
            Some(binder) => binder.serialize(parcel),
            None => Reference::serialize_option(None, parcel),
        }
    }
}

impl<P: Proxy, N: Remotable> Serialize for Strong<P, N> {
    open spec fn encodable(&self) -> bool {
        true
    }

    /// A handle to an interface is written as the generic reference behind it.
    open spec fn written(&self, parcel: ParcelView) -> ParcelView {
        self.spec_reference().written(parcel)
    }

    fn serialize(&self, parcel: &mut WritableParcel<'_>) -> (r: Result<()>) {
        let binder = self.as_binder();
        parcel.write(&binder)
    }
}

impl<P: Proxy, N: Remotable> SerializeOption for Strong<P, N> {
    /// An absent handle is written as the record that stands for no reference.
    open spec fn option_written(this: Option<&Self>, parcel: ParcelView) -> ParcelView {
        match this {
            Some(strong) => strong.written(parcel),
            None => parcel.write_object(record_of_option(None), false),
        }
    }

    fn serialize_option(this: Option<&Self>, parcel: &mut WritableParcel<'_>) -> (r: Result<()>) {
        match this {
            Some(strong) => strong.serialize(parcel),
            None => Reference::serialize_option(None, parcel),
        }
    }
}

} // verus!
