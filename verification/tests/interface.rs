use rsbinder::binder::{
    from_binder, Binder, Proxy, ProxyHandle, Remotable, SIBinder, Strong, TransactionCode,
};
use rsbinder::parcel::Parcel;
use rsbinder::proxy::{
    begin_transaction, enforce_interface, read_reply, same_units, transaction_flags,
    write_interface_token, CallerContext, FLAG_ONEWAY, INTERFACE_HEADER,
    STRICT_MODE_PENALTY_GATHER, UNSET_WORK_SOURCE,
};
use rsbinder::reference::Reference;
use rsbinder::string16::String16;
use rsbinder::{Error, ErrorKind, Result};

pub trait IEcho {
    fn echo(&self, echo: &str) -> Result<String>;
}

const ECHO: TransactionCode = 1;
const SHOUT: TransactionCode = 2;

pub struct BnEcho(Box<dyn IEcho + Sync + Send + 'static>);

impl BnEcho {
    pub fn new_binder<T: IEcho + Sync + Send + 'static>(inner: T) -> Strong<BpEcho, BnEcho> {
        Strong::from_native(Binder::new(BnEcho(Box::new(inner))))
    }
}

fn on_transact(
    service: &dyn IEcho,
    code: TransactionCode,
    data: &mut Parcel,
    reply: &mut Parcel,
    descriptor: &str,
) -> Result<()> {
    let mut reader = data.as_readable();
    enforce_interface(&mut reader, &String16::from_str(descriptor))?;
    match code {
        ECHO => {
            let text = reader.read::<String16>()?.to_text()?;
            let answer = service.echo(&text)?;
            reply.as_writable().write(&String16::from_str(&answer))
        }
        _ => Err(Error::from(ErrorKind::BadType)),
    }
}

impl Remotable for BnEcho {
    fn descriptor() -> &'static str {
        "my.echo"
    }

    fn on_transact(
        &self,
        code: TransactionCode,
        reader: &mut Parcel,
        reply: &mut Parcel,
    ) -> Result<()> {
        on_transact(&*self.0, code, reader, reply, Self::descriptor())
    }

    fn on_dump(&self, writer: &mut String, args: &[String]) -> Result<()> {
        writer.push_str("echo");
        for arg in args {
            writer.push(' ');
            writer.push_str(arg);
        }
        Ok(())
    }
}

pub struct BpEcho {
    binder: ProxyHandle,
}

impl Proxy for BpEcho {
    fn descriptor() -> &'static str {
        "my.echo"
    }

    fn from_handle(handle: ProxyHandle) -> Self {
        BpEcho { binder: handle }
    }

    fn as_handle(&self) -> &ProxyHandle {
        &self.binder
    }
}

impl BpEcho {
    /// Forwards one call, with `service` standing for the far side.
    fn call(
        &self,
        code: TransactionCode,
        one_way: bool,
        text: &str,
        service: &Binder<BnEcho>,
    ) -> Result<Option<String16>> {
        let mut request = begin_transaction(0, None, &String16::from_str(Self::descriptor()))?;
        request.as_writable().write(&String16::from_str(text))?;
        let mut reply = Parcel::new();
        let sent = service.transact(code, &mut request, &mut reply);
        if transaction_flags(one_way) & FLAG_ONEWAY == 0 {
            sent?;
        }
        read_reply::<String16>(one_way, &mut reply)
    }
}

struct EchoService {}

impl IEcho for EchoService {
    fn echo(&self, echo: &str) -> Result<String> {
        Ok(echo.to_owned())
    }
}

struct OtherNative;

impl Remotable for OtherNative {
    fn descriptor() -> &'static str {
        "my.other"
    }

    fn on_transact(
        &self,
        _code: TransactionCode,
        _reader: &mut Parcel,
        _reply: &mut Parcel,
    ) -> Result<()> {
        Err(Error::from(ErrorKind::UnexpectedNull))
    }

    fn on_dump(&self, _writer: &mut String, _args: &[String]) -> Result<()> {
        Err(Error::from(ErrorKind::BadType))
    }
}

#[test]
fn test_declare_binder_interface() {
    let _ = BnEcho::new_binder(EchoService {});
}

#[test]
fn test_dyn_ibinder() -> Result<()> {
    let local: SIBinder<BnEcho> = SIBinder::Local(std::sync::Arc::new(Binder::with_identity(
        BnEcho(Box::new(EchoService {})),
        0x7f00_1000,
        0x7f00_2000,
    )));
    let raw = local.reference();

    let mut parcel = Parcel::new();

    {
        let mut writer = parcel.as_writable();
        writer.write(&local)?;
    }
    parcel.set_data_position(0);

    {
        let mut reader = parcel.as_readable();

        let restored = reader.read::<Reference>()?;

        assert_eq!(raw, restored);
        assert_eq!(restored, Reference::Local { binder: 0x7f00_1000, cookie: 0x7f00_2000 });
    }

    Ok(())
}

#[test]
fn a_handle_that_reports_the_descriptor_resolves_to_a_proxy() {
    let binder: SIBinder<BnEcho> = SIBinder::Remote(ProxyHandle::new(42, "my.echo"));
    assert_eq!(binder.descriptor(), "my.echo");
    assert_eq!(binder.reference(), Reference::Remote { handle: 42 });
    match Strong::<BpEcho, BnEcho>::try_from(binder) {
        Ok(Strong::Proxy(proxy)) => {
            assert_eq!(proxy.as_handle().handle(), 42);
            assert_eq!(proxy.as_handle().descriptor(), "my.echo");
        }
        _ => panic!("a proxy was expected"),
    }
}

#[test]
fn a_handle_that_reports_another_descriptor_is_a_bad_type() {
    let binder: SIBinder<BnEcho> = SIBinder::Remote(ProxyHandle::new(42, "my.echo2"));
    assert!(from_binder::<BpEcho, BnEcho>(&binder).is_none());
    assert!(matches!(
        Strong::<BpEcho, BnEcho>::try_from(binder),
        Err(Error { kind: ErrorKind::BadType })
    ));
    let empty: SIBinder<BnEcho> = SIBinder::Remote(ProxyHandle::new(0, ""));
    assert!(matches!(
        Strong::<BpEcho, BnEcho>::try_from(empty),
        Err(Error { kind: ErrorKind::BadType })
    ));
}

#[test]
fn a_local_object_resolves_to_itself() {
    let strong = BnEcho::new_binder(EchoService {});
    let binder = strong.as_binder();
    assert_eq!(binder.descriptor(), "my.echo");
    assert!(binder.as_proxy().is_none());
    assert!(from_binder::<BpEcho, BnEcho>(&binder).is_none());
    match Strong::<BpEcho, BnEcho>::try_from(binder) {
        Ok(Strong::Native(object)) => {
            assert_eq!(object.native().0.echo("again"), Ok("again".to_string()));
            match &strong {
                Strong::Native(first) => assert!(std::sync::Arc::ptr_eq(first, &object)),
                Strong::Proxy(_) => panic!("a local object was expected"),
            }
        }
        _ => panic!("a local object was expected"),
    }
}

#[test]
fn a_local_object_of_another_interface_is_a_bad_type() {
    let other: SIBinder<OtherNative> =
        SIBinder::Local(std::sync::Arc::new(Binder::new(OtherNative)));
    assert_eq!(other.descriptor(), "my.other");
    assert!(matches!(
        Strong::<BpEcho, OtherNative>::try_from(other),
        Err(Error { kind: ErrorKind::BadType })
    ));
    let remote: SIBinder<OtherNative> = SIBinder::Remote(ProxyHandle::new(1, "my.echo"));
    assert!(matches!(
        Binder::<OtherNative>::try_from(remote, "my.echo"),
        Err(Error { kind: ErrorKind::BadType })
    ));
}

#[test]
fn a_proxy_forwards_a_call_and_reads_the_reply() {
    let service = Binder::new(BnEcho(Box::new(EchoService {})));
    let binder: SIBinder<BnEcho> = SIBinder::Remote(ProxyHandle::new(3, "my.echo"));
    let proxy = from_binder::<BpEcho, BnEcho>(&binder).unwrap();
    assert_eq!(proxy.call(ECHO, false, "Hello", &service), Ok(Some(String16::from_str("Hello"))));
    assert_eq!(proxy.call(ECHO, true, "Hello", &service), Ok(None));
    assert_eq!(proxy.call(SHOUT, false, "Hello", &service), Err(Error::from(ErrorKind::BadType)));
    assert_eq!(proxy.call(SHOUT, true, "Hello", &service), Ok(None));
}

#[test]
fn a_failure_of_the_stub_is_the_failure_of_the_transaction() {
    let object = Binder::new(OtherNative);
    let mut request = Parcel::new();
    let mut reply = Parcel::new();
    assert_eq!(
        object.transact(ECHO, &mut request, &mut reply),
        Err(Error::from(ErrorKind::UnexpectedNull))
    );
    let mut text = String::new();
    assert_eq!(object.dump(&mut text, &[]), Err(Error::from(ErrorKind::BadType)));
    let echo = Binder::new(BnEcho(Box::new(EchoService {})));
    assert_eq!(echo.dump(&mut text, &["a".to_string(), "b".to_string()]), Ok(()));
    assert_eq!(text, "echo a b");
}

#[test]
fn the_header_of_a_call_is_three_words_and_the_descriptor() {
    let mut parcel = Parcel::new();
    {
        let mut writer = parcel.as_writable();
        writer.write::<u32>(&0).unwrap();
        write_interface_token(&mut writer, 0x21, Some(1000), &String16::from_str("ab")).unwrap();
    }
    assert_eq!(
        parcel.as_slice(),
        &[
            0, 0, 0, 0, //
            0x21, 0, 0, 0x80, //
            0xe8, 0x03, 0, 0, //
            0x54, 0x53, 0x59, 0x53, //
            2, 0, 0, 0, 0x61, 0, 0x62, 0,
        ]
    );
    parcel.set_data_position(4);
    let mut reader = parcel.as_readable();
    assert!(reader.cursor.request_header_present);
    assert_eq!(reader.cursor.work_source_request_header_pos, 8);
    assert_eq!(
        enforce_interface(&mut reader, &String16::from_str("ab")),
        Ok(CallerContext { strict_policy: 0x21 | STRICT_MODE_PENALTY_GATHER, work_source: 1000 })
    );
    assert_eq!(reader.cursor.pos, 24);
    assert_eq!(STRICT_MODE_PENALTY_GATHER, 1 << 31);
    assert_eq!(INTERFACE_HEADER, 0x5359_5354);
}

#[test]
fn a_call_without_work_source_carries_the_unset_word() {
    let mut parcel = begin_transaction(0, None, &String16::from_str("my.echo")).unwrap();
    assert_eq!(
        &parcel.as_slice()[..12],
        &[0, 0, 0, 0x80, 0xff, 0xff, 0xff, 0xff, 0x54, 0x53, 0x59, 0x53]
    );
    let mut reader = parcel.as_readable();
    assert_eq!(reader.cursor.work_source_request_header_pos, 4);
    assert_eq!(
        enforce_interface(&mut reader, &String16::from_str("my.echo")),
        Ok(CallerContext {
            strict_policy: STRICT_MODE_PENALTY_GATHER,
            work_source: UNSET_WORK_SOURCE
        })
    );
}

#[test]
fn a_header_for_another_interface_or_protocol_is_a_bad_type() {
    let mut parcel = begin_transaction(0, Some(7), &String16::from_str("my.echo")).unwrap();
    assert_eq!(
        enforce_interface(&mut parcel.as_readable(), &String16::from_str("my.ech0")),
        Err(Error::from(ErrorKind::BadType))
    );
    let mut other = Parcel::from_vec(vec![0, 0, 0, 0, 0, 0, 0, 0, 1, 2, 3, 4, 0, 0, 0, 0]);
    let mut reader = other.as_readable();
    assert_eq!(
        enforce_interface(&mut reader, &String16::from_str("")),
        Err(Error::from(ErrorKind::BadType))
    );
    assert_eq!(reader.cursor.pos, 12);
    assert!(reader.cursor.request_header_present);
    assert_eq!(reader.cursor.work_source_request_header_pos, 16);
    let mut short = Parcel::from_vec(vec![0, 0, 0, 0, 0, 0]);
    assert_eq!(
        enforce_interface(&mut short.as_readable(), &String16::from_str("")),
        Err(Error::from(ErrorKind::NotEnoughData))
    );
}

#[test]
fn a_one_way_call_reads_no_reply() {
    let mut reply = Parcel::from_vec(vec![5, 0, 0, 0]);
    assert_eq!(read_reply::<u32>(true, &mut reply), Ok(None));
    assert_eq!(reply.data_position(), 0);
    assert_eq!(read_reply::<u32>(false, &mut reply), Ok(Some(5)));
    assert_eq!(reply.data_position(), 4);
    assert_eq!(read_reply::<u32>(false, &mut reply), Err(Error::from(ErrorKind::NotEnoughData)));
    assert_eq!(transaction_flags(true), 1);
    assert_eq!(transaction_flags(false), 0);
}

#[test]
fn runs_of_code_units_are_compared_unit_by_unit() {
    assert!(same_units(&[], &[]));
    assert!(same_units(&[1, 2, 3], &[1, 2, 3]));
    assert!(!same_units(&[1, 2, 3], &[1, 2]));
    assert!(!same_units(&[1, 2, 3], &[1, 2, 4]));
}

#[test]
fn a_handle_to_an_interface_is_written_as_its_reference() {
    let local: Strong<BpEcho, BnEcho> = Strong::from_native(Binder::with_identity(
        BnEcho(Box::new(EchoService {})),
        0x40,
        0x48,
    ));
    let binder: SIBinder<BnEcho> = SIBinder::Remote(ProxyHandle::new(6, "my.echo"));
    let remote = Strong::<BpEcho, BnEcho>::try_from(binder).unwrap();
    let mut parcel = Parcel::new();
    {
        let mut writer = parcel.as_writable();
        writer.write(&local).unwrap();
        writer.write(&Some(remote)).unwrap();
        writer.write::<Option<Strong<BpEcho, BnEcho>>>(&None).unwrap();
    }
    assert_eq!(parcel.objects(), &[0, 24]);
    let mut reader = parcel.as_readable();
    assert_eq!(reader.read::<Reference>(), Ok(Reference::Local { binder: 0x40, cookie: 0x48 }));
    assert_eq!(reader.read::<Reference>(), Ok(Reference::Remote { handle: 6 }));
    assert_eq!(reader.read::<Option<Reference>>(), Ok(None));
}

#[test]
fn an_absent_interface_is_written_as_an_empty_record() {
    let mut parcel = Parcel::new();
    {
        let mut writer = parcel.as_writable();
        writer.write::<Option<SIBinder<BnEcho>>>(&None).unwrap();
        writer
            .write(&Some(SIBinder::<BnEcho>::Remote(ProxyHandle::new(9, "my.echo"))))
            .unwrap();
    }
    assert_eq!(parcel.objects(), &[24]);
    let mut reader = parcel.as_readable();
    assert_eq!(reader.read::<Option<Reference>>(), Ok(None));
    assert_eq!(reader.read::<Option<Reference>>(), Ok(Some(Reference::Remote { handle: 9 })));
}
