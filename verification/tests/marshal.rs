use rsbinder::parcel::{Parcel, ReadableParcel, WritableParcel};
use rsbinder::parcelable::{
    deserialize_enum, deserialize_non_null, deserialize_parcelable, deserialize_parcelable_from,
    deserialize_parcelable_option, deserialize_parcelable_option_from, serialize_enum,
    serialize_parcelable, serialize_parcelable_option, BinderEnum, Deserialize, Parcelable,
    Serialize, NON_NULL_PARCELABLE_FLAG, NULL_PARCELABLE_FLAG,
};
use rsbinder::reference::{read_file_descriptor, Reference};
use rsbinder::string16::String16;
use rsbinder::{Error, ErrorKind, Result};

struct Point {
    x: i32,
    y: i64,
}

impl Serialize for Point {
    fn serialize(&self, parcel: &mut WritableParcel<'_>) -> Result<()> {
        parcel.write(&self.x)?;
        parcel.write(&self.y)
    }
}

impl Deserialize for Point {
    fn deserialize(parcel: &mut ReadableParcel<'_>) -> Result<Self> {
        let x = parcel.read::<i32>()?;
        let y = parcel.read::<i64>()?;
        Ok(Point { x, y })
    }
}

#[test]
fn a_type_of_the_caller_is_written_and_read() {
    let mut parcel = Parcel::new();
    parcel.as_writable().write(&Point { x: -3, y: 1 << 40 }).unwrap();
    assert_eq!(parcel.as_slice().len(), 12);
    let point = parcel.as_readable().read::<Point>().unwrap();
    assert_eq!(point.x, -3);
    assert_eq!(point.y, 1 << 40);
    assert_eq!(parcel.data_position(), 12);
}

#[test]
fn an_absent_value_is_a_flag_and_no_more() {
    let mut parcel = Parcel::new();
    parcel.as_writable().write::<Option<u32>>(&None).unwrap();
    assert_eq!(parcel.as_slice(), &[0, 0, 0, 0]);
    assert_eq!(parcel.as_readable().read::<Option<u32>>(), Ok(None));
    assert_eq!(parcel.data_position(), 4);
    assert_eq!(NULL_PARCELABLE_FLAG, 0);
}

#[test]
fn a_present_value_follows_its_flag() {
    let mut parcel = Parcel::new();
    {
        let mut writer = parcel.as_writable();
        writer.write::<Option<u32>>(&Some(0xdead_beef)).unwrap();
        writer.write::<Option<i64>>(&Some(-2)).unwrap();
        writer.write::<Option<bool>>(&Some(false)).unwrap();
        writer.write::<Option<String16>>(&Some(String16::from_str("hi"))).unwrap();
        writer.write::<Option<String16>>(&None).unwrap();
    }
    assert_eq!(&parcel.as_slice()[..8], &[1, 0, 0, 0, 0xef, 0xbe, 0xad, 0xde]);
    let mut reader = parcel.as_readable();
    assert_eq!(reader.read::<Option<u32>>(), Ok(Some(0xdead_beef)));
    assert_eq!(reader.cursor.pos, 8);
    assert_eq!(reader.read::<Option<i64>>(), Ok(Some(-2)));
    assert_eq!(reader.read::<Option<bool>>(), Ok(Some(false)));
    assert_eq!(reader.read::<Option<String16>>(), Ok(Some(String16::from_str("hi"))));
    assert_eq!(reader.read::<Option<String16>>(), Ok(None));
    assert_eq!(reader.read::<Option<u8>>(), Err(Error::from(ErrorKind::NotEnoughData)));
    assert_eq!(NON_NULL_PARCELABLE_FLAG, 1);
}

#[test]
fn any_flag_but_the_absent_one_means_present() {
    let mut parcel = Parcel::from_vec(vec![9, 0, 0, 0, 5, 0, 0, 0, 1, 0, 0, 0]);
    let mut reader = parcel.as_readable();
    assert_eq!(reader.read::<Option<u16>>(), Ok(Some(5)));
    assert_eq!(reader.read::<Option<u16>>(), Err(Error::from(ErrorKind::NotEnoughData)));
    assert_eq!(reader.cursor.pos, 12);
}

#[test]
fn a_value_that_must_be_present_refuses_the_absent_flag() {
    let mut parcel = Parcel::from_vec(vec![0, 0, 0, 0, 1, 0, 0, 0, 7, 0, 0, 0, 1, 0]);
    let mut reader = parcel.as_readable();
    assert_eq!(
        deserialize_non_null::<u32>(&mut reader),
        Err(Error::from(ErrorKind::UnexpectedNull))
    );
    assert_eq!(reader.cursor.pos, 4);
    assert_eq!(deserialize_non_null::<u32>(&mut reader), Ok(7));
    assert_eq!(
        deserialize_non_null::<u32>(&mut reader),
        Err(Error::from(ErrorKind::NotEnoughData))
    );
}

#[test]
fn text_is_a_count_and_code_units() {
    let mut parcel = Parcel::new();
    {
        let mut writer = parcel.as_writable();
        writer.write(&String16::from_str("abc")).unwrap();
        writer.write(&String16::from_str("")).unwrap();
        writer.write(&String16::from_str("\u{20ac}\u{1f600}")).unwrap();
    }
    assert_eq!(
        parcel.as_slice(),
        &[
            3, 0, 0, 0, 0x61, 0, 0x62, 0, 0x63, 0, 0, 0, //
            0, 0, 0, 0, //
            3, 0, 0, 0, 0xac, 0x20, 0x3d, 0xd8, 0x00, 0xde, 0, 0,
        ]
    );
    let mut reader = parcel.as_readable();
    let first = reader.read::<String16>().unwrap();
    assert_eq!(first.units(), &[0x61, 0x62, 0x63]);
    assert_eq!(first.to_text(), Ok("abc".to_string()));
    assert_eq!(reader.cursor.pos, 12);
    assert_eq!(reader.read::<String16>().unwrap().to_text(), Ok(String::new()));
    assert_eq!(reader.read::<String16>().unwrap().to_text(), Ok("\u{20ac}\u{1f600}".to_string()));
    assert_eq!(reader.cursor.pos, 28);
}

#[test]
fn text_that_is_cut_short_or_counted_below_zero_is_refused() {
    let mut parcel = Parcel::from_vec(vec![3, 0, 0, 0, 0x61, 0, 0x62, 0]);
    assert_eq!(
        parcel.as_readable().read::<String16>(),
        Err(Error::from(ErrorKind::NotEnoughData))
    );
    assert_eq!(parcel.data_position(), 4);
    let mut negative = Parcel::from_vec(vec![0xff, 0xff, 0xff, 0xff, 0, 0, 0, 0]);
    assert_eq!(
        negative.as_readable().read::<String16>(),
        Err(Error::from(ErrorKind::Conversion))
    );
    assert_eq!(negative.data_position(), 4);
}

#[test]
fn code_units_that_are_no_text_do_not_convert() {
    let lone = String16::from_units(vec![0x61, 0xd800]);
    assert_eq!(lone.to_text(), Err(Error::from(ErrorKind::Conversion)));
    assert_eq!(lone.units(), &[0x61, 0xd800]);
    let pair = String16::from_units(vec![0xd83d, 0xde00]);
    assert_eq!(pair.to_text(), Ok("\u{1f600}".to_string()));
    assert_eq!(String16::from_str("Hello World").units().len(), 11);
}

#[test]
fn references_are_written_as_records() {
    let mut parcel = Parcel::new();
    {
        let mut writer = parcel.as_writable();
        writer.write(&Reference::Remote { handle: 5 }).unwrap();
        writer.write(&Reference::Local { binder: 0x10, cookie: 0x20 }).unwrap();
        writer.write(&Reference::FileDescriptor { fd: 0, cookie: 0 }).unwrap();
        writer.write::<Option<Reference>>(&None).unwrap();
        writer.write(&Some(Reference::Remote { handle: 0 })).unwrap();
    }
    assert_eq!(parcel.objects(), &[0, 24, 48]);
    assert_eq!(&parcel.as_slice()[..4], &[0x85, 0x2a, 0x68, 0x73]);
    assert_eq!(parcel.file_descriptors(), vec![0]);
    let mut reader = parcel.as_readable();
    assert_eq!(reader.read::<Reference>(), Ok(Reference::Remote { handle: 5 }));
    assert_eq!(reader.cursor.next_object_hint, 1);
    assert_eq!(
        reader.read::<Option<Reference>>(),
        Ok(Some(Reference::Local { binder: 0x10, cookie: 0x20 }))
    );
    assert_eq!(reader.read::<Reference>(), Ok(Reference::FileDescriptor { fd: 0, cookie: 0 }));
    assert_eq!(reader.read::<Option<Reference>>(), Ok(None));
    assert_eq!(reader.read::<Reference>(), Ok(Reference::Remote { handle: 0 }));
    assert_eq!(reader.read::<Reference>(), Err(Error::from(ErrorKind::NotEnoughData)));
    reader.cursor.pos = 72;
    assert_eq!(reader.read::<Reference>(), Err(Error::from(ErrorKind::UnexpectedNull)));
    reader.cursor.pos = 48;
    assert_eq!(read_file_descriptor(&mut reader), Ok(0));
    reader.cursor.pos = 0;
    assert_eq!(read_file_descriptor(&mut reader), Err(Error::from(ErrorKind::BadType)));
    reader.cursor.pos = 96;
    assert_eq!(read_file_descriptor(&mut reader), Err(Error::from(ErrorKind::BadType)));
}

#[test]
fn a_local_object_without_payload_is_not_read_back() {
    let mut parcel = Parcel::new();
    {
        let mut writer = parcel.as_writable();
        writer.write(&Reference::Local { binder: 0, cookie: 5 }).unwrap();
        writer.write(&Reference::Local { binder: 0, cookie: 0 }).unwrap();
        writer.write(&Reference::Local { binder: 5, cookie: 0 }).unwrap();
    }
    assert_eq!(parcel.objects(), &[48]);
    let mut reader = parcel.as_readable();
    assert_eq!(reader.read::<Reference>(), Err(Error::from(ErrorKind::BadType)));
    assert_eq!(reader.read::<Option<Reference>>(), Ok(None));
    assert_eq!(reader.read::<Reference>(), Ok(Reference::Local { binder: 5, cookie: 0 }));
}

#[test]
fn a_record_with_an_unknown_tag_is_no_reference() {
    let mut parcel = Parcel::new();
    {
        let mut writer = parcel.as_writable();
        let odd = rsbinder::record::FlatBinderObject { type_: 7, flags: 0, payload: 1, cookie: 0 };
        writer.write_object(&odd, false).unwrap();
    }
    assert_eq!(parcel.as_readable().read::<Reference>(), Err(Error::from(ErrorKind::BadType)));
    assert_eq!(Reference::Remote { handle: 9 }.to_record().handle(), 9);
    assert_eq!(
        Reference::from_record(Reference::FileDescriptor { fd: 4, cookie: 1 }.to_record()),
        Ok(Some(Reference::FileDescriptor { fd: 4, cookie: 1 }))
    );
    assert!(Reference::FileDescriptor { fd: 4, cookie: 1 }.null_meta());
    assert!(!Reference::Remote { handle: 4 }.null_meta());
}

#[derive(Default, Debug, PartialEq)]
struct Size {
    width: u32,
    height: u32,
}

impl Parcelable for Size {
    fn write_to_parcel(&self, parcel: &mut WritableParcel<'_>) -> Result<()> {
        parcel.write(&self.width)?;
        parcel.write(&self.height)
    }

    fn read_from_parcel(&mut self, parcel: &mut ReadableParcel<'_>) -> Result<()> {
        self.width = parcel.read()?;
        self.height = parcel.read()?;
        Ok(())
    }
}

#[test]
fn a_structured_value_stands_behind_a_flag() {
    let mut parcel = Parcel::new();
    {
        let mut writer = parcel.as_writable();
        serialize_parcelable(&Size { width: 3, height: 4 }, &mut writer).unwrap();
        serialize_parcelable_option::<Size>(None, &mut writer).unwrap();
        serialize_parcelable_option(Some(&Size { width: 5, height: 6 }), &mut writer).unwrap();
        serialize_parcelable_option::<Size>(None, &mut writer).unwrap();
        serialize_parcelable(&Size { width: 7, height: 8 }, &mut writer).unwrap();
    }
    assert_eq!(&parcel.as_slice()[..16], &[1, 0, 0, 0, 3, 0, 0, 0, 4, 0, 0, 0, 0, 0, 0, 0]);
    let mut reader = parcel.as_readable();
    assert_eq!(deserialize_parcelable::<Size>(&mut reader), Ok(Size { width: 3, height: 4 }));
    assert_eq!(
        deserialize_parcelable::<Size>(&mut reader),
        Err(Error::from(ErrorKind::UnexpectedNull))
    );
    assert_eq!(
        deserialize_parcelable_option::<Size>(&mut reader),
        Ok(Some(Size { width: 5, height: 6 }))
    );
    let mut held = Size { width: 1, height: 1 };
    assert_eq!(
        deserialize_parcelable_from(&mut held, &mut reader),
        Err(Error::from(ErrorKind::UnexpectedNull))
    );
    assert_eq!(held, Size { width: 1, height: 1 });
    let mut optional = None;
    assert_eq!(deserialize_parcelable_option_from(&mut optional, &mut reader), Ok(()));
    assert_eq!(optional, Some(Size { width: 7, height: 8 }));
    assert_eq!(
        deserialize_parcelable_option::<Size>(&mut reader),
        Err(Error::from(ErrorKind::NotEnoughData))
    );
}

#[derive(Debug, Default, Copy, Clone, PartialOrd, Ord, PartialEq, Eq, Hash)]
struct Color(pub i8);

impl Color {
    pub const RED: Self = Self(0);
    pub const BLUE: Self = Self(-2);
}

impl BinderEnum for Color {
    type Backing = i8;

    fn backing(&self) -> i8 {
        self.0
    }

    fn from_backing(backing: i8) -> Self {
        Color(backing)
    }
}

#[test]
fn an_enumeration_is_its_backing_value() {
    let mut parcel = Parcel::new();
    {
        let mut writer = parcel.as_writable();
        serialize_enum(&Color::BLUE, &mut writer).unwrap();
        serialize_enum(&Color::RED, &mut writer).unwrap();
    }
    assert_eq!(parcel.as_slice(), &[0xfe, 0, 0, 0, 0, 0, 0, 0]);
    let mut reader = parcel.as_readable();
    assert_eq!(deserialize_enum::<Color>(&mut reader), Ok(Color::BLUE));
    assert_eq!(deserialize_enum::<Color>(&mut reader), Ok(Color::RED));
    assert_eq!(
        deserialize_enum::<Color>(&mut reader),
        Err(Error::from(ErrorKind::NotEnoughData))
    );
}

#[test]
fn errors_report_their_kind() {
    for kind in [
        ErrorKind::NotEnoughData,
        ErrorKind::BadType,
        ErrorKind::UnexpectedNull,
        ErrorKind::Conversion,
    ] {
        assert_eq!(Error::from(kind).kind(), kind);
    }
    assert_ne!(Error::from(ErrorKind::BadType), Error::from(ErrorKind::NotEnoughData));
}
