use rsbinder::parcel::{ImmutableParcel, Parcel, Readable};
use rsbinder::record::{
    FlatBinderObject, BINDER_TYPE_BINDER, BINDER_TYPE_FD, BINDER_TYPE_HANDLE, FLAT_OBJECT_SIZE,
};
use rsbinder::string16::String16;
use rsbinder::wire::{checked_pad_size, get_le, pad_size, put_le};
use rsbinder::{Error, ErrorKind, Result};

#[test]
fn test_primitives() -> Result<()> {
    let v_i32: i32 = 1234;
    let v_f32: f32 = 5678.0;
    let v_u32: u32 = 9012;
    let v_i64: i64 = 3456;
    let v_u64: u64 = 7890;
    let v_f64: f64 = 9876.0;

    let v_str: String16 = String16::from_str("Hello World");

    let mut parcel = Parcel::new();

    {
        let mut writer = parcel.as_writable();
        writer.write::<i32>(&v_i32)?;
        writer.write::<u32>(&v_u32)?;
        writer.write::<u32>(&v_f32.to_bits())?;
        writer.write::<i64>(&v_i64)?;
        writer.write::<u64>(&v_u64)?;
        writer.write::<u64>(&v_f64.to_bits())?;

        writer.write(&v_str)?;
    }

    parcel.set_data_position(0);

    {
        let mut reader = parcel.as_readable();
        assert_eq!(reader.read::<i32>()?, v_i32);
        assert_eq!(reader.read::<u32>()?, v_u32);
        assert_eq!(f32::from_bits(reader.read::<u32>()?), v_f32);
        assert_eq!(reader.read::<i64>()?, v_i64);
        assert_eq!(reader.read::<u64>()?, v_u64);
        assert_eq!(f64::from_bits(reader.read::<u64>()?), v_f64);
        assert_eq!(reader.read::<String16>()?, v_str);
    }

    Ok(())
}

#[test]
fn test_errors() -> Result<()> {
    Ok(())
}

#[test]
fn pad_size_rounds_up_to_the_next_multiple_of_four() {
    assert_eq!(pad_size(0), 0);
    assert_eq!(pad_size(5), 8);
    assert_eq!(pad_size(8), 8);
    assert_eq!(pad_size(9), 12);
    for len in 0..64usize {
        let padded = pad_size(len);
        assert_eq!(padded % 4, 0);
        assert!(len <= padded && padded < len + 4);
        assert_eq!(pad_size(padded), padded);
    }
}

#[test]
fn checked_pad_size_refuses_what_a_usize_cannot_hold() {
    assert_eq!(checked_pad_size(9), Some(12));
    assert_eq!(checked_pad_size(usize::MAX - 3), Some(usize::MAX - 3));
    assert_eq!(checked_pad_size(usize::MAX - 2), None);
    assert_eq!(checked_pad_size(usize::MAX), None);
}

#[test]
fn numbers_are_laid_out_least_significant_byte_first() {
    let mut out = vec![0xffu8];
    put_le(&mut out, 0x1234_5678, 4);
    assert_eq!(out, vec![0xff, 0x78, 0x56, 0x34, 0x12]);
    put_le(&mut out, 0x0102_0304_0506_0708, 8);
    assert_eq!(&out[5..], &[8, 7, 6, 5, 4, 3, 2, 1]);
    assert_eq!(get_le(&[0x78, 0x56, 0x34, 0x12]), 0x1234_5678);
    assert_eq!(get_le(&[]), 0);
    assert_eq!(get_le(&[1, 2, 3, 4, 5, 6, 7, 8]), 0x0807_0605_0403_0201);
}

#[test]
fn scalars_are_written_padded_to_four_bytes() {
    let mut parcel = Parcel::new();
    {
        let mut writer = parcel.as_writable();
        writer.write::<i32>(&1234).unwrap();
        writer.write::<u8>(&0xab).unwrap();
        writer.write::<i16>(&-2).unwrap();
        writer.write::<bool>(&true).unwrap();
        writer.write::<i64>(&-1).unwrap();
    }
    assert_eq!(
        parcel.as_slice(),
        &[
            0xd2, 0x04, 0, 0, //
            0xab, 0, 0, 0, //
            0xfe, 0xff, 0, 0, //
            1, 0, 0, 0, //
            0xff, 0xff, 0xff, 0xff, 0xff, 0xff, 0xff, 0xff,
        ]
    );
    assert!(parcel.objects().is_empty());
    assert_eq!(parcel.data_position(), 0);
}

#[test]
fn every_scalar_type_is_read_back_as_written() {
    let mut parcel = Parcel::new();
    {
        let mut writer = parcel.as_writable();
        writer.write::<bool>(&true).unwrap();
        writer.write::<bool>(&false).unwrap();
        writer.write::<i8>(&i8::MIN).unwrap();
        writer.write::<u8>(&u8::MAX).unwrap();
        writer.write::<i16>(&i16::MIN).unwrap();
        writer.write::<u16>(&u16::MAX).unwrap();
        writer.write::<i32>(&i32::MIN).unwrap();
        writer.write::<u32>(&u32::MAX).unwrap();
        writer.write::<i64>(&i64::MIN).unwrap();
        writer.write::<u64>(&u64::MAX).unwrap();
    }
    let mut reader = parcel.as_readable();
    assert_eq!(reader.read::<bool>(), Ok(true));
    assert_eq!(*reader.cursor, rsbinder::model::Cursor {
        pos: 4,
        next_object_hint: 0,
        request_header_present: false,
        work_source_request_header_pos: 0,
    });
    assert_eq!(reader.read::<bool>(), Ok(false));
    assert_eq!(reader.read::<i8>(), Ok(i8::MIN));
    assert_eq!(reader.read::<u8>(), Ok(u8::MAX));
    assert_eq!(reader.read::<i16>(), Ok(i16::MIN));
    assert_eq!(reader.read::<u16>(), Ok(u16::MAX));
    assert_eq!(reader.cursor.pos, 24);
    assert_eq!(reader.read::<i32>(), Ok(i32::MIN));
    assert_eq!(reader.read::<u32>(), Ok(u32::MAX));
    assert_eq!(reader.cursor.pos, 32);
    assert_eq!(reader.read::<i64>(), Ok(i64::MIN));
    assert_eq!(reader.cursor.pos, 40);
    assert_eq!(reader.read::<u64>(), Ok(u64::MAX));
    assert_eq!(reader.cursor.pos, 48);
    assert_eq!(reader.read::<u8>(), Err(Error::from(ErrorKind::NotEnoughData)));
}

#[test]
fn three_scalars_are_read_back_in_order_and_the_cursor_ends_at_twelve() {
    let mut parcel = Parcel::new();
    {
        let mut writer = parcel.as_writable();
        writer.write::<i32>(&1234).unwrap();
        writer.write::<u32>(&9012).unwrap();
        writer.write::<u32>(&5678.0f32.to_bits()).unwrap();
    }
    parcel.set_data_position(0);
    {
        let mut reader = parcel.as_readable();
        assert_eq!(reader.read::<i32>(), Ok(1234));
        assert_eq!(reader.read::<u32>(), Ok(9012));
        assert_eq!(reader.read::<u32>().map(f32::from_bits), Ok(5678.0));
    }
    assert_eq!(parcel.data_position(), 12);
    assert_eq!(parcel.len(), 0);
    assert!(parcel.is_empty());
}

#[test]
fn a_read_of_more_than_remains_fails_and_changes_nothing() {
    let mut parcel = Parcel::from_vec(vec![7u8; 12]);
    parcel.set_data_position(4);
    assert_eq!(parcel.len(), 8);
    {
        let mut reader = parcel.as_readable();
        assert_eq!(
            reader.read_data(12).map(|bytes| bytes.len()),
            Err(Error::from(ErrorKind::NotEnoughData))
        );
        assert_eq!(reader.len(), 8);
    }
    assert_eq!(parcel.len(), 8);
    assert_eq!(parcel.data_position(), 4);
    {
        let mut reader = parcel.as_readable();
        assert_eq!(reader.read_data(8), Ok(&[7u8; 8][..]));
        assert_eq!(reader.len(), 0);
    }
    assert_eq!(parcel.len(), 0);
    assert_eq!(parcel.data_position(), 12);
}

#[test]
fn a_read_takes_the_padded_bytes() {
    let mut parcel = Parcel::from_vec(vec![1, 2, 3, 4, 5, 6, 7, 8, 9, 10]);
    let mut reader = parcel.as_readable();
    assert_eq!(reader.read_data(5), Ok(&[1u8, 2, 3, 4, 5, 6, 7, 8][..]));
    assert_eq!(reader.cursor.pos, 8);
    assert_eq!(
        reader.read_data(1).map(|bytes| bytes.len()),
        Err(Error::from(ErrorKind::NotEnoughData))
    );
    assert_eq!(reader.cursor.pos, 8);
    assert_eq!(reader.read_data(0), Ok(&[][..]));
    assert_eq!(
        reader.read_data(usize::MAX).map(|bytes| bytes.len()),
        Err(Error::from(ErrorKind::NotEnoughData))
    );
}

#[test]
fn a_cursor_beyond_the_end_makes_reads_fail() {
    let mut parcel = Parcel::from_vec(vec![0u8; 8]);
    parcel.set_data_position(9);
    assert!(parcel.is_empty());
    let mut reader = parcel.as_readable();
    assert_eq!(reader.read::<i32>(), Err(Error::from(ErrorKind::NotEnoughData)));
    assert_eq!(
        reader.read_data(0).map(|bytes| bytes.len()),
        Err(Error::from(ErrorKind::NotEnoughData))
    );
    assert_eq!(reader.cursor.pos, 9);
}

#[test]
fn a_record_is_twenty_four_bytes_at_fixed_offsets() {
    let record = FlatBinderObject {
        type_: BINDER_TYPE_HANDLE,
        flags: 0x0000_0100,
        payload: 0x0102_0304_0506_0708,
        cookie: 0x1112_1314_1516_1718,
    };
    let bytes = record.to_bytes();
    assert_eq!(bytes.len(), FLAT_OBJECT_SIZE);
    assert_eq!(
        bytes,
        vec![
            0x85, 0x2a, 0x68, 0x73, //
            0x00, 0x01, 0x00, 0x00, //
            0x08, 0x07, 0x06, 0x05, 0x04, 0x03, 0x02, 0x01, //
            0x18, 0x17, 0x16, 0x15, 0x14, 0x13, 0x12, 0x11,
        ]
    );
    assert_eq!(FlatBinderObject::from_bytes(&bytes), record);
    assert_eq!(record.handle(), 0x0506_0708);
    assert!(!record.is_null());
    assert!(!record.is_fd());
}

#[test]
fn record_constructors_set_the_tag() {
    assert_eq!(
        FlatBinderObject::from_handle(7),
        FlatBinderObject { type_: 0x7368_2a85, flags: 0, payload: 7, cookie: 0 }
    );
    assert_eq!(
        FlatBinderObject::from_local(0x1000, 0x2000),
        FlatBinderObject { type_: 0x7362_2a85, flags: 0, payload: 0x1000, cookie: 0x2000 }
    );
    assert_eq!(
        FlatBinderObject::from_fd(3, 1),
        FlatBinderObject { type_: 0x6664_2a85, flags: 0, payload: 3, cookie: 1 }
    );
    assert!(FlatBinderObject::from_fd(3, 1).is_fd());
    assert!(FlatBinderObject::null().is_null());
    assert_eq!(FlatBinderObject::null().type_, BINDER_TYPE_BINDER);
}

fn parcel_with_records(count: u64) -> Parcel {
    let mut parcel = Parcel::new();
    let mut writer = parcel.as_writable();
    writer.write::<i32>(&-1).unwrap();
    for index in 0..count {
        writer.write_object(&FlatBinderObject::from_local(0x1000 + index, index), false).unwrap();
        writer.write::<u32>(&(index as u32)).unwrap();
    }
    parcel
}

#[test]
fn written_records_are_registered_at_their_offsets() {
    let parcel = parcel_with_records(5);
    assert_eq!(parcel.objects(), &[4, 32, 60, 88, 116]);
    assert_eq!(parcel.as_slice().len(), 4 + 5 * 28);
    for (index, offset) in parcel.objects().iter().enumerate() {
        let start = *offset as usize;
        let record = FlatBinderObject::from_bytes(&parcel.as_slice()[start..start + 24]);
        assert_eq!(record, FlatBinderObject::from_local(0x1000 + index as u64, index as u64));
    }
}

#[test]
fn a_record_without_payload_is_registered_only_on_request() {
    let mut parcel = Parcel::new();
    {
        let mut writer = parcel.as_writable();
        assert_eq!(writer.write_object(&FlatBinderObject::null(), false), Ok(()));
        assert_eq!(writer.write_object(&FlatBinderObject::from_fd(0, 0), false), Ok(()));
        assert_eq!(writer.write_object(&FlatBinderObject::from_fd(0, 0), true), Ok(()));
        assert_eq!(writer.write_object(&FlatBinderObject::from_handle(1), false), Ok(()));
    }
    assert_eq!(parcel.as_slice().len(), 96);
    assert_eq!(parcel.objects(), &[48, 72]);
}

#[test]
fn read_object_finds_registered_offsets_in_any_order() {
    let mut parcel = parcel_with_records(5);
    let offsets: Vec<u64> = parcel.objects().to_vec();
    let order = [3usize, 0, 4, 4, 1, 2, 0, 3];
    for hint in [0usize, 2, 5, 17] {
        for index in order {
            parcel.set_data_position(offsets[index] as usize);
            let mut reader = parcel.as_readable();
            if index == 0 {
                reader.cursor.next_object_hint = hint;
            }
            assert_eq!(
                reader.read_object(false),
                Ok(FlatBinderObject::from_local(0x1000 + index as u64, index as u64))
            );
            assert_eq!(reader.cursor.next_object_hint, index + 1);
            assert_eq!(reader.cursor.pos, offsets[index] as usize + 24);
        }
    }
}

#[test]
fn read_object_refuses_what_is_not_registered() {
    let mut parcel = parcel_with_records(3);
    for position in [0usize, 8, 28, 36, 64] {
        parcel.set_data_position(position);
        let mut reader = parcel.as_readable();
        reader.cursor.next_object_hint = 1;
        assert_eq!(reader.read_object(true), Err(Error::from(ErrorKind::BadType)));
        assert_eq!(reader.cursor.next_object_hint, 1);
        assert_eq!(reader.cursor.pos, position + 24);
    }
    parcel.set_data_position(0);
    assert_eq!(parcel.as_readable().read_object(false), Err(Error::from(ErrorKind::BadType)));
    parcel.set_data_position(8);
    assert_eq!(
        parcel.as_readable().read_object(false),
        Ok(FlatBinderObject { type_: 0, flags: 0x1000, payload: 0, cookie: 0 })
    );
    parcel.set_data_position(70);
    let mut reader = parcel.as_readable();
    assert_eq!(reader.read_object(false), Err(Error::from(ErrorKind::NotEnoughData)));
    assert_eq!(reader.cursor.pos, 70);
}

#[test]
fn read_object_accepts_an_empty_record_unless_asked_to_look_it_up() {
    let mut parcel = Parcel::new();
    parcel.as_writable().write_object(&FlatBinderObject::null(), false).unwrap();
    assert!(parcel.objects().is_empty());
    assert_eq!(parcel.as_readable().read_object(false), Ok(FlatBinderObject::null()));
    assert_eq!(parcel.data_position(), 24);
    parcel.set_data_position(0);
    assert_eq!(parcel.as_readable().read_object(true), Err(Error::from(ErrorKind::BadType)));

    let mut looked_up = Parcel::new();
    looked_up.as_writable().write_object(&FlatBinderObject::from_fd(0, 0), true).unwrap();
    assert_eq!(looked_up.objects(), &[0]);
    assert_eq!(looked_up.as_readable().read_object(true), Ok(FlatBinderObject::from_fd(0, 0)));
}

#[test]
fn only_registered_descriptor_records_name_descriptors() {
    let mut parcel = Parcel::new();
    {
        let mut writer = parcel.as_writable();
        writer.write_object(&FlatBinderObject::from_fd(11, 1), true).unwrap();
        writer.write_object(&FlatBinderObject::from_handle(12), false).unwrap();
        writer.write_object(&FlatBinderObject::from_fd(0, 0), false).unwrap();
        writer.write_object(&FlatBinderObject::from_fd(0, 0), true).unwrap();
        writer.write_data(&FlatBinderObject::from_fd(99, 0).to_bytes());
        let wide = FlatBinderObject {
            type_: BINDER_TYPE_FD,
            flags: 0,
            payload: 0x1_0000_002a,
            cookie: 0,
        };
        writer.write_object(&wide, true).unwrap();
    }
    assert_eq!(parcel.objects(), &[0, 24, 72, 120]);
    assert_eq!(parcel.file_descriptors(), vec![11, 0, 0x2a]);
    assert_eq!(Parcel::new().file_descriptors(), Vec::<u32>::new());
    assert_eq!(BINDER_TYPE_FD, 0x6664_2a85);
}

#[test]
fn the_request_header_position_is_recorded_once() {
    let mut parcel = Parcel::from_vec(vec![0u8; 8]);
    {
        let mut reader = parcel.as_readable();
        reader.update_work_source_request_header_pos();
        assert!(reader.cursor.request_header_present);
        assert_eq!(reader.cursor.work_source_request_header_pos, 8);
    }
    parcel.extend_from_slice(&[1, 2, 3, 4]);
    {
        let mut reader = parcel.as_readable();
        reader.update_work_source_request_header_pos();
        assert_eq!(reader.cursor.work_source_request_header_pos, 8);
    }
    let mut fresh = Parcel::new();
    {
        let mut writer = fresh.as_writable();
        writer.write::<i32>(&1).unwrap();
        writer.update_work_source_request_header_pos();
        writer.write::<i32>(&2).unwrap();
        writer.update_work_source_request_header_pos();
    }
    let reader = fresh.as_readable();
    assert!(reader.cursor.request_header_present);
    assert_eq!(reader.cursor.work_source_request_header_pos, 4);
}

#[test]
fn a_borrowed_parcel_reads_what_it_was_given() {
    let data = [1u8, 0, 0, 0, 2, 0, 0, 0, 3, 0];
    let objects = [4u64];
    let mut parcel = ImmutableParcel::from_ipc_parts(&data, &objects);
    assert_eq!(parcel.len(), 10);
    assert_eq!(parcel.data_position(), 0);
    assert_eq!(parcel.objects(), &[4]);
    assert_eq!(parcel.read(3), Ok(&[1u8, 0, 0][..]));
    assert_eq!(parcel.data_position(), 3);
    assert_eq!(
        parcel.read(8).map(|bytes| bytes.len()),
        Err(Error::from(ErrorKind::NotEnoughData))
    );
    assert_eq!(parcel.data_position(), 3);
    assert_eq!(parcel.read(7), Ok(&[0u8, 2, 0, 0, 0, 3, 0][..]));
    assert_eq!(parcel.len(), 0);
    parcel.set_data_position(4);
    assert_eq!(parcel.as_readable().read::<u32>(), Ok(2));
    assert_eq!(parcel.data_position(), 8);
    assert_eq!(*parcel.next_object_hint(), 0);
    *parcel.next_object_hint() = 1;
    assert_eq!(parcel.as_readable().cursor.next_object_hint, 1);
    parcel.update_work_source_request_header_pos();
    parcel.update_work_source_request_header_pos();
    let reader = parcel.as_readable();
    assert!(reader.cursor.request_header_present);
    assert_eq!(reader.cursor.work_source_request_header_pos, 10);
}

#[test]
fn arrays_are_read_from_the_padded_bytes() {
    let mut parcel = Parcel::from_vec(vec![1, 2, 3, 4, 5, 6, 7, 8, 9, 10, 11, 12]);
    let mut reader = parcel.as_readable();
    assert_eq!(reader.read_array::<4>(), Ok([1, 2, 3, 4]));
    assert_eq!(reader.cursor.pos, 4);
    assert_eq!(<[u8; 0]>::try_from(&mut reader), Ok([]));
    assert_eq!(reader.read_array::<5>(), Err(Error::from(ErrorKind::Conversion)));
    assert_eq!(reader.cursor.pos, 12);
    assert_eq!(reader.read_array::<4>(), Err(Error::from(ErrorKind::NotEnoughData)));
    reader.cursor.pos = 4;
    assert_eq!(<[u8; 8]>::try_from(&mut reader), Ok([5, 6, 7, 8, 9, 10, 11, 12]));
}

#[test]
fn a_parcel_has_room_for_what_it_holds() {
    let mut parcel = Parcel::with_capacity(64);
    assert!(parcel.capacity() >= 64);
    parcel.extend_from_slice(&[0u8; 100]);
    assert!(parcel.capacity() >= 100);
    assert_eq!(parcel.as_slice().len(), 100);
    assert!(Parcel::new().capacity() >= 256);
}

#[test]
fn the_dump_shows_position_length_and_bytes() {
    let mut parcel = Parcel::new();
    {
        let mut writer = parcel.as_writable();
        writer.write::<u32>(&0x6463_6261).unwrap();
        writer.write::<u32>(&0x6867_6665).unwrap();
        writer.write::<u32>(&0x6c6b_6a69).unwrap();
        writer.write::<u32>(&0x706f_6e6d).unwrap();
    }
    parcel.set_data_position(12);
    assert_eq!(
        parcel.dump(),
        "Parcel: pos 12, len 16\n\
         Length: 16 (0x10) bytes\n\
         0000:   61 62 63 64  65 66 67 68  69 6a 6b 6c  6d 6e 6f 70   abcdefghijklmnop"
    );
    assert_eq!(Parcel::new().dump(), "Parcel: pos 0, len 0\nLength: 0 (0x0) bytes\n");
    let mut long = Parcel::from_vec(vec![0u8; 1005]);
    long.set_data_position(18446744073709551615);
    assert!(long.dump().starts_with(
        "Parcel: pos 18446744073709551615, len 1005\nLength: 1005 (0x3ed) bytes\n0000:   00 00"
    ));
}
