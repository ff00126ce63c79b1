//! The packed records of a batch read.
use peios::error::EINVAL;
use peios::registry::{parse_value_records, ValueRecord, ValueType};
use peios::Error;

fn pack(records: &[(&[u8], u32, &[u8])]) -> Vec<u8> {
    let mut out = Vec::new();
    for (name, ty, data) in records {
        out.extend_from_slice(&(name.len() as u32).to_le_bytes());
        out.extend_from_slice(name);
        out.extend_from_slice(&ty.to_le_bytes());
        out.extend_from_slice(&(data.len() as u32).to_le_bytes());
        out.extend_from_slice(data);
    }
    out
}

fn flat(records: Vec<ValueRecord>) -> Vec<(Vec<u8>, ValueType, Vec<u8>)> {
    records.into_iter().map(|r| (r.name, r.ty, r.data)).collect()
}

#[test]
fn packed_records_come_back_in_order() {
    let buf = pack(&[(b"Path", 1, b"/bin\0"), (b"", 4, &[1, 0, 0, 0]), (b"x", 0xdead_beef, b"")]);
    let got = flat(parse_value_records(&buf, 3).unwrap());
    assert_eq!(
        got,
        vec![
            (b"Path".to_vec(), ValueType(1), b"/bin\0".to_vec()),
            (Vec::new(), ValueType(4), vec![1, 0, 0, 0]),
            (b"x".to_vec(), ValueType(0xdead_beef), Vec::new()),
        ]
    );
}

#[test]
fn bytes_behind_the_records_are_ignored() {
    let mut buf = pack(&[(b"a", 3, b"zz")]);
    buf.extend_from_slice(&[9; 7]);
    assert_eq!(
        flat(parse_value_records(&buf, 1).unwrap()),
        vec![(b"a".to_vec(), ValueType(3), b"zz".to_vec())]
    );
    assert!(parse_value_records(&buf, 0).unwrap().is_empty());
}

#[test]
fn every_cut_is_refused() {
    let buf = pack(&[(b"name", 1, b"data"), (b"n", 2, b"d")]);
    for cut in 0..buf.len() {
        match parse_value_records(&buf[..cut], 2) {
            Err(e) => assert_eq!(e, Error { errno: EINVAL }),
            Ok(_) => panic!("a cut at {cut} was accepted"),
        }
    }
    assert_eq!(parse_value_records(&buf, 2).unwrap().len(), 2);
    assert_eq!(parse_value_records(&buf, 3).err(), Some(Error { errno: EINVAL }));
}

#[test]
fn a_length_past_the_end_is_refused() {
    let mut buf = pack(&[(b"name", 1, b"data")]);
    buf[0..4].copy_from_slice(&u32::MAX.to_le_bytes());
    assert_eq!(parse_value_records(&buf, 1).err(), Some(Error { errno: EINVAL }));
}

#[test]
fn integers_are_little_endian() {
    let buf = [1, 0, 0, 0, b'k', 0x78, 0x56, 0x34, 0x12, 2, 0, 0, 0, 0xaa, 0xbb];
    assert_eq!(
        flat(parse_value_records(&buf, 1).unwrap()),
        vec![(b"k".to_vec(), ValueType(0x1234_5678), vec![0xaa, 0xbb])]
    );
}

#[test]
fn nothing_asked_of_nothing_is_nothing() {
    assert!(parse_value_records(&[], 0).unwrap().is_empty());
    assert_eq!(parse_value_records(&[], 1).err(), Some(Error { errno: EINVAL }));
}

#[test]
fn records_compare_by_their_parts() {
    let buf = pack(&[(b"a", 3, b"zz")]);
    let want = ValueRecord { name: b"a".to_vec(), ty: ValueType(3), data: b"zz".to_vec() };
    assert_eq!(parse_value_records(&buf, 1), Ok(vec![want.clone()]));
    assert_ne!(want, ValueRecord { ty: ValueType(4), ..want.clone() });
}
