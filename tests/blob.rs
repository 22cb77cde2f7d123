use recapn::ptr::{BlobBuilder, BlobReader};
use recapn::{Builder, Reader, TryFromSliceError, MAX_BLOB_LEN};

fn too_large(bytes: &[u8]) -> TryFromSliceError {
    match Reader::try_from_slice(bytes) {
        Ok(_) => panic!("an oversized slice was accepted"),
        Err(e) => e,
    }
}

fn builder_over(bytes: &mut [u8]) -> Builder<'_> {
    Builder::from(BlobBuilder::new(bytes).unwrap())
}

#[test]
fn try_from_empty_slice() {
    let r = Reader::try_from_slice(&[]).unwrap();
    assert_eq!(r.len(), 0);
    assert!(r.is_empty());
    assert_eq!(r.as_slice(), &[] as &[u8]);
}

#[test]
fn try_from_three_bytes() {
    let r = Reader::try_from_slice(&[1, 2, 3]).unwrap();
    assert_eq!(r.len(), 3);
    assert!(!r.is_empty());
    assert_eq!(r.as_slice(), &[1u8, 2, 3]);
}

#[test]
fn try_from_slice_keeps_bytes() {
    let inputs: Vec<Vec<u8>> = vec![vec![], vec![0], vec![255, 0, 7], (0..=255u8).collect(), vec![9; 4096]];
    for input in &inputs {
        let r = Reader::try_from_slice(input).unwrap();
        assert_eq!(r.as_slice(), input.as_slice());
        assert_eq!(r.len() as usize, input.len());
    }
}

#[test]
fn largest_blob_is_accepted() {
    let bytes = vec![0u8; MAX_BLOB_LEN as usize];
    let r = Reader::try_from_slice(&bytes).unwrap();
    assert_eq!(r.len(), MAX_BLOB_LEN);
    let fixed = Reader::from_slice(&bytes);
    assert_eq!(fixed.len(), MAX_BLOB_LEN);
}

#[test]
fn oversized_slice_is_too_large() {
    let bytes = vec![0u8; MAX_BLOB_LEN as usize + 1];
    let err = too_large(&bytes);
    assert!(err.message().contains("too large"));
    assert_eq!(err.message(), "attempted to create a data blob from too large a slice");
    let mut owned = vec![0u8; MAX_BLOB_LEN as usize + 1];
    assert!(BlobBuilder::new(&mut owned).is_none());
    assert!(BlobReader::new(&bytes).is_none());
}

#[test]
fn errors_are_equal() {
    let a = too_large(&vec![1u8; MAX_BLOB_LEN as usize + 1]);
    let b = a;
    assert_eq!(a, b);
}

#[test]
fn empty_blobs() {
    let r = Reader::empty();
    assert_eq!(r.len(), 0);
    assert!(r.is_empty());
    let b = Builder::empty();
    assert_eq!(b.len(), 0);
    assert!(b.is_empty());
    assert!(Reader::default() == Reader::empty());
    assert_eq!(Reader::default().as_slice(), &[] as &[u8]);
}

#[test]
fn empty_builder_slice() {
    let b = Builder::empty();
    assert_eq!(b.as_slice(), &[] as &[u8]);
    assert!(b.is_empty());
}

#[test]
fn write_through_mutable_view() {
    let mut bytes = [0u8, 0, 0, 0];
    let mut b = builder_over(&mut bytes);
    b.as_slice_mut()[1] = 9;
    assert_eq!(b.as_slice(), &[0u8, 9, 0, 0]);
    assert_eq!(b.len(), 4);
    drop(b);
    assert_eq!(bytes, [0, 9, 0, 0]);
}

#[test]
fn read_after_write() {
    let mut bytes = [1u8, 2, 3, 4, 5];
    let mut b = builder_over(&mut bytes);
    for i in 0..5 {
        b.as_slice_mut()[i] = 100 + i as u8;
        assert_eq!(b.as_slice()[i], 100 + i as u8);
        assert_eq!(b.len(), 5);
    }
    b[0] = 7;
    assert_eq!(b.as_slice(), &[7u8, 101, 102, 103, 104]);
}

#[test]
fn reader_of_builder_aliases() {
    let mut bytes = [3u8, 1, 4];
    let mut b = builder_over(&mut bytes);
    assert_eq!(b.as_reader().as_slice(), b.as_slice());
    b.as_slice_mut()[2] = 8;
    assert_eq!(b.as_reader().as_slice(), &[3u8, 1, 8]);
    assert_eq!(b.as_reader().as_slice(), b.as_slice());
    assert_eq!(b.as_reader().len(), 3);
}

#[test]
fn reader_equals_builder_of_same_bytes() {
    let r = Reader::from_slice(&[5, 6]);
    let mut bytes = [5u8, 6];
    let b = builder_over(&mut bytes);
    assert!(r == b);
    assert!(b == r);
}

#[test]
fn equality_across_kinds() {
    let x: &[u8] = &[1, 2, 3];
    let r = Reader::from_slice(x);
    let r2 = Reader::try_from_slice(&[1, 2, 3]).unwrap();
    let mut bytes = [1u8, 2, 3];
    let b = builder_over(&mut bytes);
    let mut other = [1u8, 2, 3];
    let b2 = builder_over(&mut other);
    assert!(r == r);
    assert!(r == r2 && r2 == r);
    assert!(b == b);
    assert!(b == b2 && b2 == b);
    assert!(b == r && r == b);
    assert!(r == *x && *x == r);
    assert!(b == *x && *x == b);
}

#[test]
fn inequality() {
    let r = Reader::from_slice(&[1, 2, 3]);
    let shorter = Reader::from_slice(&[1, 2]);
    let mut bytes = [1u8, 2, 4];
    let b = builder_over(&mut bytes);
    assert!(r != shorter);
    assert!(shorter != r);
    assert!(r != b && b != r);
    let other: &[u8] = &[1, 2, 4];
    assert!(r != *other);
    assert!(b == *other);
    assert!(Reader::empty() != r);
    assert!(Builder::empty() != b);
}

#[test]
fn conversions_keep_bytes() {
    let handle = BlobReader::new(&[4, 2]).unwrap();
    let r = Reader::from(handle);
    assert_eq!(r.as_slice(), &[4u8, 2]);
    let back: BlobReader<'_> = r.into();
    assert_eq!(back.as_slice(), &[4u8, 2]);
    assert_eq!(back.len(), 2);
    let as_handle: &BlobReader<'_> = r.as_ref();
    assert_eq!(as_handle.as_slice(), &[4u8, 2]);
    let as_bytes: &[u8] = r.as_ref();
    assert_eq!(as_bytes, &[4u8, 2]);
    assert_eq!(&*r, &[4u8, 2]);

    let mut bytes = [8u8, 9];
    let b = builder_over(&mut bytes);
    let as_bytes: &[u8] = b.as_ref();
    assert_eq!(as_bytes, &[8u8, 9]);
    let as_handle: &BlobBuilder<'_> = b.as_ref();
    assert_eq!(as_handle.len(), 2);
    let mut handle: BlobBuilder<'_> = b.into();
    handle.as_slice_mut()[0] = 1;
    assert_eq!(handle.as_reader().as_slice(), &[1u8, 9]);
    assert_eq!(&*Builder::from(handle), &[1u8, 9]);
}
