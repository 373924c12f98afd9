use byteview::bytes::ByteSlice;
use byteview::bytes_sized::BytesSized;

#[test]
fn bytes_sized_test_bytes_sized_new() {
    let bytes = BytesSized::<4>::new();
    assert_eq!(*bytes.as_slice(), [0; 4]);
}

#[test]
fn bytes_sized_test_bytes_sized_from_slice() {
    let slice = [1, 2, 3, 4];
    let bytes = BytesSized::from_slice(&slice);
    assert_eq!(*bytes.as_slice(), slice);
}

#[test]
fn bytes_sized_test_bytes_sized_as_slice() {
    let slice = [1, 2, 3, 4];
    let bytes = BytesSized::from_slice(&slice);
    assert_eq!(bytes.as_slice(), &slice);
}

#[test]
fn bytes_sized_test_bytes_sized_as_bytes() {
    let slice = [1, 2, 3, 4];
    let bytes = BytesSized::from_slice(&slice);
    assert_eq!(bytes.as_bytes(), ByteSlice::from_slice(&slice));
}

#[test]
fn bytes_sized_test_bytes_sized_split_at() {
    let bytes = BytesSized::from_slice(&[1, 2, 3, 4, 5]);
    let (left, right) = bytes.split_at(3);
    assert_eq!(left, ByteSlice::from_slice(&[1, 2, 3]));
    assert_eq!(right, ByteSlice::from_slice(&[4, 5]));
}

#[test]
fn bytes_sized_test_bytes_sized_split_at_checked() {
    let bytes = BytesSized::from_slice(&[1, 2, 3, 4, 5]);
    let (left, right) = bytes.split_at_checked(3).unwrap();
    assert_eq!(left, ByteSlice::from_slice(&[1, 2, 3]));
    assert_eq!(right, ByteSlice::from_slice(&[4, 5]));

    assert_eq!(bytes.split_at_checked(6), None);
}

#[test]
fn bytes_sized_test_bytes_sized_is_ascii() {
    let ascii_bytes = BytesSized::from_slice(b"Hello");
    assert!(ascii_bytes.is_ascii());

    let non_ascii_bytes = BytesSized::from_slice(&[0xFF, 0x80, 0x7F, 0x40]);
    assert!(!non_ascii_bytes.is_ascii());
}

#[test]
fn bytes_sized_test_bytes_sized_trim_ascii_start() {
    let bytes = BytesSized::from_slice(b"   Hello");
    let trimmed = bytes.trim_ascii_start();
    assert_eq!(trimmed, ByteSlice::from_slice(b"Hello"));
}

#[test]
fn bytes_sized_test_bytes_sized_trim_ascii_end() {
    let bytes = BytesSized::from_slice(b"Hello   ");
    let trimmed = bytes.trim_ascii_end();
    assert_eq!(trimmed, ByteSlice::from_slice(b"Hello"));
}

#[test]
fn bytes_sized_test_bytes_sized_trim_ascii() {
    let bytes = BytesSized::from_slice(b"   Hello   ");
    let trimmed = bytes.trim_ascii();
    assert_eq!(trimmed, ByteSlice::from_slice(b"Hello"));
}

#[test]
fn bytes_sized_test_bytes_sized_is_empty() {
    let bytes = BytesSized::from_slice(&[]);
    assert!(bytes.is_empty());

    let non_empty_bytes = BytesSized::from_slice(&[1]);
    assert!(!non_empty_bytes.is_empty());
}

#[test]
fn bytes_sized_test_bytes_sized_len() {
    let bytes = BytesSized::from_slice(&[1, 2, 3, 4]);
    assert_eq!(bytes.len(), 4);
}

#[test]
fn bytes_sized_test_bytes_sized_first() {
    let bytes = BytesSized::from_slice(&[1, 2, 3, 4]);
    assert_eq!(bytes.first(), Some(&1));

    let empty_bytes = BytesSized::<0>::new();
    assert_eq!(empty_bytes.first(), None);
}

#[test]
fn bytes_sized_test_bytes_sized_last() {
    let bytes = BytesSized::from_slice(&[1, 2, 3, 4]);
    assert_eq!(bytes.last(), Some(&4));

    let empty_bytes = BytesSized::<0>::new();
    assert_eq!(empty_bytes.last(), None);
}

#[test]
fn bytes_sized_test_bytes_sized_split_first() {
    let bytes = BytesSized::from_slice(&[1, 2, 3, 4]);
    let (first, rest) = bytes.split_first().unwrap();
    assert_eq!(first, &1);
    assert_eq!(rest, ByteSlice::from_slice(&[2, 3, 4]));

    let empty_bytes = BytesSized::<0>::new();
    assert_eq!(empty_bytes.split_first(), None);
}

#[test]
fn bytes_sized_test_bytes_sized_split_last() {
    let bytes = BytesSized::from_slice(&[1, 2, 3, 4]);
    let (last, rest) = bytes.split_last().unwrap();
    assert_eq!(last, &4);
    assert_eq!(rest, ByteSlice::from_slice(&[1, 2, 3]));

    let empty_bytes = BytesSized::<0>::new();
    assert_eq!(empty_bytes.split_last(), None);
}

#[test]
fn bytes_sized_test_bytes_sized_first_chunk() {
    let bytes = BytesSized::from_slice(&[1, 2, 3, 4, 5]);
    assert_eq!(bytes.first_chunk::<2>(), Some([1, 2]));
    assert_eq!(bytes.first_chunk::<6>(), None);
}

#[test]
fn bytes_sized_test_bytes_sized_last_chunk() {
    let bytes = BytesSized::from_slice(&[1, 2, 3, 4, 5]);
    assert_eq!(bytes.last_chunk::<2>(), Some([4, 5]));
    assert_eq!(bytes.last_chunk::<6>(), None);
}

#[test]
fn bytes_sized_test_bytes_sized_split_first_chunk() {
    let bytes = BytesSized::from_slice(&[1, 2, 3, 4, 5]);
    let (chunk, rest) = bytes.split_first_chunk::<2>().unwrap();
    assert_eq!(chunk, [1, 2]);
    assert_eq!(rest.as_slice(), &[3, 4, 5]);

    let bytes = BytesSized::from_slice(&[1, 2]);
    assert_eq!(bytes.split_first_chunk::<3>(), None);
}

#[test]
fn bytes_sized_test_bytes_sized_split_last_chunk() {
    let bytes = BytesSized::from_slice(&[1, 2, 3, 4, 5]);
    let (rest, chunk) = bytes.split_last_chunk::<2>().unwrap();
    assert_eq!(rest.as_slice(), &[1, 2, 3]);
    assert_eq!(chunk, [4, 5]);

    let bytes = BytesSized::from_slice(&[1, 2]);
    assert_eq!(bytes.split_last_chunk::<3>(), None);
}

#[test]
fn bytes_sized_test_bytes_sized_equality() {
    let bytes1 = BytesSized::from_slice(&[1, 2, 3, 4]);
    let bytes2 = BytesSized::from_slice(&[1, 2, 3, 4]);
    let bytes3 = BytesSized::from_slice(&[1, 2, 3, 5]);

    assert_eq!(bytes1, bytes2);
    assert_ne!(bytes1, bytes3);
}

#[test]
fn bytes_sized_test_bytes_sized_from_array() {
    let arr = [1, 2, 3, 4];
    let bytes: BytesSized<4> = arr.into();
    assert_eq!(*bytes.as_slice(), arr);
}

#[test]
fn bytes_sized_test_bytes_sized_into_array() {
    let bytes = BytesSized::from_slice(&[1, 2, 3, 4]);
    let arr: [u8; 4] = bytes.into();
    assert_eq!(arr, [1, 2, 3, 4]);
}

#[test]
fn bytes_sized_test_bytes_sized_partial_eq_with_slice() {
    let bytes = BytesSized::from_slice(&[1, 2, 3, 4]);
    assert_eq!(bytes.as_slice(), &[1, 2, 3, 4]);
    assert_ne!(*bytes.as_slice(), [1, 2, 3, 5]);
}
