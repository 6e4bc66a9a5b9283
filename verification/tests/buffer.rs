use azdls_writer::buffer::{aggregate, ChunkedBytes, VectoredBytes, WriteBuf};

fn ranges(parts: &[&str]) -> Vec<Vec<u8>> {
    parts.iter().map(|p| p.as_bytes().to_vec()).collect()
}

#[test]
fn aggregation_keeps_length_and_order() {
    let source = VectoredBytes::new(ranges(&["hello", " ", "world"])).unwrap();
    assert_eq!(source.remaining(), 11);
    let body = aggregate(&source);
    assert_eq!(body.as_slice(), b"hello world");
    assert_eq!(body.len(), 11);
    assert!(!body.is_empty());
}

#[test]
fn aggregation_of_nothing_is_empty() {
    let source = VectoredBytes::new(Vec::new()).unwrap();
    assert_eq!(source.remaining(), 0);
    assert_eq!(source.range_count(), 0);
    let body = aggregate(&source);
    assert_eq!(body.len(), 0);
    assert!(body.is_empty());
    assert_eq!(body.as_slice(), b"");
}

#[test]
fn aggregation_skips_no_empty_range_boundary() {
    let source = VectoredBytes::new(ranges(&["", "a", "", "", "bc", ""])).unwrap();
    assert_eq!(source.range_count(), 6);
    assert_eq!(source.remaining(), 3);
    assert_eq!(aggregate(&source).as_slice(), b"abc");
}

#[test]
fn aggregation_keeps_every_byte_value() {
    let all: Vec<u8> = (0..=255u8).collect();
    let source = VectoredBytes::new(vec![all[..100].to_vec(), all[100..].to_vec()]).unwrap();
    assert_eq!(source.remaining(), 256);
    assert_eq!(aggregate(&source).as_slice(), &all[..]);
}

#[test]
fn vectored_bytes_gives_the_first_bytes_in_order() {
    let source = VectoredBytes::new(ranges(&["hello", " ", "world"])).unwrap();
    let expected = b"hello world";
    for size in 0..=11usize {
        let taken = source.vectored_bytes(size);
        let joined: Vec<u8> = taken.iter().flatten().copied().collect();
        assert_eq!(joined, &expected[..size], "size {size}");
    }
}

#[test]
fn vectored_bytes_cuts_inside_a_range() {
    let source = VectoredBytes::new(ranges(&["hello", " ", "world"])).unwrap();
    assert_eq!(source.vectored_bytes(3), vec![b"hel".to_vec()]);
    assert_eq!(source.vectored_bytes(5), vec![b"hello".to_vec()]);
    assert_eq!(source.vectored_bytes(8), vec![b"hello".to_vec(), b" ".to_vec(), b"wo".to_vec()]);
    assert_eq!(source.vectored_bytes(11), ranges(&["hello", " ", "world"]));
    assert_eq!(source.vectored_bytes(0), Vec::<Vec<u8>>::new());
}

#[test]
fn chunked_bytes_joins_ranges_end_to_end() {
    let body = ChunkedBytes::from_vec(ranges(&["ab", "", "cde", "f"]));
    assert_eq!(body.as_slice(), b"abcdef");
    assert_eq!(body.len(), 6);
    let none = ChunkedBytes::from_vec(Vec::new());
    assert!(none.is_empty());
    let blank = ChunkedBytes::from_vec(ranges(&["", ""]));
    assert!(blank.is_empty());
    assert_eq!(blank.len(), 0);
}

#[test]
fn chunked_bytes_with_equal_content_are_equal() {
    let one = ChunkedBytes::from_vec(ranges(&["ab", "c"]));
    let other = ChunkedBytes::from_vec(ranges(&["a", "bc"]));
    assert_eq!(one, other);
    assert_ne!(one, ChunkedBytes::from_vec(ranges(&["ab"])));
}
