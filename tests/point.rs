use hardware_vault::point::{cng_blob_from_point, point_from_cng_blob};

fn point() -> Vec<u8> {
    let mut p = vec![4u8];
    p.extend(1..=64u8);
    p
}

fn blob() -> Vec<u8> {
    let mut b = vec![0x45u8, 0x43, 0x4B, 0x31, 32, 0, 0, 0];
    b.extend(1..=64u8);
    b
}

#[test]
fn point_becomes_cng_blob() {
    assert_eq!(cng_blob_from_point(&point()), Some(blob()));
}

#[test]
fn cng_blob_becomes_point() {
    assert_eq!(point_from_cng_blob(&blob()), Some(point()));
}

#[test]
fn other_encodings_are_refused() {
    let mut compressed = vec![2u8];
    compressed.extend(1..=32u8);
    assert_eq!(cng_blob_from_point(&compressed), None);
    let mut wrong_tag = point();
    wrong_tag[0] = 3;
    assert_eq!(cng_blob_from_point(&wrong_tag), None);
    let mut private_blob = blob();
    private_blob[3] = 0x32;
    assert_eq!(point_from_cng_blob(&private_blob), None);
    assert_eq!(point_from_cng_blob(&blob()[..71]), None);
    assert_eq!(point_from_cng_blob(&[]), None);
}
