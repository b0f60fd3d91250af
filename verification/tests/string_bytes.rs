use azul::string::AzString;
use azul::vector::BufferHeap;
use azul::vector::VectorDestructor;

#[test]
fn const_str_wraps_the_utf8_bytes_without_owning_them() {
    let s = AzString::from_const_str("hi");
    assert_eq!(s.as_bytes(), b"hi");
    assert_eq!(s.len(), 2);
    assert_eq!(s.vec.destructor, VectorDestructor::NoDestructor);
}

#[test]
fn native_string_moves_its_bytes_into_an_owned_buffer() {
    let mut heap = BufferHeap::new();
    let s = AzString::from_string(String::from("grüße"), &mut heap);
    assert_eq!(s.as_bytes(), "grüße".as_bytes());
    assert_eq!(s.len(), "grüße".len());
    assert!(s.vec.destructor != VectorDestructor::NoDestructor);
    assert_eq!(heap.allocations(), 1);
    s.vec.delete(&mut heap);
    assert_eq!(heap.frees(), 1);
}

#[test]
fn empty_strings_hold_no_bytes() {
    let s = AzString::from_const_str("");
    assert_eq!(s.len(), 0);
    assert_eq!(s.as_bytes(), b"");
}
