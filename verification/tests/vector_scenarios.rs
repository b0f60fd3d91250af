use azul::vector::BufferHeap;
use azul::vector::Vector;
use azul::vector::VectorDestructor;

#[test]
fn from_vec_holds_exactly_the_given_elements() {
    let mut heap = BufferHeap::new();
    let v = Vector::from_vec(vec![1u8, 2, 3], &mut heap);
    assert_eq!(v.as_slice(), &[1u8, 2, 3]);
    assert_eq!(v.len(), 3);
    assert!(!v.is_empty());
    v.delete(&mut heap);
}

#[test]
fn const_slice_clone_shares_the_same_pointer() {
    let mut heap = BufferHeap::new();
    let v = Vector::from_const_slice(vec![1u8, 2, 3]);
    let c = v.clone_self(&mut heap);
    assert_eq!(c.as_slice(), &[1u8, 2, 3]);
    assert_eq!(c.ptr_as_usize(), v.ptr_as_usize());
    assert_eq!(c.get_destructor(), VectorDestructor::NoDestructor);
    assert_eq!(heap.allocations(), 0);
    v.delete(&mut heap);
    c.delete(&mut heap);
    assert_eq!(heap.frees(), 0);
}

#[test]
fn owning_clone_gets_a_distinct_buffer_with_equal_contents() {
    let mut heap = BufferHeap::new();
    let v = Vector::from_vec(vec![1u8, 2, 3], &mut heap);
    let c = v.clone_self(&mut heap);
    assert_eq!(c.as_slice(), v.as_slice());
    assert_ne!(c.ptr_as_usize(), v.ptr_as_usize());
    assert_eq!(heap.allocations(), 2);
    v.delete(&mut heap);
    c.delete(&mut heap);
    assert_eq!(heap.frees(), 2);
    assert_eq!(heap.allocations(), 2);
}

#[test]
fn deleting_a_borrowed_buffer_frees_nothing() {
    let mut heap = BufferHeap::new();
    let v: Vector<u8> = Vector::from_const_slice(vec![9u8]);
    assert_eq!(v.get_destructor(), VectorDestructor::NoDestructor);
    v.delete(&mut heap);
    assert_eq!(heap.frees(), 0);
}

#[test]
fn get_answers_none_out_of_range() {
    let v: Vector<u8> = Vector::from_const_slice(vec![5u8, 6]);
    assert_eq!(v.get(0), Some(&5u8));
    assert_eq!(v.get(1), Some(&6u8));
    assert_eq!(v.get(2), None);
    assert_eq!(v.get(usize::MAX), None);
}

#[test]
fn empty_vector_is_safe_to_read_and_delete() {
    let mut heap = BufferHeap::new();
    let v: Vector<u8> = Vector::from_const_slice(Vec::new());
    assert!(v.is_empty());
    assert_eq!(v.len(), 0);
    assert_eq!(v.capacity(), 0);
    assert_eq!(v.get(0), None);
    let c = v.clone_self(&mut heap);
    assert!(c.is_empty());
    v.delete(&mut heap);
    c.delete(&mut heap);
    assert_eq!(heap.frees(), 0);
}

#[test]
fn frees_never_outnumber_allocations() {
    let mut heap = BufferHeap::new();
    let a = Vector::from_vec(vec![1u8], &mut heap);
    let b = Vector::from_vec(vec![2u8], &mut heap);
    let c = a.clone_self(&mut heap);
    a.delete(&mut heap);
    b.delete(&mut heap);
    c.delete(&mut heap);
    assert_eq!(heap.allocations(), 3);
    assert_eq!(heap.frees(), 3);
}
