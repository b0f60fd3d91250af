use azul::refany::AzRefAny;
use azul::refany::RefArena;
use azul::string::AzString;

const TAG_I32: u64 = 1;
const TAG_F64: u64 = 2;
const TAG_STRING: u64 = 3;

fn erase_i32(arena: &mut RefArena, v: i32, tag: u64) -> AzRefAny {
    AzRefAny::new(
        v.to_le_bytes().to_vec(),
        tag,
        AzString::from_const_str("i32"),
        arena,
    )
}

#[test]
fn downcast_with_matching_tag_yields_the_value() {
    let mut arena = RefArena::new();
    let handle = erase_i32(&mut arena, 42, TAG_I32);
    let guard = handle.downcast_ref(&mut arena, TAG_I32).unwrap();
    let bytes = guard.bytes(&arena);
    assert_eq!(bytes.as_slice(), 42i32.to_le_bytes().as_slice());
    guard.delete(&mut arena);
    handle.delete(&mut arena);
}

#[test]
fn downcast_with_wrong_tag_is_refused() {
    let mut arena = RefArena::new();
    let handle = erase_i32(&mut arena, 42, TAG_I32);
    assert!(handle.downcast_ref(&mut arena, TAG_F64).is_none());
    assert!(handle.downcast_mut(&mut arena, TAG_F64).is_none());
    handle.delete(&mut arena);
}

#[test]
fn destructor_runs_once_on_the_last_of_three_copies() {
    let mut arena = RefArena::new();
    let first = AzRefAny::new(
        "hi".as_bytes().to_vec(),
        TAG_STRING,
        AzString::from_const_str("string"),
        &mut arena,
    );
    let i = first.sharing_info.index;
    let second = first.clone(&mut arena);
    let third = first.clone(&mut arena);
    assert_eq!(arena.copies_of(i), 3);

    first.delete(&mut arena);
    assert_eq!(arena.destructor_runs_of(i), 0);
    assert!(arena.payload_present(i));

    second.delete(&mut arena);
    assert_eq!(arena.destructor_runs_of(i), 0);
    assert!(arena.payload_present(i));

    third.delete(&mut arena);
    assert_eq!(arena.destructor_runs_of(i), 1);
    assert!(!arena.payload_present(i));
}

#[test]
fn exclusive_guard_blocks_every_downcast_until_released() {
    let mut arena = RefArena::new();
    let handle = erase_i32(&mut arena, 7, TAG_I32);
    let twin = handle.clone(&mut arena);

    let guard = handle.downcast_mut(&mut arena, TAG_I32).unwrap();
    assert!(twin.downcast_mut(&mut arena, TAG_I32).is_none());
    assert!(twin.downcast_ref(&mut arena, TAG_I32).is_none());

    guard.delete(&mut arena);
    let again = twin.downcast_mut(&mut arena, TAG_I32);
    assert!(again.is_some());
    again.unwrap().delete(&mut arena);

    handle.delete(&mut arena);
    twin.delete(&mut arena);
}

#[test]
fn shared_guards_stack_and_block_the_exclusive_one() {
    let mut arena = RefArena::new();
    let handle = erase_i32(&mut arena, 9, TAG_I32);
    let i = handle.sharing_info.index;

    let g1 = handle.downcast_ref(&mut arena, TAG_I32).unwrap();
    let g2 = handle.downcast_ref(&mut arena, TAG_I32).unwrap();
    assert_eq!(arena.refs_of(i), 2);
    assert!(handle.downcast_mut(&mut arena, TAG_I32).is_none());

    g1.delete(&mut arena);
    assert!(handle.downcast_mut(&mut arena, TAG_I32).is_none());

    g2.delete(&mut arena);
    let guard = handle.downcast_mut(&mut arena, TAG_I32);
    assert!(guard.is_some());
    guard.unwrap().delete(&mut arena);
    handle.delete(&mut arena);
}

#[test]
fn exclusive_guard_mutates_the_payload() {
    let mut arena = RefArena::new();
    let handle = erase_i32(&mut arena, 1, TAG_I32);
    let guard = handle.downcast_mut(&mut arena, TAG_I32).unwrap();
    guard.set_bytes(&mut arena, 5i32.to_le_bytes().to_vec());
    assert_eq!(guard.bytes(&arena).as_slice(), 5i32.to_le_bytes().as_slice());
    guard.delete(&mut arena);

    let reader = handle.downcast_ref(&mut arena, TAG_I32).unwrap();
    assert_eq!(reader.bytes(&arena).as_slice(), 5i32.to_le_bytes().as_slice());
    reader.delete(&mut arena);
    handle.delete(&mut arena);
}

#[test]
fn guard_keeps_the_object_alive_after_the_last_handle() {
    let mut arena = RefArena::new();
    let handle = erase_i32(&mut arena, 11, TAG_I32);
    let i = handle.sharing_info.index;
    let guard = handle.downcast_ref(&mut arena, TAG_I32).unwrap();

    handle.delete(&mut arena);
    assert_eq!(arena.destructor_runs_of(i), 0);
    assert_eq!(guard.bytes(&arena).as_slice(), 11i32.to_le_bytes().as_slice());

    guard.delete(&mut arena);
    assert_eq!(arena.destructor_runs_of(i), 1);
    assert!(!arena.payload_present(i));
}

#[test]
fn type_metadata_is_readable() {
    let mut arena = RefArena::new();
    let handle = erase_i32(&mut arena, 3, TAG_I32);
    assert!(handle.is_type(&arena, TAG_I32));
    assert!(!handle.is_type(&arena, TAG_F64));
    assert_eq!(handle.get_type_label(&arena).as_bytes(), "i32".as_bytes());
    assert!(!handle.is_dead);
    handle.delete(&mut arena);
}

#[test]
fn counter_primitives_follow_the_checked_discipline() {
    let mut arena = RefArena::new();
    let handle = erase_i32(&mut arena, 21, TAG_I32);
    let i = handle.sharing_info.index;

    assert!(handle.sharing_info.can_be_shared(&arena));
    assert!(handle.sharing_info.can_be_shared_mut(&arena));

    handle.sharing_info.increase_ref(&mut arena);
    assert_eq!(arena.refs_of(i), 1);
    assert!(handle.sharing_info.can_be_shared(&arena));
    assert!(!handle.sharing_info.can_be_shared_mut(&arena));
    handle.sharing_info.decrease_ref(&mut arena);

    handle.sharing_info.increase_refmut(&mut arena);
    assert_eq!(arena.mut_refs_of(i), 1);
    assert!(!handle.sharing_info.can_be_shared(&arena));
    assert!(!handle.sharing_info.can_be_shared_mut(&arena));
    handle.sharing_info.decrease_refmut(&mut arena);

    let extra = handle.sharing_info.clone(&mut arena);
    assert_eq!(arena.copies_of(i), 2);
    assert_eq!(extra.index, i);

    handle.delete(&mut arena);
    assert_eq!(arena.copies_of(i), 1);
    assert_eq!(arena.destructor_runs_of(i), 0);
}
