use artichoke_backend::arena::{Arena, ArenaIndex, IndexError};

#[test]
fn savepoints_restore_in_reverse_order() {
    let mut arena = Arena::new();
    let outer = ArenaIndex::new(&mut arena, Some(3)).unwrap();
    let inner = ArenaIndex::new(&mut arena, Some(5)).unwrap();
    assert_eq!(arena.depth(), 2);
    assert_eq!(inner.restore(&mut arena), Some(5));
    assert_eq!(outer.restore(&mut arena), Some(3));
    assert_eq!(arena.depth(), 0);
}

#[test]
fn stale_savepoint_is_refused() {
    let mut arena = Arena::new();
    let outer = ArenaIndex::new(&mut arena, Some(3)).unwrap();
    let inner = ArenaIndex::new(&mut arena, Some(5)).unwrap();
    assert_eq!(outer.restore(&mut arena), Some(3));
    assert_eq!(inner.restore(&mut arena), None);
    assert_eq!(arena.depth(), 0);
}

#[test]
fn unavailable_arena_is_an_index_error() {
    let mut arena = Arena::new();
    assert_eq!(ArenaIndex::new(&mut arena, None).unwrap_err(), IndexError::new());
    assert_eq!(ArenaIndex::new(&mut arena, Some(-1)).unwrap_err(), IndexError::new());
    let _outer = ArenaIndex::new(&mut arena, Some(4)).unwrap();
    assert_eq!(ArenaIndex::new(&mut arena, Some(3)).unwrap_err(), IndexError);
    assert_eq!(arena.depth(), 1);
}
