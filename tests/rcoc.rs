use rcoc::cache::{OcamlValueCache, INVALID_GENERATION, UNIT};
use rcoc::rc::{RcOc, RcOcHeap};
use std::cmp::Ordering;

#[test]
fn new_reads_back_its_value() {
    let mut heap = RcOcHeap::new();
    let p = RcOc::new(&mut heap, 5u64);
    assert_eq!(*p.as_ref(&heap), 5);
    let mut names = RcOcHeap::new();
    let q = RcOc::new(&mut names, String::from("hack"));
    assert_eq!(q.as_ref(&names), "hack");
}

#[test]
fn clone_reads_same_value_and_same_cell() {
    let mut heap = RcOcHeap::new();
    let p = RcOc::new(&mut heap, vec![1u8, 2, 3]);
    let q = p.clone(&mut heap);
    assert_eq!(q.as_ref(&heap), &vec![1u8, 2, 3]);
    assert!(RcOc::ptr_eq(&p, &q));
}

#[test]
fn separate_pointers_to_equal_values_are_not_identical() {
    let mut heap = RcOcHeap::new();
    let p = RcOc::new(&mut heap, 9u32);
    let q = RcOc::new(&mut heap, 9u32);
    assert!(!RcOc::ptr_eq(&p, &q));
    assert!(RcOc::eq(&p, &q, &heap));
}

#[test]
fn memo_hit_in_its_generation_and_miss_elsewhere() {
    let mut heap = RcOcHeap::new();
    let p = RcOc::new(&mut heap, 1i64);
    p.set_cached_value(&mut heap, 1000, 3);
    assert_eq!(p.get_cached_value_in_generation(&heap, 3), Some(1000));
    assert_eq!(p.get_cached_value_in_generation(&heap, 4), None);
    assert_eq!(p.get_cached_value_in_generation(&heap, 0), None);
}

#[test]
fn memo_seen_through_every_clone() {
    let mut heap = RcOcHeap::new();
    let p = RcOc::new(&mut heap, 1i64);
    let q = p.clone(&mut heap);
    p.set_cached_value(&mut heap, 77, 2);
    assert_eq!(q.get_cached_value_in_generation(&heap, 2), Some(77));
    q.clear_cache(&mut heap);
    assert_eq!(p.get_cached_value_in_generation(&heap, 2), None);
}

#[test]
fn cleared_memo_misses_every_generation() {
    let mut heap = RcOcHeap::new();
    let p = RcOc::new(&mut heap, 'a');
    p.set_cached_value(&mut heap, 12, 5);
    p.clear_cache(&mut heap);
    assert_eq!(p.get_cached_value_in_generation(&heap, 5), None);
    assert_eq!(p.get_cached_value_in_generation(&heap, 0), None);
    assert_eq!(p.get_cached_value_in_generation(&heap, INVALID_GENERATION), None);
}

#[test]
fn memo_overwritten_by_later_set() {
    let mut heap = RcOcHeap::new();
    let p = RcOc::new(&mut heap, 0u8);
    p.set_cached_value(&mut heap, 10, 1);
    p.set_cached_value(&mut heap, 20, 1);
    assert_eq!(p.get_cached_value_in_generation(&heap, 1), Some(20));
    p.set_cached_value(&mut heap, 30, usize::MAX - 1);
    assert_eq!(p.get_cached_value_in_generation(&heap, 1), None);
    assert_eq!(p.get_cached_value_in_generation(&heap, usize::MAX - 1), Some(30));
}

#[test]
fn make_mut_by_sole_owner_empties_memo() {
    let mut heap = RcOcHeap::new();
    let mut p = RcOc::new(&mut heap, 5u64);
    let before = p.clone(&mut heap);
    before.release(&mut heap);
    p.set_cached_value(&mut heap, 42, 1);
    let q = RcOc::new(&mut heap, 0u64);
    *RcOc::make_mut(&mut p, &mut heap) += 1;
    assert_eq!(*p.as_ref(&heap), 6);
    assert_eq!(p.get_cached_value_in_generation(&heap, 1), None);
    assert!(!RcOc::ptr_eq(&p, &q));
    assert_eq!(*q.as_ref(&heap), 0);
}

#[test]
fn make_mut_on_shared_cell_copies() {
    let mut heap = RcOcHeap::new();
    let mut a = RcOc::new(&mut heap, String::from("old"));
    let b = a.clone(&mut heap);
    a.set_cached_value(&mut heap, 99, 4);
    RcOc::make_mut(&mut a, &mut heap).push_str("er");
    assert_eq!(a.as_ref(&heap), "older");
    assert_eq!(b.as_ref(&heap), "old");
    assert!(!RcOc::ptr_eq(&a, &b));
    assert_eq!(b.get_cached_value_in_generation(&heap, 4), Some(99));
    assert_eq!(a.get_cached_value_in_generation(&heap, 4), None);
}

#[test]
fn scenario_make_mut_on_clone() {
    let mut heap = RcOcHeap::new();
    let mut p1 = RcOc::new(&mut heap, 5i32);
    let p2 = p1.clone(&mut heap);
    assert!(RcOc::ptr_eq(&p1, &p2));
    *RcOc::make_mut(&mut p1, &mut heap) = 7;
    assert_eq!(*p1.as_ref(&heap), 7);
    assert_eq!(*p2.as_ref(&heap), 5);
    assert!(!RcOc::ptr_eq(&p1, &p2));
}

#[test]
fn scenario_cached_value_by_generation() {
    let mut heap = RcOcHeap::new();
    let p = RcOc::new(&mut heap, String::from("x"));
    p.set_cached_value(&mut heap, 42, 1);
    assert_eq!(p.get_cached_value_in_generation(&heap, 1), Some(42));
    assert_eq!(p.get_cached_value_in_generation(&heap, 2), None);
}

#[test]
fn get_mut_only_for_sole_owner() {
    let mut heap = RcOcHeap::new();
    let p = RcOc::new(&mut heap, 10u16);
    let q = p.clone(&mut heap);
    p.set_cached_value(&mut heap, 5, 8);
    assert!(RcOc::get_mut(&p, &mut heap).is_none());
    assert_eq!(p.get_cached_value_in_generation(&heap, 8), Some(5));
    q.release(&mut heap);
    match RcOc::get_mut(&p, &mut heap) {
        Some(v) => *v = 11,
        None => panic!("sole owner refused"),
    }
    assert_eq!(*p.as_ref(&heap), 11);
    assert_eq!(p.get_cached_value_in_generation(&heap, 8), None);
}

#[test]
fn release_of_last_owner_keeps_other_cells() {
    let mut heap = RcOcHeap::new();
    let p = RcOc::new(&mut heap, 1u8);
    let q = RcOc::new(&mut heap, 2u8);
    p.release(&mut heap);
    assert_eq!(*q.as_ref(&heap), 2);
    let r = RcOc::new(&mut heap, 3u8);
    assert!(!RcOc::ptr_eq(&q, &r));
    assert_eq!(*r.as_ref(&heap), 3);
}

#[test]
fn into_ocamlrep_converts_once_per_generation() {
    let mut heap = RcOcHeap::new();
    let p = RcOc::new(&mut heap, 21u64);
    let first = p.into_ocamlrep(&mut heap, 1, |v| (v * 2) as usize);
    assert_eq!(first, 42);
    let again = p.into_ocamlrep(&mut heap, 1, |_| panic!("converted twice"));
    assert_eq!(again, 42);
    assert_eq!(p.get_cached_value_in_generation(&heap, 1), Some(42));
    let next = p.into_ocamlrep(&mut heap, 2, |v| (v + 1) as usize);
    assert_eq!(next, 22);
    assert_eq!(p.get_cached_value_in_generation(&heap, 1), None);
}

#[test]
fn into_ocamlrep_memo_shared_by_clones() {
    let mut heap = RcOcHeap::new();
    let p = RcOc::new(&mut heap, String::from("shared"));
    let q = p.clone(&mut heap);
    let h = p.into_ocamlrep(&mut heap, 6, |s| s.len());
    assert_eq!(h, 6);
    assert_eq!(q.into_ocamlrep(&mut heap, 6, |_| panic!("converted twice")), 6);
}

#[test]
fn from_ocamlrep_round_trip() {
    let mut heap = RcOcHeap::new();
    let p = RcOc::new(&mut heap, 314u32);
    let h = p.into_ocamlrep(&mut heap, 1, |v| v as usize);
    let decoded: Result<u32, String> = Ok(h as u32);
    let back = RcOc::from_ocamlrep(&mut heap, decoded).unwrap();
    assert_eq!(*back.as_ref(&heap), 314);
    assert!(!RcOc::ptr_eq(&p, &back));
    assert_eq!(back.get_cached_value_in_generation(&heap, 1), None);
}

#[test]
fn from_ocamlrep_passes_error_on() {
    let mut heap: RcOcHeap<u32> = RcOcHeap::new();
    let decoded: Result<u32, String> = Err(String::from("expected int"));
    match RcOc::from_ocamlrep(&mut heap, decoded) {
        Ok(_) => panic!("decoding error lost"),
        Err(e) => assert_eq!(e, "expected int"),
    }
}

#[test]
fn comparisons_ignore_memo() {
    let mut heap = RcOcHeap::new();
    let p = RcOc::new(&mut heap, 3i32);
    let q = RcOc::new(&mut heap, 3i32);
    let r = RcOc::new(&mut heap, 4i32);
    p.set_cached_value(&mut heap, 50, 1);
    assert!(RcOc::eq(&p, &q, &heap));
    assert!(!RcOc::eq(&p, &r, &heap));
    assert_eq!(RcOc::partial_cmp(&p, &q, &heap), Some(Ordering::Equal));
    assert_eq!(RcOc::partial_cmp(&p, &r, &heap), Some(Ordering::Less));
    assert_eq!(RcOc::partial_cmp(&r, &p, &heap), Some(Ordering::Greater));
}

#[test]
fn value_cache_life_cycle() {
    let mut c = OcamlValueCache::new(String::from("v"));
    assert_eq!(c.get_in_generation(0), None);
    assert_eq!(c.get_in_generation(INVALID_GENERATION), None);
    c.set(UNIT + 2, 0);
    assert_eq!(c.get_in_generation(0), Some(3));
    assert_eq!(c.get_in_generation(1), None);
    c.clear();
    assert_eq!(c.get_in_generation(0), None);
    assert_eq!(c.value_ref(), "v");
    c.value_mut().push('w');
    assert_eq!(c.value_ref(), "vw");
}

#[test]
fn unit_is_tagged_zero() {
    assert_eq!(UNIT, (0usize << 1) | 1);
    assert_eq!(INVALID_GENERATION, usize::MAX);
}

#[test]
fn value_cache_copy_starts_empty() {
    let mut c = OcamlValueCache::new(vec![4u8]);
    c.set(8, 2);
    let d = c.clone();
    assert_eq!(d.value_ref(), &vec![4u8]);
    assert_eq!(d.get_in_generation(2), None);
    assert_eq!(c.get_in_generation(2), Some(8));
}
