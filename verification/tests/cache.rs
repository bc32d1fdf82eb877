use anvil_fork::cache::{bytes_equal, CacheKey, KeyedCache};
use ethers::types::{Filter, H160};
use std::sync::Arc;

#[test]
fn empty_cache_holds_nothing() {
    let c: KeyedCache<u64, String> = KeyedCache::new();
    assert_eq!(c.len(), 0);
    assert!(c.get(&1).is_none());
    assert!(!c.contains_key(&1));
}

#[test]
fn insert_then_get_gives_value() {
    let mut c: KeyedCache<u64, String> = KeyedCache::new();
    assert_eq!(c.insert(7, "seven".to_string()), None);
    assert_eq!(c.insert(8, "eight".to_string()), None);
    assert_eq!(c.get(&7), Some(&"seven".to_string()));
    assert_eq!(c.get(&8), Some(&"eight".to_string()));
    assert!(c.get(&9).is_none());
    assert_eq!(c.len(), 2);
}

#[test]
fn insert_over_existing_key_returns_previous_value() {
    let mut c: KeyedCache<u64, u32> = KeyedCache::new();
    c.insert(1, 10);
    c.insert(2, 20);
    assert_eq!(c.insert(1, 11), Some(10));
    assert_eq!(c.get(&1), Some(&11));
    assert_eq!(c.get(&2), Some(&20));
    assert_eq!(c.len(), 2);
}

#[test]
fn remove_returns_value_and_forgets_key() {
    let mut c: KeyedCache<u64, u32> = KeyedCache::new();
    c.insert(1, 10);
    c.insert(2, 20);
    c.insert(3, 30);
    assert_eq!(c.remove(&2), Some(20));
    assert_eq!(c.remove(&2), None);
    assert!(!c.contains_key(&2));
    assert_eq!(c.get(&1), Some(&10));
    assert_eq!(c.get(&3), Some(&30));
    assert_eq!(c.len(), 2);
}

#[test]
fn remove_undoes_insert_of_new_key() {
    let mut c: KeyedCache<u64, u32> = KeyedCache::new();
    c.insert(1, 10);
    c.insert(5, 50);
    c.remove(&5);
    assert_eq!(c.len(), 1);
    assert_eq!(c.get(&1), Some(&10));
    assert!(c.get(&5).is_none());
}

#[test]
fn clear_empties_cache() {
    let mut c: KeyedCache<u64, u32> = KeyedCache::new();
    c.insert(1, 10);
    c.insert(2, 20);
    c.clear();
    assert_eq!(c.len(), 0);
    assert!(c.get(&1).is_none());
}

#[test]
fn byte_strings_compare_by_every_byte() {
    let a = [1u8; 32];
    let mut b = [1u8; 32];
    assert!(bytes_equal(&a, &b));
    b[31] = 2;
    assert!(!bytes_equal(&a, &b));
    b[31] = 1;
    b[0] = 0;
    assert!(!bytes_equal(&a, &b));
    let e: [u8; 0] = [];
    assert!(bytes_equal(&e, &e));
}

#[test]
fn hash_keys_tell_apart_hashes() {
    let mut c: KeyedCache<[u8; 32], u32> = KeyedCache::new();
    let mut h1 = [0u8; 32];
    h1[5] = 1;
    let mut h2 = [0u8; 32];
    h2[6] = 1;
    c.insert(h1, 1);
    c.insert(h2, 2);
    assert_eq!(c.get(&h1), Some(&1));
    assert_eq!(c.get(&h2), Some(&2));
    assert!(c.get(&[0u8; 32]).is_none());
}

#[test]
fn pair_keys_compare_both_parts() {
    let a = ([1u8; 20], 5u64);
    assert!(a.same_key(&([1u8; 20], 5u64)));
    assert!(!a.same_key(&([1u8; 20], 6u64)));
    assert!(!a.same_key(&([2u8; 20], 5u64)));
}

#[test]
fn shared_keys_compare_what_they_point_to() {
    let a = (Arc::new(7u64), 1u64);
    let b = (Arc::new(7u64), 1u64);
    let c = (Arc::new(8u64), 1u64);
    assert!(a.same_key(&b));
    assert!(!a.same_key(&c));
}

#[test]
fn filter_keys_compare_as_filters() {
    let f1 = Filter::new().from_block(1u64).address(H160::repeat_byte(3));
    let f2 = Filter::new().from_block(1u64).address(H160::repeat_byte(3));
    let f3 = Filter::new().from_block(2u64).address(H160::repeat_byte(3));
    assert!(f1.same_key(&f2));
    assert!(!f1.same_key(&f3));
    let mut c: KeyedCache<Filter, u32> = KeyedCache::new();
    c.insert(f1, 1);
    assert_eq!(c.get(&f2), Some(&1));
    assert!(c.get(&f3).is_none());
}

#[test]
fn clone_holds_same_entries() {
    let mut c: KeyedCache<[u8; 32], String> = KeyedCache::new();
    c.insert([1u8; 32], "a".to_string());
    c.insert([2u8; 32], "b".to_string());
    let d = c.clone();
    c.insert([3u8; 32], "c".to_string());
    assert_eq!(d.len(), 2);
    assert_eq!(d.get(&[1u8; 32]), Some(&"a".to_string()));
    assert_eq!(d.get(&[2u8; 32]), Some(&"b".to_string()));
    assert!(d.get(&[3u8; 32]).is_none());
}

#[test]
fn clone_of_shared_and_filter_keys() {
    let mut c: KeyedCache<(Arc<u64>, u64), u32> = KeyedCache::new();
    c.insert((Arc::new(4u64), 1), 9);
    let d = c.clone();
    assert_eq!(d.get(&(Arc::new(4u64), 1)), Some(&9));
    let mut f: KeyedCache<Filter, u32> = KeyedCache::new();
    f.insert(Filter::new().from_block(3u64), 1);
    let g = f.clone();
    assert_eq!(g.get(&Filter::new().from_block(3u64)), Some(&1));
    assert!(g.get(&Filter::new().from_block(4u64)).is_none());
}
