use mystore_cms::ids::render_u64;
use mystore_cms::ids::IdGen;

#[test]
fn render_u64_exact_values() {
    assert_eq!(render_u64(0), "0");
    assert_eq!(render_u64(7), "7");
    assert_eq!(render_u64(10), "10");
    assert_eq!(render_u64(105), "105");
    assert_eq!(render_u64(1234567890), "1234567890");
    assert_eq!(render_u64(u64::MAX), "18446744073709551615");
}

#[test]
fn fresh_ids_are_pairwise_distinct() {
    let mut gen = IdGen::new();
    let mut ids: Vec<String> = Vec::new();
    for _ in 0..10 {
        ids.push(gen.fresh_id());
    }
    for i in 0..ids.len() {
        for j in 0..ids.len() {
            if i != j {
                assert_ne!(ids[i], ids[j]);
            }
        }
    }
}

#[test]
fn fresh_id_carries_the_counter() {
    let mut gen = IdGen::new();
    let first = gen.fresh_id();
    let second = gen.fresh_id();
    assert!(first.starts_with("0-"));
    assert!(second.starts_with("1-"));
    assert_eq!(gen.issued, 2);
}

#[test]
fn distinct_generators_count_independently() {
    let mut a = IdGen::new();
    let mut b = IdGen::new();
    a.fresh_id();
    a.fresh_id();
    b.fresh_id();
    assert_eq!(a.issued, 2);
    assert_eq!(b.issued, 1);
}
