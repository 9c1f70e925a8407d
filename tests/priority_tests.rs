use swap_router::{LimitOrderId, Priority};

fn id_from_raw(r: u64) -> LimitOrderId {
    LimitOrderId { raw_id: r }
}

/// Priorities created with `cheap_early` are sorted by price in ascending order
/// primarily, and by id in ascending order secondarily.
#[test]
fn cheap_early_examples() {
    let pri_0_0 = Priority::cheap_early(0, id_from_raw(0));
    let pri_0_1 = Priority::cheap_early(0, id_from_raw(1));
    let pri_0_9 = Priority::cheap_early(0, id_from_raw(9));
    let pri_1_0 = Priority::cheap_early(1, id_from_raw(0));
    let pri_256_0 = Priority::cheap_early(256, id_from_raw(0));
    let pri_max_1 = Priority::cheap_early(u64::MAX, id_from_raw(1));

    assert!(pri_0_0.key < pri_0_1.key);
    assert!(pri_0_1.key < pri_0_9.key);
    assert!(pri_0_1.key < pri_1_0.key);
    assert!(pri_0_1.key < pri_max_1.key);
    assert!(pri_1_0.key < pri_256_0.key);
}

/// Priorities created with `expensive_early` are sorted by price in descending order
/// primarily, and by id in ascending order secondarily.
#[test]
fn expensive_early_examples() {
    let pri_0_0 = Priority::expensive_early(0, id_from_raw(0));
    let pri_0_1 = Priority::expensive_early(0, id_from_raw(1));
    let pri_0_9 = Priority::expensive_early(0, id_from_raw(9));
    let pri_1_0 = Priority::expensive_early(1, id_from_raw(0));
    let pri_256_0 = Priority::expensive_early(256, id_from_raw(0));
    let pri_max_1 = Priority::expensive_early(u64::MAX, id_from_raw(1));
    let pri_max_3 = Priority::expensive_early(u64::MAX, id_from_raw(3));

    assert!(pri_0_0.key < pri_0_1.key);
    assert!(pri_0_1.key < pri_0_9.key);
    assert!(pri_1_0.key < pri_0_1.key);
    assert!(pri_256_0.key < pri_1_0.key);
    assert!(pri_max_1.key < pri_0_1.key);
    assert!(pri_max_1.key < pri_max_3.key);
}

#[test]
fn cheap_early_key_is_big_endian_price_then_id() {
    let pri = Priority::cheap_early(0x0102030405060708, id_from_raw(0x1112131415161718));
    assert_eq!(
        pri.key,
        [
            0x01, 0x02, 0x03, 0x04, 0x05, 0x06, 0x07, 0x08, 0x11, 0x12, 0x13, 0x14, 0x15, 0x16,
            0x17, 0x18
        ]
    );
}

#[test]
fn expensive_early_key_complements_price() {
    let pri = Priority::expensive_early(0x0102030405060708, id_from_raw(5));
    assert_eq!(
        pri.key,
        [0xfe, 0xfd, 0xfc, 0xfb, 0xfa, 0xf9, 0xf8, 0xf7, 0, 0, 0, 0, 0, 0, 0, 5]
    );
}

#[test]
fn limit_order_ids_count_up_from_zero() {
    let first = LimitOrderId::initial_id();
    assert_eq!(first.raw_id, 0);
    assert_eq!(first.next().raw_id, 1);
    assert_eq!(first.next().next().raw_id, 2);
    assert_eq!(id_from_raw(u64::MAX - 1).next().raw_id, u64::MAX);
}
