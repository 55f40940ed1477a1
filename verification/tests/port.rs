use pgrx::port::{
    get_pg_major_minor_version_string, get_pg_major_version_num, get_pg_major_version_string,
    get_pg_version_string, TransactionId, TransactionIdFollows, TransactionIdFollowsOrEquals,
    TransactionIdIsNormal, TransactionIdPrecedes, TransactionIdPrecedesOrEquals, MAXALIGN,
    TYPEALIGN, FirstNormalTransactionId, FrozenTransactionId, InvalidTransactionId,
};

fn x(v: u32) -> TransactionId {
    TransactionId(v)
}

#[test]
fn special_ids_are_not_normal() {
    assert!(!TransactionIdIsNormal(x(InvalidTransactionId)));
    assert!(!TransactionIdIsNormal(x(1)));
    assert!(!TransactionIdIsNormal(x(FrozenTransactionId)));
    assert!(TransactionIdIsNormal(x(FirstNormalTransactionId)));
    assert!(TransactionIdIsNormal(x(u32::MAX)));
}

#[test]
fn normal_ids_compare_around_the_circle() {
    assert!(TransactionIdPrecedes(x(100), x(200)));
    assert!(!TransactionIdPrecedes(x(200), x(100)));
    // 4_000_000_000 is "before" 10 once the counter has wrapped.
    assert!(TransactionIdPrecedes(x(4_000_000_000), x(10)));
    assert!(TransactionIdFollows(x(10), x(4_000_000_000)));
    assert!(!TransactionIdPrecedes(x(10), x(4_000_000_000)));
}

#[test]
fn special_ids_compare_as_integers() {
    assert!(TransactionIdPrecedes(x(2), x(4_000_000_000)));
    assert!(TransactionIdPrecedes(x(1), x(2)));
    assert!(TransactionIdFollows(x(4_000_000_000), x(2)));
    assert!(TransactionIdPrecedesOrEquals(x(2), x(2)));
}

#[test]
fn reflexivity_of_comparisons() {
    for v in [0u32, 1, 2, 3, 1000, u32::MAX] {
        assert!(!TransactionIdPrecedes(x(v), x(v)));
        assert!(TransactionIdPrecedesOrEquals(x(v), x(v)));
        assert!(!TransactionIdFollows(x(v), x(v)));
        assert!(TransactionIdFollowsOrEquals(x(v), x(v)));
    }
}

#[test]
fn precedes_or_equals_is_not_follows() {
    let samples = [0u32, 2, 3, 17, 0x8000_0000, 0x8000_0003, u32::MAX];
    for a in samples {
        for b in samples {
            assert_eq!(TransactionIdPrecedesOrEquals(x(a), x(b)), !TransactionIdFollows(x(a), x(b)));
            assert_eq!(TransactionIdFollowsOrEquals(x(a), x(b)), !TransactionIdPrecedes(x(a), x(b)));
        }
    }
}

#[test]
fn ids_half_the_circle_apart_precede_each_other() {
    // The one pair where "precedes" is not the converse of "follows".
    let a = x(3);
    let b = x(3 + 0x8000_0000);
    assert!(TransactionIdPrecedes(a, b));
    assert!(TransactionIdPrecedes(b, a));
    assert!(!TransactionIdFollows(b, a));
}

#[test]
fn typealign_rounds_up_to_the_alignment() {
    assert_eq!(TYPEALIGN(8, 0), 0);
    assert_eq!(TYPEALIGN(8, 1), 8);
    assert_eq!(TYPEALIGN(8, 8), 8);
    assert_eq!(TYPEALIGN(8, 9), 16);
    assert_eq!(TYPEALIGN(4, 13), 16);
    assert_eq!(TYPEALIGN(1, 13), 13);
    // a non-power-of-two alignment keeps the mask formula
    assert_eq!(TYPEALIGN(6, 7), (7 + 5) & !5);
}

#[test]
fn maxalign_rounds_to_eight() {
    assert_eq!(MAXALIGN(0), 0);
    assert_eq!(MAXALIGN(1), 8);
    assert_eq!(MAXALIGN(24), 24);
    assert_eq!(MAXALIGN(25), 32);
}

#[test]
fn version_strings() {
    assert_eq!(get_pg_major_version_string(), "18");
    assert_eq!(get_pg_major_version_num(), 18);
    assert_eq!(get_pg_version_string(), "PostgreSQL 18 (pgrust)");
    assert_eq!(get_pg_major_minor_version_string(), "18.6");
}

#[test]
fn aligning_twice_changes_nothing() {
    for len in [0usize, 1, 15, 16, 33, 1000] {
        let once = TYPEALIGN(16, len);
        assert_eq!(TYPEALIGN(16, once), once);
        assert_eq!(MAXALIGN(MAXALIGN(len)), MAXALIGN(len));
    }
}
