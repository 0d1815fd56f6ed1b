use async_demos::shared_state::{SharedRecord, Writer};

#[test]
fn fresh_record_holds_zero() {
    assert_eq!(SharedRecord::new().field, 0);
    assert_eq!(SharedRecord::new(), SharedRecord { field: 0 });
}

#[test]
fn writers_store_one_and_two() {
    assert_eq!(Writer::First.value(), 1);
    assert_eq!(Writer::Second.value(), 2);
}

#[test]
fn write_stores_the_writers_constant() {
    let mut record = SharedRecord::new();
    record.write(Writer::First);
    assert_eq!(record.field, 1);
    let mut other = SharedRecord { field: 77 };
    other.write(Writer::Second);
    assert_eq!(other.field, 2);
}

#[test]
fn second_writer_last_leaves_two() {
    let mut record = SharedRecord::new();
    record.write(Writer::First);
    record.write(Writer::Second);
    assert_eq!(record.field, 2);
}

#[test]
fn first_writer_last_leaves_one() {
    let mut record = SharedRecord::new();
    record.write(Writer::Second);
    record.write(Writer::First);
    assert_eq!(record.field, 1);
}

#[test]
fn either_order_ends_on_a_written_constant() {
    let orders: Vec<Vec<Writer>> = vec![
        vec![Writer::First, Writer::Second],
        vec![Writer::Second, Writer::First],
    ];
    for order in orders {
        let mut record = SharedRecord::new();
        for writer in order {
            record.write(writer);
        }
        assert!(record.field == 1 || record.field == 2);
        assert_ne!(record.field, SharedRecord::new().field);
    }
}
