use tracker::error::TrackerError;
use tracker::record::{
    assemble, decode_row, decode_rows, encode_new, load, new_record, row_key, NewRecord, StoredRow,
};
use tracker::task::Task;
use tracker::timestamp::Timestamp;

fn row(id: i32, description: &str, created_at: &str, done: bool) -> StoredRow {
    StoredRow { id, description: description.to_string(), created_at: created_at.to_string(), done }
}

#[test]
fn decode_row_reads_every_field() {
    let r = row(3, "buy milk", "2015-05-15T00:00:00+00:00", true);
    assert_eq!(
        decode_row(&r),
        Ok(Task {
            id: 3,
            description: "buy milk".to_string(),
            created_at: Timestamp { secs: 1431648000, nanos: 0 },
            done: true,
        })
    );
}

#[test]
fn decode_row_rejects_a_bad_timestamp() {
    let r = row(3, "buy milk", "15 May 2015", false);
    assert_eq!(decode_row(&r), Err(TrackerError::CorruptRecord));
}

#[test]
fn decode_row_rejects_an_id_below_one() {
    assert_eq!(
        decode_row(&row(0, "a", "2015-05-15T00:00:00+00:00", false)),
        Err(TrackerError::CorruptRecord)
    );
    assert_eq!(
        decode_row(&row(-4, "a", "2015-05-15T00:00:00+00:00", false)),
        Err(TrackerError::CorruptRecord)
    );
}

#[test]
fn decode_rows_keeps_the_order() {
    let rows = vec![
        row(1, "a", "2015-05-15T00:00:00+00:00", false),
        row(2, "b", "2015-05-15T00:00:01+00:00", true),
    ];
    let tasks = decode_rows(&rows).unwrap();
    assert_eq!(tasks.len(), 2);
    assert_eq!(tasks[0].id, 1);
    assert_eq!(tasks[0].description, "a");
    assert_eq!(tasks[1].id, 2);
    assert_eq!(tasks[1].created_at, Timestamp { secs: 1431648001, nanos: 0 });
    assert!(tasks[1].done);
}

#[test]
fn decode_rows_of_nothing_is_nothing() {
    assert_eq!(decode_rows(&Vec::new()), Ok(Vec::new()));
}

#[test]
fn one_corrupt_row_fails_the_whole_listing() {
    let rows = vec![
        row(1, "a", "2015-05-15T00:00:00+00:00", false),
        row(2, "b", "not a time", false),
        row(3, "c", "2015-05-15T00:00:02+00:00", false),
    ];
    assert_eq!(decode_rows(&rows), Err(TrackerError::CorruptRecord));
    assert_eq!(load(&rows).err(), Some(TrackerError::CorruptRecord));
}

#[test]
fn load_rebuilds_the_store() {
    let rows = vec![
        row(1, "a", "2015-05-15T00:00:00+00:00", true),
        row(4, "b", "2015-05-15T00:00:01+00:00", false),
    ];
    let mut store = load(&rows).unwrap();
    assert_eq!(store.len(), 2);
    let added = store.insert("c".to_string(), Timestamp { secs: 5, nanos: 0 }).unwrap();
    assert_eq!(added.id, 5);
}

#[test]
fn load_rejects_rows_out_of_order() {
    let rows = vec![
        row(2, "a", "2015-05-15T00:00:00+00:00", false),
        row(1, "b", "2015-05-15T00:00:01+00:00", false),
    ];
    assert_eq!(load(&rows).err(), Some(TrackerError::CorruptRecord));
}

#[test]
fn encode_new_gives_the_values_to_write() {
    let rec = encode_new("buy milk".to_string(), Timestamp { secs: 1431648000, nanos: 0 });
    assert_eq!(
        rec,
        Ok(NewRecord {
            description: "buy milk".to_string(),
            created_at: "2015-05-15T00:00:00+00:00".to_string(),
            done: false,
        })
    );
}

#[test]
fn encode_new_rejects_an_empty_description() {
    let rec = encode_new(String::new(), Timestamp { secs: 1431648000, nanos: 0 });
    assert_eq!(rec, Err(TrackerError::Usage));
}

#[test]
fn encode_new_refuses_an_instant_that_cannot_be_stored() {
    let rec = encode_new("a".to_string(), Timestamp { secs: i64::MAX, nanos: 0 });
    assert_eq!(rec, Err(TrackerError::StorageWriteFailure));
    let rec = encode_new("a".to_string(), Timestamp { secs: 253402300800, nanos: 0 });
    assert_eq!(rec, Err(TrackerError::StorageWriteFailure));
}

#[test]
fn a_new_record_decodes_to_the_task_that_was_added() {
    let now = Timestamp { secs: 1704164645, nanos: 123456789 };
    let rec = encode_new("walk dog".to_string(), now).unwrap();
    let stored = StoredRow {
        id: 7,
        description: rec.description,
        created_at: rec.created_at,
        done: rec.done,
    };
    assert_eq!(
        decode_row(&stored),
        Ok(Task { id: 7, description: "walk dog".to_string(), created_at: now, done: false })
    );
}

#[test]
fn row_key_fits_the_table() {
    assert_eq!(row_key(1), Some(1));
    assert_eq!(row_key(2147483647), Some(2147483647));
    assert_eq!(row_key(2147483648), None);
    assert_eq!(row_key(u64::MAX), None);
}

#[test]
fn assemble_builds_the_task() {
    let r = row(9, "water plants", "ignored", true);
    assert_eq!(
        assemble(&r, Ok(Timestamp { secs: 4, nanos: 2 })),
        Ok(Task {
            id: 9,
            description: "water plants".to_string(),
            created_at: Timestamp { secs: 4, nanos: 2 },
            done: true,
        })
    );
}

#[test]
fn assemble_finds_the_row_corrupt() {
    let good = row(9, "a", "ignored", false);
    assert_eq!(
        assemble(&good, Err(TrackerError::CorruptRecord)),
        Err(TrackerError::CorruptRecord)
    );
    let bad_id = row(0, "a", "ignored", false);
    assert_eq!(
        assemble(&bad_id, Ok(Timestamp { secs: 4, nanos: 2 })),
        Err(TrackerError::CorruptRecord)
    );
}

#[test]
fn new_record_holds_the_given_text() {
    assert_eq!(
        new_record("a".to_string(), Some("then".to_string())),
        Ok(NewRecord { description: "a".to_string(), created_at: "then".to_string(), done: false })
    );
}

#[test]
fn new_record_fails_without_a_description_or_a_text() {
    assert_eq!(new_record(String::new(), Some("then".to_string())), Err(TrackerError::Usage));
    assert_eq!(new_record(String::new(), None), Err(TrackerError::Usage));
    assert_eq!(new_record("a".to_string(), None), Err(TrackerError::StorageWriteFailure));
}
