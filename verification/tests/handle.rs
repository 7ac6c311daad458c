use std::sync::Mutex;

use spaced::database::{DatabaseHandle, DbHandler};

struct Counter {
    db_conn: Mutex<u32>,
}

impl DbHandler<u32> for Counter {
    fn db_conn(&self) -> &Mutex<u32> {
        &self.db_conn
    }
}

#[test]
fn handle_leads_to_its_database() {
    let handle = DatabaseHandle::new(41u32);
    assert_eq!(*handle.inner(), 41);
    assert_eq!(*handle.clone().inner(), 41);
}

#[test]
fn handles_share_one_database() {
    let handle = DatabaseHandle::new(Counter { db_conn: Mutex::new(0) });
    let other = handle.clone();
    *handle.db_conn().lock().unwrap() += 1;
    *other.db_conn().lock().unwrap() += 1;
    assert_eq!(*handle.db_conn().lock().unwrap(), 2);
    assert_eq!(*other.inner().db_conn().lock().unwrap(), 2);
}
