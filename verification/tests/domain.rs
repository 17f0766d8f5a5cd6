use nx::ipc::domain::{route, DomainTable};
use nx::ipc::message::{Command, Message};
use nx::result::{object_not_found, out_of_domain_entries};

fn request_for(id: Option<u32>) -> Message {
    Message {
        command: Command::Request { id: 0 },
        domain_object_id: id,
        process_id: None,
        copy_handles: Vec::new(),
        move_handles: Vec::new(),
        buffers: Vec::new(),
        payload: Vec::new(),
    }
}

#[test]
fn a_deleted_id_is_given_to_the_next_object() {
    let mut table: DomainTable<&str> = DomainTable::new(8);
    assert_eq!(table.create("A"), Ok(0));
    assert_eq!(table.create("B"), Ok(1));
    assert_eq!(table.delete(0), Ok("A"));
    assert_eq!(table.get(0), Err(object_not_found()));
    assert_eq!(route(&table, &request_for(Some(0))), Err(object_not_found()));
    assert_eq!(table.create("C"), Ok(0));
    assert_eq!(table.get(0), Ok(&"C"));
    assert_eq!(table.get(1), Ok(&"B"));
    assert_eq!(route(&table, &request_for(Some(1))), Ok(&"B"));
}

#[test]
fn the_lowest_free_id_is_taken_first() {
    let mut table: DomainTable<u32> = DomainTable::new(8);
    for i in 0..5 {
        assert_eq!(table.create(i * 10), Ok(i));
    }
    assert_eq!(table.delete(3), Ok(30));
    assert_eq!(table.delete(1), Ok(10));
    assert_eq!(table.create(11), Ok(1));
    assert_eq!(table.create(33), Ok(3));
    assert_eq!(table.create(55), Ok(5));
    assert!(table.contains(5));
    assert!(!table.contains(6));
}

#[test]
fn ids_do_not_grow_with_the_number_of_objects_ever_made() {
    let mut table: DomainTable<u32> = DomainTable::new(4);
    for round in 0..100 {
        assert_eq!(table.create(round), Ok(0));
        assert_eq!(table.delete(0), Ok(round));
    }
}

#[test]
fn unknown_ids_are_not_found() {
    let mut table: DomainTable<u32> = DomainTable::new(4);
    assert_eq!(table.get(0), Err(object_not_found()));
    assert_eq!(table.delete(0), Err(object_not_found()));
    assert_eq!(table.create(1), Ok(0));
    assert_eq!(table.get(1), Err(object_not_found()));
    assert_eq!(table.get(u32::MAX), Err(object_not_found()));
    assert_eq!(table.delete(7), Err(object_not_found()));
    assert_eq!(table.delete(0), Ok(1));
    assert_eq!(table.delete(0), Err(object_not_found()));
    assert_eq!(route(&table, &request_for(None)), Err(object_not_found()));
}

#[test]
fn a_full_domain_takes_no_more_objects() {
    let mut table: DomainTable<u32> = DomainTable::new(2);
    assert_eq!(table.create(1), Ok(0));
    assert_eq!(table.create(2), Ok(1));
    assert_eq!(table.create(3), Err(out_of_domain_entries()));
    assert_eq!(table.delete(1), Ok(2));
    assert_eq!(table.create(3), Ok(1));
    let mut none: DomainTable<u32> = DomainTable::new(0);
    assert_eq!(none.create(1), Err(out_of_domain_entries()));
}

#[test]
fn a_domain_knows_when_it_is_full() {
    let mut table: DomainTable<u32> = DomainTable::new(2);
    assert!(!table.is_full());
    assert_eq!(table.create(1), Ok(0));
    assert!(!table.is_full());
    assert_eq!(table.create(2), Ok(1));
    assert!(table.is_full());
    assert_eq!(table.delete(0), Ok(1));
    assert!(!table.is_full());
    let none: DomainTable<u32> = DomainTable::new(0);
    assert!(none.is_full());
}
