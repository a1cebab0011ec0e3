use ticket_pipeline::error::Error;
use ticket_pipeline::store::ModelController;

#[test]
fn create_issues_monotonic_ids_from_base() {
    let mut mc = ModelController::new();
    let t1 = mc.create_ticket(String::from("t1"));
    let t2 = mc.create_ticket(String::from("t2"));
    let t3 = mc.create_ticket(String::from("t3"));
    assert_eq!(t1.id, 1000);
    assert_eq!(t2.id, 1001);
    assert_eq!(t3.id, 1002);
    assert!(t2.id > t1.id && t3.id > t2.id);
    assert_eq!(t1.title, "t1");
}

#[test]
fn list_returns_tickets_in_creation_order() {
    let mut mc = ModelController::new();
    mc.create_ticket(String::from("a"));
    mc.create_ticket(String::from("b"));
    mc.create_ticket(String::from("c"));
    let all = mc.list_tickets();
    assert_eq!(all.len(), 3);
    assert_eq!(all[0].title, "a");
    assert_eq!(all[1].title, "b");
    assert_eq!(all[2].title, "c");
    assert_eq!(all[0].id, 1000);
    assert_eq!(all[2].id, 1002);
}

#[test]
fn list_after_creates_and_deletes_keeps_order() {
    let mut mc = ModelController::new();
    for name in ["a", "b", "c", "d"] {
        mc.create_ticket(String::from(name));
    }
    mc.delete_ticket(1001).unwrap();
    mc.delete_ticket(1003).unwrap();
    let all = mc.list_tickets();
    assert_eq!(all.len(), 2);
    assert_eq!(all[0].id, 1000);
    assert_eq!(all[0].title, "a");
    assert_eq!(all[1].id, 1002);
    assert_eq!(all[1].title, "c");
}

#[test]
fn delete_returns_the_removed_ticket() {
    let mut mc = ModelController::new();
    mc.create_ticket(String::from("a"));
    mc.create_ticket(String::from("b"));
    let gone = mc.delete_ticket(1000).unwrap();
    assert_eq!(gone.id, 1000);
    assert_eq!(gone.title, "a");
    let all = mc.list_tickets();
    assert_eq!(all.len(), 1);
    assert_eq!(all[0].id, 1001);
}

#[test]
fn delete_missing_id_fails_and_leaves_store_unchanged() {
    let mut mc = ModelController::new();
    mc.create_ticket(String::from("a"));
    mc.create_ticket(String::from("b"));
    let before: Vec<(u64, String)> =
        mc.list_tickets().into_iter().map(|t| (t.id, t.title)).collect();
    let r = mc.delete_ticket(4242);
    assert_eq!(r.unwrap_err(), Error::TicketDeleteFailIdNotFound { id: 4242 });
    let after: Vec<(u64, String)> =
        mc.list_tickets().into_iter().map(|t| (t.id, t.title)).collect();
    assert_eq!(before, after);
}

#[test]
fn deleted_ids_are_never_reissued() {
    let mut mc = ModelController::new();
    mc.create_ticket(String::from("a"));
    mc.delete_ticket(1000).unwrap();
    let t = mc.create_ticket(String::from("b"));
    assert_eq!(t.id, 1001);
}

#[test]
fn fresh_store_can_issue() {
    let mc = ModelController::new();
    assert!(mc.can_issue());
    assert_eq!(mc.list_tickets().len(), 0);
}
