use hyperdashi::db::{advance, AfterWrite, DatabasePool, RawFlag, Statement, Timestamp};
use hyperdashi::error::AppError;
use hyperdashi::models::{
    CableColor, CreateContainerRequest, CreateLoanRequest, ReturnLoanRequest,
    UpdateCableColorRequest, UpdateContainerRequest, UpdateItemRequest,
};
use hyperdashi::services::cable_color_service::CableColorService;
use hyperdashi::services::container_service::{BulkDisposal, ContainerRow, ContainerService};
use hyperdashi::services::item_service::{ItemRow, ItemService};
use hyperdashi::services::loan_service::{ItemStatus, LoanService, LoanStatus};

const PG: &str = "postgres://host/db";
const LITE: &str = "sqlite://inventory.db";

fn pool(url: &str) -> DatabasePool {
    DatabasePool::connect(url).unwrap()
}

fn params(s: &Statement) -> String {
    format!("{:?}", s.params)
}

fn now() -> Timestamp {
    Timestamp { secs: 1700000000, nanos: 500 }
}

fn bad_request<T>(r: Result<T, AppError>) -> String {
    match r {
        Err(AppError::BadRequest(m)) => m,
        Err(other) => panic!("expected a bad request, got {}", other.fmt()),
        Ok(_) => panic!("expected a bad request, got success"),
    }
}

fn not_found<T>(r: Result<T, AppError>) -> String {
    match r {
        Err(AppError::NotFound(m)) => m,
        Err(other) => panic!("expected not found, got {}", other.fmt()),
        Ok(_) => panic!("expected not found, got success"),
    }
}

fn item_row(id: i64, is_on_loan: Option<bool>) -> ItemRow {
    ItemRow {
        id,
        name: "drill".to_string(),
        label_id: "00A1".to_string(),
        model_number: None,
        remarks: None,
        purchase_year: None,
        purchase_amount: None,
        durability_years: None,
        is_depreciation_target: None,
        connection_names: None,
        cable_color_pattern: None,
        storage_location: None,
        container_id: None,
        storage_type: None,
        is_on_loan,
        qr_code_type: None,
        is_disposed: None,
        image_url: None,
        created_at: Timestamp { secs: 1, nanos: 0 },
        updated_at: Timestamp { secs: 1, nanos: 0 },
    }
}

#[test]
fn a_container_leaves_only_when_it_is_empty() {
    // The test plays the database: it keeps the number of items that lie in the
    // container and answers the statements of the service from it.
    let svc = ContainerService::new(pool(LITE));
    let mut items_in_container: i64 = 0;
    let mut container_exists = true;

    let count = svc.delete_container("00C1");
    assert_eq!(
        count.sql,
        "SELECT COUNT(*) as count FROM items WHERE container_id = ? AND storage_type = 'container' AND (is_disposed IS NULL OR is_disposed = 0)"
    );
    assert_eq!(params(&count), "[Text(\"00C1\")]");
    let delete = svc.delete_container_checked("00C1", items_in_container).unwrap();
    assert_eq!(delete.sql, "DELETE FROM containers WHERE id = ?");
    assert_eq!(params(&delete), "[Text(\"00C1\")]");
    assert!(svc.delete_container_done(1).is_ok());
    container_exists = !container_exists;
    assert!(!container_exists);

    // A second container with an item in it.
    items_in_container = 1;
    assert_eq!(
        bad_request(svc.delete_container_checked("00C2", items_in_container)),
        "Cannot delete container that contains items"
    );
    // The item is removed first, then the container.
    items_in_container -= 1;
    assert!(svc.delete_container_checked("00C2", items_in_container).is_ok());
    assert!(svc.delete_container_done(1).is_ok());
    assert_eq!(not_found(svc.delete_container_done(0)), "Container not found");
}

#[test]
fn an_item_is_lent_once_and_returned_once() {
    let svc = LoanService::new(pool(PG));
    let mut is_on_loan = false;
    let mut returned = false;
    let student = CreateLoanRequest {
        item_id: 7,
        student_number: "s1".to_string(),
        student_name: "Ada".to_string(),
        organization: None,
        remarks: Some("fragile".to_string()),
    };
    let other = CreateLoanRequest {
        item_id: 7,
        student_number: "s2".to_string(),
        student_name: "Bob".to_string(),
        organization: Some("lab".to_string()),
        remarks: None,
    };

    let read = svc.create_loan(&student);
    assert_eq!(read.sql, "SELECT id, name, is_on_loan, is_disposed FROM items WHERE id = $1");
    assert_eq!(params(&read), "[Int64(7)]");
    let status = ItemStatus { is_on_loan: Some(is_on_loan), is_disposed: Some(false) };
    let insert = svc.create_loan_checked(&student, Some(status)).unwrap();
    assert_eq!(
        insert.sql,
        "INSERT INTO loans (item_id, student_number, student_name, organization, remarks) VALUES ($1, $2, $3, $4, $5) RETURNING id"
    );
    assert_eq!(params(&insert), "[Int64(7), Text(\"s1\"), Text(\"Ada\"), Null(Text), Text(\"fragile\")]");
    let mark = svc.create_loan_inserted(&student, now());
    assert_eq!(mark.sql, "UPDATE items SET is_on_loan = $1, updated_at = $2 WHERE id = $3");
    assert_eq!(
        params(&mark),
        "[Bool(true), Timestamp(Timestamp { secs: 1700000000, nanos: 500 }), Int64(7)]"
    );
    is_on_loan = true;

    let status = ItemStatus { is_on_loan: Some(is_on_loan), is_disposed: Some(false) };
    assert_eq!(bad_request(svc.create_loan_checked(&other, Some(status))), "Item is already on loan");

    let read = svc.return_loan(11);
    assert_eq!(read.sql, "SELECT id, item_id, return_date FROM loans WHERE id = $1");
    let request = ReturnLoanRequest { return_date: None, remarks: Some("ok".to_string()) };
    let plan = svc
        .return_loan_checked(11, &request, Some(LoanStatus { item_id: Some(7), returned }), now())
        .unwrap();
    assert_eq!(
        plan.update_loan.sql,
        "UPDATE loans SET return_date = $1, remarks = $2, updated_at = $3 WHERE id = $4"
    );
    assert_eq!(
        params(&plan.update_loan),
        "[Timestamp(Timestamp { secs: 1700000000, nanos: 500 }), Text(\"ok\"), Timestamp(Timestamp { secs: 1700000000, nanos: 500 }), Int64(11)]"
    );
    assert_eq!(
        params(&plan.update_item),
        "[Bool(false), Timestamp(Timestamp { secs: 1700000000, nanos: 500 }), Int64(7)]"
    );
    is_on_loan = false;
    returned = true;
    assert!(!is_on_loan);

    assert_eq!(
        bad_request(svc.return_loan_checked(
            11,
            &request,
            Some(LoanStatus { item_id: Some(7), returned }),
            now()
        )),
        "Loan has already been returned"
    );
}

#[test]
fn a_loan_is_refused_in_the_order_of_its_guards() {
    let svc = LoanService::new(pool(LITE));
    let req = CreateLoanRequest {
        item_id: -4,
        student_number: "s1".to_string(),
        student_name: "Ada".to_string(),
        organization: None,
        remarks: None,
    };
    assert_eq!(not_found(svc.create_loan_checked(&req, None)), "Item with id -4 not found");
    let both = ItemStatus { is_on_loan: Some(true), is_disposed: Some(true) };
    assert_eq!(bad_request(svc.create_loan_checked(&req, Some(both))), "Item is already on loan");
    let disposed = ItemStatus { is_on_loan: None, is_disposed: Some(true) };
    assert_eq!(
        bad_request(svc.create_loan_checked(&req, Some(disposed))),
        "Item is disposed and cannot be loaned"
    );
    let unknown = ItemStatus { is_on_loan: None, is_disposed: None };
    let insert = svc.create_loan_checked(&req, Some(unknown)).unwrap();
    assert_eq!(
        insert.sql,
        "INSERT INTO loans (item_id, student_number, student_name, organization, remarks) VALUES (?, ?, ?, ?, ?)"
    );
}

#[test]
fn a_return_takes_the_date_of_the_request() {
    let svc = LoanService::new(pool(LITE));
    let date = Timestamp { secs: 1600000000, nanos: 0 };
    let request = ReturnLoanRequest { return_date: Some(date), remarks: None };
    let open = LoanStatus { item_id: Some(3), returned: false };
    let plan = svc.return_loan_checked(9, &request, Some(open), now()).unwrap();
    assert_eq!(
        params(&plan.update_loan),
        "[Timestamp(Timestamp { secs: 1600000000, nanos: 0 }), Null(Text), Timestamp(Timestamp { secs: 1700000000, nanos: 500 }), Int64(9)]"
    );
    assert_eq!(plan.update_item.sql, "UPDATE items SET is_on_loan = ?, updated_at = ? WHERE id = ?");
    assert_eq!(not_found(svc.return_loan_checked(9, &request, None, now())), "Loan with id 9 not found");
    let broken = LoanStatus { item_id: None, returned: false };
    assert!(matches!(
        svc.return_loan_checked(9, &request, Some(broken), now()),
        Err(AppError::InternalServerError(_))
    ));
    assert_eq!(not_found(svc.get_loan_result(12, None)), "Loan with id 12 not found");
    assert_eq!(
        svc.get_loan(12).sql,
        "SELECT id, item_id, student_number, student_name, organization, loan_date, return_date, remarks, created_at, updated_at FROM loans WHERE id = ?"
    );
}

#[test]
fn an_item_on_loan_cannot_be_removed() {
    let svc = ItemService::new(pool(PG));
    assert!(svc.delete_item(4).sql.ends_with(" FROM items WHERE id = $1"));
    assert_eq!(not_found(svc.delete_item_checked(4, &None)), "Item with id 4 not found");
    assert_eq!(
        bad_request(svc.delete_item_checked(4, &Some(item_row(4, Some(true))))),
        "Cannot delete item that is currently on loan"
    );
    let count = svc.delete_item_checked(4, &Some(item_row(4, None))).unwrap();
    assert_eq!(
        count.sql,
        "SELECT COUNT(*) as count FROM loans WHERE item_id = $1 AND return_date IS NULL"
    );
    assert_eq!(
        bad_request(svc.delete_item_counted(4, 1)),
        "Cannot delete item with active loans"
    );
    let delete = svc.delete_item_counted(4, 0).unwrap();
    assert_eq!(delete.sql, "DELETE FROM items WHERE id = $1");
    assert_eq!(params(&delete), "[Int64(4)]");
    assert!(svc.delete_item_done(4, 1).is_ok());
    assert_eq!(not_found(svc.delete_item_done(4, 0)), "Item with id 4 not found");
}

#[test]
fn disposal_flips_the_state_and_reads_back() {
    let pg = ItemService::new(pool(PG));
    let s = pg.dispose_item(3, now());
    assert_eq!(s.sql, "UPDATE items SET is_disposed = true, updated_at = $1 WHERE id = $2");
    assert_eq!(params(&s), "[Timestamp(Timestamp { secs: 1700000000, nanos: 500 }), Int64(3)]");
    assert_eq!(
        pg.undispose_item(3, now()).sql,
        "UPDATE items SET is_disposed = false, updated_at = $1 WHERE id = $2"
    );
    let lite = ItemService::new(pool(LITE));
    assert_eq!(
        lite.dispose_item(3, now()).sql,
        "UPDATE items SET is_disposed = 1, updated_at = ? WHERE id = ?"
    );
    assert_eq!(
        lite.undispose_item(3, now()).sql,
        "UPDATE items SET is_disposed = 0, updated_at = ? WHERE id = ?"
    );
    assert_eq!(not_found(lite.dispose_item_done(3, 0)), "Item with id 3 not found");
    assert_eq!(not_found(lite.undispose_item_done(3, 0)), "Item with id 3 not found");
    let read = lite.dispose_item_done(3, 1).unwrap();
    assert!(read.sql.ends_with(" FROM items WHERE id = ?"));
    assert_eq!(params(&read), "[Int64(3)]");
    assert_eq!(
        not_found(lite.get_item_by_label_result("00ZZ", None)),
        "Item with label_id 00ZZ not found"
    );
    assert!(lite.get_item_by_label("00ZZ").sql.ends_with(" FROM items WHERE label_id = ?"));
}

fn no_item_change() -> UpdateItemRequest {
    UpdateItemRequest {
        name: None,
        label_id: None,
        model_number: None,
        remarks: None,
        purchase_year: None,
        purchase_amount: None,
        durability_years: None,
        is_depreciation_target: None,
        connection_names: None,
        cable_color_pattern: None,
        storage_location: None,
        container_id: None,
        storage_type: None,
        is_on_loan: None,
        qr_code_type: None,
        is_disposed: None,
        image_url: None,
    }
}

#[test]
fn an_update_of_an_item_names_every_column_and_binds_null_for_the_absent() {
    let svc = ItemService::new(pool(PG));
    let req = UpdateItemRequest {
        name: Some("saw".to_string()),
        purchase_year: Some(2022),
        is_depreciation_target: Some(true),
        connection_names: Some(vec!["usb".to_string()]),
        is_disposed: Some(true),
        ..no_item_change()
    };
    assert_eq!(not_found(svc.update_item_checked(8, &req, &None, now())), "Item with id 8 not found");
    let s = svc.update_item_checked(8, &req, &Some(item_row(8, None)), now()).unwrap();
    assert_eq!(
        s.sql,
        "UPDATE items SET name = COALESCE($1, name), label_id = COALESCE($2, label_id), model_number = COALESCE($3, model_number), remarks = COALESCE($4, remarks), purchase_year = COALESCE($5, purchase_year), purchase_amount = COALESCE($6, purchase_amount), durability_years = COALESCE($7, durability_years), is_depreciation_target = COALESCE($8, is_depreciation_target), connection_names = COALESCE($9, connection_names), cable_color_pattern = COALESCE($10, cable_color_pattern), storage_location = COALESCE($11, storage_location), container_id = COALESCE($12, container_id), storage_type = COALESCE($13, storage_type), qr_code_type = COALESCE($14, qr_code_type), image_url = COALESCE($15, image_url), is_disposed = COALESCE($16, is_disposed), updated_at = $17 WHERE id = $18"
    );
    assert_eq!(
        params(&s),
        "[Text(\"saw\"), Null(Text), Null(Text), Null(Text), Int32(2022), Null(Real), Null(Int32), Bool(true), Text(\"[\\\"usb\\\"]\"), Null(Text), Null(Text), Null(Text), Null(Text), Null(Text), Null(Text), Bool(true), Timestamp(Timestamp { secs: 1700000000, nanos: 500 }), Int64(8)]"
    );
    let lite = ItemService::new(pool(LITE));
    let s = lite.update_item_checked(8, &req, &Some(item_row(8, None)), now()).unwrap();
    assert!(s.sql.starts_with("UPDATE items SET name = COALESCE(?, name), label_id = COALESCE(?, label_id),"));
    assert!(s.sql.ends_with(", is_disposed = COALESCE(?, is_disposed), updated_at = ? WHERE id = ?"));
    assert_eq!(s.params.len(), 18);
}

#[test]
fn an_update_of_an_item_that_names_nothing_is_refused() {
    let svc = ItemService::new(pool(PG));
    let existing = Some(item_row(8, None));
    assert!(no_item_change().writes_nothing());
    assert_eq!(
        bad_request(svc.update_item_checked(8, &no_item_change(), &existing, now())),
        "No fields to update"
    );
    assert_eq!(
        not_found(svc.update_item_checked(8, &no_item_change(), &None, now())),
        "Item with id 8 not found"
    );
    let one = UpdateItemRequest { image_url: Some("http://x/y.png".to_string()), ..no_item_change() };
    assert!(!one.writes_nothing());
    assert!(svc.update_item_checked(8, &one, &existing, now()).is_ok());
}

#[test]
fn an_update_writes_the_disposal_state_and_leaves_the_loan_state() {
    let svc = ItemService::new(pool(LITE));
    let existing = Some(item_row(8, Some(false)));
    let dispose = UpdateItemRequest { is_disposed: Some(true), ..no_item_change() };
    let s = svc.update_item_checked(8, &dispose, &existing, now()).unwrap();
    assert_eq!(format!("{:?}", s.params[15]), "Bool(true)");
    for (i, value) in s.params.iter().enumerate().take(15) {
        assert!(format!("{:?}", value).starts_with("Null("), "column {} keeps its value", i);
    }
    let restore = UpdateItemRequest { is_disposed: Some(false), ..no_item_change() };
    let s = svc.update_item_checked(8, &restore, &existing, now()).unwrap();
    assert_eq!(format!("{:?}", s.params[15]), "Bool(false)");
    let nothing = svc.update_item_checked(8, &UpdateItemRequest { name: Some("x".into()), ..no_item_change() }, &existing, now()).unwrap();
    assert_eq!(format!("{:?}", nothing.params[15]), "Null(Bool)");
    // The loan state is never written: a request that names it beside other
    // fields writes the other fields, one that names nothing else writes nothing.
    let lend = UpdateItemRequest { is_on_loan: Some(true), ..no_item_change() };
    assert!(lend.writes_nothing());
    assert_eq!(
        bad_request(svc.update_item_checked(8, &lend, &existing, now())),
        "No fields to update"
    );
    let both = UpdateItemRequest {
        name: Some("saw".to_string()),
        is_on_loan: Some(true),
        ..no_item_change()
    };
    let plain = UpdateItemRequest { name: Some("saw".to_string()), ..no_item_change() };
    let with_loan_state = svc.update_item_checked(8, &both, &existing, now()).unwrap();
    let without = svc.update_item_checked(8, &plain, &existing, now()).unwrap();
    assert_eq!(with_loan_state.sql, without.sql);
    assert_eq!(params(&with_loan_state), params(&without));
    assert!(!with_loan_state.sql.contains("is_on_loan"));
}

fn stored_container(updated_at: Option<Timestamp>) -> Option<ContainerRow> {
    Some(ContainerRow {
        id: Some("00C1".to_string()),
        name: Some("box".to_string()),
        description: None,
        location: Some("lab".to_string()),
        image_url: None,
        created_at: Some(Timestamp { secs: 1, nanos: 0 }),
        updated_at,
        is_disposed: RawFlag::Bool(false),
    })
}

#[test]
fn an_update_of_a_container_sets_only_what_is_named() {
    let svc = ContainerService::new(pool(PG));
    let old = stored_container(Some(Timestamp { secs: 1000, nanos: 0 }));
    let empty = UpdateContainerRequest {
        name: None,
        description: None,
        location: None,
        image_url: None,
        is_disposed: None,
    };
    assert_eq!(bad_request(svc.update_container("00C1", &empty)), "No fields to update");
    assert_eq!(
        bad_request(svc.update_container_checked("00C1", &empty, &old, now())),
        "No fields to update"
    );
    assert_eq!(
        bad_request(svc.update_container_checked("00C1", &empty, &None, now())),
        "No fields to update"
    );
    let one = UpdateContainerRequest { location: Some("lab".to_string()), ..empty.clone() };
    let read = svc.update_container("00C1", &one).unwrap();
    assert_eq!(
        read.sql,
        "SELECT id, name, description, location, image_url, created_at, updated_at, is_disposed FROM containers WHERE id = $1"
    );
    assert_eq!(params(&read), "[Text(\"00C1\")]");
    assert_eq!(
        not_found(svc.update_container_checked("00C1", &one, &None, now())),
        "Container not found"
    );
    let s = svc.update_container_checked("00C1", &one, &old, now()).unwrap();
    assert_eq!(s.sql, "UPDATE containers SET location = $1, updated_at = $2 WHERE id = $3");
    assert_eq!(
        params(&s),
        "[Text(\"lab\"), Timestamp(Timestamp { secs: 1700000000, nanos: 500 }), Text(\"00C1\")]"
    );
    let all = UpdateContainerRequest {
        name: Some("box".to_string()),
        description: Some("big".to_string()),
        location: Some("lab".to_string()),
        image_url: Some("http://x/y.png".to_string()),
        is_disposed: Some(true),
    };
    let s = svc.update_container_checked("00C1", &all, &old, now()).unwrap();
    assert_eq!(
        s.sql,
        "UPDATE containers SET name = $1, description = $2, location = $3, image_url = $4, is_disposed = $5, updated_at = $6 WHERE id = $7"
    );
    assert_eq!(
        params(&s),
        "[Text(\"box\"), Text(\"big\"), Text(\"lab\"), Text(\"http://x/y.png\"), Bool(true), Timestamp(Timestamp { secs: 1700000000, nanos: 500 }), Text(\"00C1\")]"
    );
    let lite = ContainerService::new(pool(LITE));
    let s = lite
        .update_container_checked("00C1", &all, &old, Timestamp { secs: 1431648000, nanos: 0 })
        .unwrap();
    assert_eq!(
        s.sql,
        "UPDATE containers SET name = ?, description = ?, location = ?, image_url = ?, is_disposed = ?, updated_at = ? WHERE id = ?"
    );
    assert_eq!(
        params(&s),
        "[Text(\"box\"), Text(\"big\"), Text(\"lab\"), Text(\"http://x/y.png\"), Text(\"1\"), Text(\"2015-05-15T00:00:00+00:00\"), Text(\"00C1\")]"
    );
    let s = lite
        .update_container_checked(
            "00C1",
            &UpdateContainerRequest { is_disposed: Some(false), ..empty.clone() },
            &old,
            Timestamp { secs: 1431648000, nanos: 250000000 },
        )
        .unwrap();
    assert_eq!(params(&s), "[Text(\"0\"), Text(\"2015-05-15T00:00:00.250+00:00\"), Text(\"00C1\")]");
    assert!(matches!(
        lite.update_container_checked("00C1", &one, &old, Timestamp { secs: i64::MAX, nanos: 0 }),
        Err(AppError::InternalServerError(_))
    ));
    assert_eq!(not_found(svc.update_container_done("00C1", 0)), "Container not found");
    let read = svc.update_container_done("00C1", 1).unwrap();
    assert_eq!(
        read.sql,
        "SELECT id, name, description, location, image_url, created_at, updated_at, is_disposed FROM containers WHERE id = $1"
    );
}

#[test]
fn the_moment_of_the_last_change_always_moves_on() {
    let stored = Timestamp { secs: 1700000000, nanos: 500 };
    assert_eq!(advance(stored, Timestamp { secs: 1700000001, nanos: 0 }), Some(Timestamp { secs: 1700000001, nanos: 0 }));
    assert_eq!(advance(stored, Timestamp { secs: 1700000000, nanos: 501 }), Some(Timestamp { secs: 1700000000, nanos: 501 }));
    assert_eq!(advance(stored, stored), Some(Timestamp { secs: 1700000000, nanos: 501 }));
    assert_eq!(advance(stored, Timestamp { secs: 5, nanos: 0 }), Some(Timestamp { secs: 1700000000, nanos: 501 }));
    let full = Timestamp { secs: 7, nanos: 999_999_999 };
    assert_eq!(full.next(), Some(Timestamp { secs: 8, nanos: 0 }));
    assert_eq!(advance(full, full), Some(Timestamp { secs: 8, nanos: 0 }));
    let last = Timestamp { secs: i64::MAX, nanos: 999_999_999 };
    assert_eq!(last.next(), None);
    assert_eq!(advance(last, Timestamp::epoch()), None);
    assert_eq!(advance(Timestamp { secs: i64::MAX, nanos: 5 }, Timestamp::epoch()), Some(Timestamp { secs: i64::MAX, nanos: 6 }));

    // The clock has not moved on, or stands behind the row: the moment written still does.
    let late = |secs: i64| format!("Timestamp(Timestamp {{ secs: {}, nanos: 501 }})", secs);
    let items = ItemService::new(pool(PG));
    let mut row = item_row(8, None);
    row.updated_at = stored;
    let request = UpdateItemRequest { name: Some("saw".to_string()), ..no_item_change() };
    for clock in [stored, Timestamp { secs: 3, nanos: 0 }] {
        let s = items.update_item_checked(8, &request, &Some(item_row_at(stored)), clock).unwrap();
        assert_eq!(format!("{:?}", s.params[16]), late(1700000000));
    }
    let s = items.update_item_checked(8, &request, &Some(row), now()).unwrap();
    assert_eq!(format!("{:?}", s.params[16]), late(1700000000));
    let mut at_end = item_row(8, None);
    at_end.updated_at = last;
    assert!(matches!(
        items.update_item_checked(8, &request, &Some(at_end), now()),
        Err(AppError::InternalServerError(_))
    ));

    let containers = ContainerService::new(pool(PG));
    let one = UpdateContainerRequest {
        name: Some("box".to_string()),
        description: None,
        location: None,
        image_url: None,
        is_disposed: None,
    };
    let s = containers
        .update_container_checked("00C1", &one, &stored_container(Some(stored)), stored)
        .unwrap();
    assert_eq!(format!("{:?}", s.params[1]), late(1700000000));
    let s = containers
        .update_container_checked("00C1", &one, &stored_container(None), Timestamp::epoch())
        .unwrap();
    assert_eq!(format!("{:?}", s.params[1]), "Timestamp(Timestamp { secs: 0, nanos: 1 })");
    let lite = ContainerService::new(pool(LITE));
    let s = lite
        .update_container_checked(
            "00C1",
            &one,
            &stored_container(Some(Timestamp { secs: 1431648000, nanos: 0 })),
            Timestamp { secs: 1431648000, nanos: 0 },
        )
        .unwrap();
    assert_eq!(format!("{:?}", s.params[1]), "Text(\"2015-05-15T00:00:00.000000001+00:00\")");

    let colors = CableColorService::new(pool(PG));
    let change = UpdateCableColorRequest { name: Some("red".to_string()), hex_code: None, description: None };
    let s = colors.update_cable_color_checked(2, &change, &stored_color(stored), stored).unwrap();
    assert_eq!(format!("{:?}", s.params[3]), late(1700000000));
}

fn item_row_at(updated_at: Timestamp) -> ItemRow {
    let mut row = item_row(8, None);
    row.updated_at = updated_at;
    row
}

fn stored_color(updated_at: Timestamp) -> Option<CableColor> {
    Some(CableColor {
        id: 2,
        name: "green".to_string(),
        hex_code: None,
        description: None,
        created_at: Timestamp { secs: 1, nanos: 0 },
        updated_at,
    })
}

#[test]
fn a_container_is_created_under_the_allocated_label() {
    let request = CreateContainerRequest {
        name: "box".to_string(),
        description: None,
        location: "lab".to_string(),
        image_url: None,
    };
    let pg = ContainerService::new(pool(PG));
    match pg.create_container(&Vec::new(), &request, now()) {
        Err(AppError::InternalServerError(m)) => assert_eq!(m, "Failed to generate container ID"),
        _ => panic!("no label was allocated"),
    }
    let labels = vec!["00C1".to_string()];
    let (id, insert) = pg.create_container(&labels, &request, now()).unwrap();
    assert_eq!(id, "00C1");
    assert_eq!(
        insert.sql,
        "INSERT INTO containers (id, name, description, location, image_url, created_at, updated_at, is_disposed) VALUES ($1, $2, $3, $4, $5, $6, $7, $8)"
    );
    assert_eq!(
        params(&insert),
        "[Text(\"00C1\"), Text(\"box\"), Null(Text), Text(\"lab\"), Null(Text), Timestamp(Timestamp { secs: 1700000000, nanos: 500 }), Timestamp(Timestamp { secs: 1700000000, nanos: 500 }), Bool(false)]"
    );
    match pg.create_container_done(id, request.clone(), now(), 1).unwrap() {
        AfterWrite::Read(read) => assert_eq!(params(&read), "[Text(\"00C1\")]"),
        AfterWrite::Done(_) => panic!("Postgres reads the container back"),
    }
    let lite = ContainerService::new(pool(LITE));
    match lite.create_container_done("00C1".to_string(), request.clone(), now(), 1).unwrap() {
        AfterWrite::Done(c) => {
            assert_eq!(c.id, "00C1");
            assert_eq!(c.name, "box");
            assert_eq!(c.location, "lab");
            assert_eq!(c.created_at, now());
            assert_eq!(c.updated_at, now());
            assert!(!c.is_disposed);
        }
        AfterWrite::Read(_) => panic!("SQLite builds the container from the request"),
    }
    assert!(matches!(
        lite.create_container_done("00C1".to_string(), request, now(), 0),
        Err(AppError::InternalServerError(_))
    ));
    assert_eq!(not_found(lite.get_container_result(None)), "Container not found");
}

#[test]
fn a_batch_of_containers_is_refused_as_a_whole() {
    let ids = vec!["00C1".to_string(), "00C2".to_string(), "00C3".to_string()];
    let pg = ContainerService::new(pool(PG));
    assert!(pg.bulk_delete_containers(&Vec::new()).is_none());
    assert!(matches!(
        pg.bulk_update_disposed_status(&Vec::new(), true, now()),
        BulkDisposal::Nothing
    ));
    assert!(matches!(
        pg.bulk_update_disposed_status(&Vec::new(), false, now()),
        BulkDisposal::Nothing
    ));
    assert!(pg.check_containers_have_items(&Vec::new()).is_none());
    let count = pg.bulk_delete_containers(&ids).unwrap();
    assert_eq!(
        count.sql,
        "SELECT COUNT(*) as count FROM items WHERE container_id = ANY($1) AND storage_type = 'container' AND (is_disposed IS NULL OR is_disposed = false)"
    );
    assert_eq!(params(&count), "[TextList([\"00C1\", \"00C2\", \"00C3\"])]");
    assert_eq!(
        bad_request(pg.bulk_delete_containers_checked(&ids, 2)),
        "Cannot delete containers that contain items"
    );
    let delete = pg.bulk_delete_containers_checked(&ids, 0).unwrap();
    assert_eq!(delete.sql, "DELETE FROM containers WHERE id = ANY($1)");
    assert_eq!(
        bad_request(pg.bulk_update_disposed_status_checked(&ids, now(), 1)),
        "Cannot dispose of containers that contain items"
    );
    let update = pg.bulk_update_disposed_status_checked(&ids, now(), 0).unwrap();
    assert!(format!("{:?}", update.params).starts_with("[Bool(true), "));
    match pg.bulk_update_disposed_status(&ids, false, now()) {
        BulkDisposal::Write(restore) => {
            assert_eq!(restore.sql, update.sql);
            assert!(format!("{:?}", restore.params).starts_with("[Bool(false), "));
        }
        _ => panic!("containers are taken back into use without a count"),
    }
    assert_eq!(
        update.sql,
        "UPDATE containers SET is_disposed = $1, updated_at = $2 WHERE id = ANY($3)"
    );
    let lite = ContainerService::new(pool(LITE));
    let count = match lite.bulk_update_disposed_status(&ids, true, now()) {
        BulkDisposal::Count(count) => count,
        _ => panic!("the items are counted before containers are disposed of"),
    };
    assert_eq!(
        count.sql,
        "SELECT COUNT(*) as count FROM items WHERE container_id IN (?,?,?) AND storage_type = 'container' AND (is_disposed IS NULL OR is_disposed = 0)"
    );
    assert_eq!(params(&count), "[Text(\"00C1\"), Text(\"00C2\"), Text(\"00C3\")]");
    let delete = lite.bulk_delete_containers_checked(&ids, 0).unwrap();
    assert_eq!(delete.sql, "DELETE FROM containers WHERE id IN (?,?,?)");
    let update = lite.bulk_update_disposed_status_checked(&ids, now(), 0).unwrap();
    assert_eq!(
        update.sql,
        "UPDATE containers SET is_disposed = ?, updated_at = ? WHERE id IN (?,?,?)"
    );
    assert_eq!(update.params.len(), 5);
    assert_eq!(
        lite.get_containers_by_location("lab").sql,
        "SELECT id, name, description, location, image_url, created_at, updated_at, is_disposed FROM containers WHERE location = ? AND is_disposed = 0 ORDER BY name, id"
    );
    assert_eq!(
        pg.check_container_id_exists("00C1").sql,
        "SELECT EXISTS(SELECT 1 FROM containers WHERE id = $1)"
    );
}

#[test]
fn cable_colours_are_written_and_removed() {
    let svc = CableColorService::new(pool(PG));
    let req = UpdateCableColorRequest {
        name: None,
        hex_code: Some("#00ff00".to_string()),
        description: None,
    };
    assert_eq!(
        not_found(svc.update_cable_color_checked(2, &req, &None, now())),
        "Cable color with id 2 not found"
    );
    let old = stored_color(Timestamp { secs: 9, nanos: 0 });
    let s = svc.update_cable_color_checked(2, &req, &old, now()).unwrap();
    assert_eq!(
        s.sql,
        "UPDATE cable_colors SET name = COALESCE($1, name), hex_code = COALESCE($2, hex_code), description = COALESCE($3, description), updated_at = $4 WHERE id = $5"
    );
    assert_eq!(
        params(&s),
        "[Null(Text), Text(\"#00ff00\"), Null(Text), Timestamp(Timestamp { secs: 1700000000, nanos: 500 }), Int64(2)]"
    );
    let nothing = UpdateCableColorRequest { name: None, hex_code: None, description: None };
    assert!(nothing.is_empty());
    assert!(!req.is_empty());
    assert_eq!(
        bad_request(svc.update_cable_color_checked(2, &nothing, &old, now())),
        "No fields to update"
    );
    assert_eq!(
        not_found(svc.update_cable_color_checked(2, &nothing, &None, now())),
        "Cable color with id 2 not found"
    );
    assert_eq!(svc.delete_cable_color(2).sql, "DELETE FROM cable_colors WHERE id = $1");
    assert!(svc.delete_cable_color_done(2, 1).is_ok());
    assert_eq!(not_found(svc.delete_cable_color_done(2, 0)), "Cable color with id 2 not found");
    assert_eq!(not_found(svc.get_cable_color_result(2, None)), "Cable color with id 2 not found");
    assert!(svc.update_cable_color(2).sql.ends_with(" FROM cable_colors WHERE id = $1"));
}

#[test]
fn the_present_moment_can_be_written() {
    let lite = ContainerService::new(pool(LITE));
    let request = UpdateContainerRequest {
        name: Some("box".to_string()),
        description: None,
        location: None,
        image_url: None,
        is_disposed: None,
    };
    let moment = Timestamp::now();
    let old = stored_container(Some(Timestamp { secs: 1, nanos: 0 }));
    let s = lite.update_container_checked("00C1", &request, &old, moment).unwrap();
    assert_eq!(s.params.len(), 3);
    match &s.params[1] {
        hyperdashi::db::SqlValue::Text(text) => {
            assert!(text.len() >= "2024-01-01T00:00:00+00:00".len());
            assert!(text.ends_with("+00:00"));
            assert_eq!(&text[4..5], "-");
            assert_eq!(&text[10..11], "T");
        }
        _ => panic!("SQLite takes the moment as text"),
    }
}
