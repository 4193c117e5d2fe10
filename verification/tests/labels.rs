use hyperdashi::db::{DatabasePool, Dialect};
use hyperdashi::error::AppError;
use hyperdashi::handlers::labels::{
    generate_labels, generate_labels_response, get_label_info, GenerateLabelsRequest,
};
use hyperdashi::services::item_service::{ItemService, UsedLabel};
use hyperdashi::services::label_allocator::{
    parse_label, render_label, LabelCounter, MAX_LABEL_VALUE,
};

fn service(url: &str) -> ItemService {
    ItemService::new(DatabasePool::connect(url).unwrap())
}

#[test]
fn connect_classifies_the_scheme() {
    let pool = DatabasePool::connect("sqlite://inventory.db").unwrap();
    assert_eq!(pool.dialect(), Dialect::Sqlite);
    assert_eq!(pool.migrate(), "./migrations/sqlite");
    assert!(pool.sqlite().is_some());
    assert!(pool.postgres().is_none());
    let pool = DatabasePool::connect("postgresql://host/db").unwrap();
    assert_eq!(pool.dialect(), Dialect::Postgres);
    assert_eq!(pool.migrate(), "./migrations/postgres");
    let pool = DatabasePool::connect("postgres://host/db").unwrap();
    assert_eq!(pool.dialect(), Dialect::Postgres);
    assert_eq!(pool.url(), "postgres://host/db");
    match DatabasePool::connect("mysql://host/db") {
        Err(AppError::ConfigError(m)) => {
            assert_eq!(m, "Invalid database URL. Must start with postgres:// or sqlite://")
        }
        _ => panic!("a foreign scheme must be refused"),
    }
    assert!(DatabasePool::connect("").is_err());
    assert!(DatabasePool::connect("sqlite:/").is_err());
}

#[test]
fn labels_are_four_capital_digits_of_base_36() {
    assert_eq!(render_label(0), "0000");
    assert_eq!(render_label(1), "0001");
    assert_eq!(render_label(9), "0009");
    assert_eq!(render_label(10), "000A");
    assert_eq!(render_label(35), "000Z");
    assert_eq!(render_label(36), "0010");
    assert_eq!(render_label(1295), "00ZZ");
    assert_eq!(render_label(1296), "0100");
    assert_eq!(render_label(46655), "0ZZZ");
    assert_eq!(render_label(46656), "1000");
    assert_eq!(render_label(1679615), "ZZZZ");
    assert_eq!(MAX_LABEL_VALUE, 36 * 36 * 36 * 36 - 1);
}

#[test]
fn labels_parse_back_to_their_values() {
    assert_eq!(parse_label("0000"), Some(0));
    assert_eq!(parse_label("000Z"), Some(35));
    assert_eq!(parse_label("ZZZZ"), Some(1679615));
    assert_eq!(parse_label("zzzz"), None);
    assert_eq!(parse_label("000"), None);
    assert_eq!(parse_label("00000"), None);
    assert_eq!(parse_label("00-1"), None);
    assert_eq!(parse_label(""), None);
    for value in [0u32, 1, 35, 36, 1295, 1296, 46655, 46656, 1000000, 1679615] {
        assert_eq!(parse_label(&render_label(value)), Some(value));
    }
}

#[test]
fn allocation_hands_out_distinct_ascending_labels() {
    for quantity in [1u32, 2, 36, 37, 999, 1000] {
        let mut counter = LabelCounter::new(30).unwrap();
        let labels = counter.allocate(quantity).unwrap();
        assert_eq!(labels.len(), quantity as usize);
        assert_eq!(counter.current_value(), 30 + quantity as i64);
        for label in &labels {
            assert_eq!(label.chars().count(), 4);
            assert!(label.chars().all(|c| c.is_ascii_digit() || c.is_ascii_uppercase()));
        }
        for pair in labels.windows(2) {
            assert!(pair[0] < pair[1]);
        }
        assert_eq!(labels[0], render_label(31));
        assert_eq!(labels[labels.len() - 1], render_label(30 + quantity));
    }
}

#[test]
fn first_allocation_starts_behind_the_counter() {
    let mut counter = LabelCounter::new(0).unwrap();
    assert_eq!(counter.allocate(3).unwrap(), vec!["0001", "0002", "0003"]);
    assert_eq!(counter.current_value(), 3);
    assert_eq!(counter.allocate(2).unwrap(), vec!["0004", "0005"]);
    assert_eq!(counter.current_value(), 5);
    assert_eq!(counter.allocate(0).unwrap(), Vec::<String>::new());
    assert_eq!(counter.current_value(), 5);
}

#[test]
fn single_allocations_leave_no_gap_and_no_duplicate() {
    let start: i64 = 1290;
    let calls: usize = 50;
    let mut counter = LabelCounter::new(start).unwrap();
    let mut all: Vec<String> = Vec::new();
    for _ in 0..calls {
        let mut labels = counter.allocate(1).unwrap();
        assert_eq!(labels.len(), 1);
        all.push(labels.remove(0));
    }
    assert_eq!(counter.current_value(), start + calls as i64);
    let mut sorted = all.clone();
    sorted.sort();
    sorted.dedup();
    assert_eq!(sorted.len(), calls);
    for (i, label) in all.iter().enumerate() {
        assert_eq!(parse_label(label), Some((start as u32) + 1 + i as u32));
    }
    assert_eq!(all[calls - 1], render_label(counter.current_value() as u32));
}

#[test]
fn exhausted_pool_refuses_and_keeps_the_counter() {
    let mut counter = LabelCounter::new(1679615).unwrap();
    let before = counter;
    match counter.allocate(1) {
        Err(AppError::BadRequest(m)) => assert_eq!(m, "Not enough label IDs available"),
        _ => panic!("the pool is exhausted"),
    }
    assert_eq!(counter, before);
    assert_eq!(counter.current_value(), 1679615);

    let mut counter = LabelCounter::new(1679000).unwrap();
    assert!(counter.allocate(616).is_err());
    assert_eq!(counter.current_value(), 1679000);
    let labels = counter.allocate(615).unwrap();
    assert_eq!(labels[614], "ZZZZ");
    assert_eq!(counter.current_value(), 1679615);
    assert!(counter.allocate(1).is_err());
}

#[test]
fn counter_takes_only_values_of_labels() {
    assert!(LabelCounter::new(-1).is_none());
    assert!(LabelCounter::new(1679616).is_none());
    assert!(LabelCounter::new(0).is_some());
    assert!(LabelCounter::new(1679615).is_some());
}

#[test]
fn generate_label_ids_reads_then_writes_the_counter() {
    for (url, placeholder, lock) in
        [("postgres://h/d", "$1", " FOR UPDATE"), ("sqlite://d", "?", "")]
    {
        let svc = service(url);
        let read = svc.generate_label_ids();
        assert_eq!(
            read.sql,
            format!("SELECT current_value FROM label_counter WHERE id = 1{}", lock)
        );
        assert!(read.params.is_empty());
        let allocation = svc.generate_label_ids_read(35, 2).unwrap();
        assert_eq!(allocation.label_ids, vec!["0010", "0011"]);
        assert_eq!(
            allocation.update.sql,
            format!("UPDATE label_counter SET current_value = {} WHERE id = 1", placeholder)
        );
        assert_eq!(format!("{:?}", allocation.update.params), "[Int64(37)]");
    }
}

#[test]
fn generate_label_ids_refuses_without_a_write() {
    let svc = service("sqlite://d");
    match svc.generate_label_ids_read(1679615, 1) {
        Err(AppError::BadRequest(m)) => assert_eq!(m, "Not enough label IDs available"),
        _ => panic!("the pool is exhausted"),
    }
    assert!(matches!(svc.generate_label_ids_read(1679616, 0), Err(AppError::BadRequest(_))));
    assert!(matches!(svc.generate_label_ids_read(5000000, 1), Err(AppError::BadRequest(_))));
    assert!(matches!(
        svc.generate_label_ids_read(-1, 1),
        Err(AppError::InternalServerError(_))
    ));
    assert!(svc.generate_label_ids_read(1679614, 1).is_ok());
}

#[test]
fn label_infos_name_the_last_holder() {
    let svc = service("sqlite://d");
    let rows = vec![
        UsedLabel { label_id: "0002".to_string(), name: "drill".to_string() },
        UsedLabel { label_id: "000A".to_string(), name: "saw".to_string() },
        UsedLabel { label_id: "0002".to_string(), name: "hammer".to_string() },
        UsedLabel { label_id: "ab-1".to_string(), name: "stray".to_string() },
        UsedLabel { label_id: "ZZZZ".to_string(), name: "far".to_string() },
    ];
    let infos = svc.label_infos(&rows, 0, 12);
    assert_eq!(infos.len(), 12);
    assert_eq!(infos[0].id, "0000");
    assert!(!infos[0].used);
    assert_eq!(infos[0].item_name, None);
    assert_eq!(infos[2].id, "0002");
    assert!(infos[2].used);
    assert_eq!(infos[2].item_name, Some("hammer".to_string()));
    assert_eq!(infos[10].id, "000A");
    assert_eq!(infos[10].item_name, Some("saw".to_string()));
    assert_eq!(infos[11].id, "000B");
    assert!(!infos[11].used);
    let tail = svc.label_infos(&rows, 1679614, 2);
    assert_eq!(tail[0].id, "ZZZY");
    assert!(!tail[0].used);
    assert_eq!(tail[1].id, "ZZZZ");
    assert_eq!(tail[1].item_name, Some("far".to_string()));
    assert_eq!(
        svc.get_all_labels().sql,
        "SELECT label_id, name FROM items WHERE LENGTH(label_id) = 4"
    );
}

#[test]
fn label_requests_are_held_to_their_rules() {
    let ok = GenerateLabelsRequest { quantity: 1000, record_type: "qr".to_string() };
    assert_eq!(generate_labels(&ok).unwrap(), 1000);
    let ok = GenerateLabelsRequest { quantity: 1, record_type: "nothing".to_string() };
    assert_eq!(generate_labels(&ok).unwrap(), 1);
    let ok = GenerateLabelsRequest { quantity: 5, record_type: "barcode".to_string() };
    assert_eq!(generate_labels(&ok).unwrap(), 5);
    for quantity in [0u32, 1001] {
        let bad = GenerateLabelsRequest { quantity, record_type: "qr".to_string() };
        match generate_labels(&bad) {
            Err(AppError::BadRequest(m)) => assert_eq!(m, "Quantity must be between 1 and 1000"),
            _ => panic!("the quantity is out of range"),
        }
    }
    let bad = GenerateLabelsRequest { quantity: 5, record_type: "QR".to_string() };
    match generate_labels(&bad) {
        Err(AppError::BadRequest(m)) => assert_eq!(m, "Invalid record type"),
        _ => panic!("the record type is unknown"),
    }
    let bad = GenerateLabelsRequest { quantity: 0, record_type: "x".to_string() };
    match generate_labels(&bad) {
        Err(AppError::BadRequest(m)) => assert_eq!(m, "Quantity must be between 1 and 1000"),
        _ => panic!("the quantity is looked at first"),
    }
}

#[test]
fn label_responses_wrap_failures() {
    let response = generate_labels_response(Ok(vec!["0001".to_string()])).unwrap();
    assert_eq!(response.visible_ids, vec!["0001"]);
    let svc = service("sqlite://d");
    let refused = generate_labels_response(
        svc.generate_label_ids_read(1679615, 1).map(|allocation| allocation.label_ids),
    );
    match refused {
        Err(e) => {
            assert_eq!(e.kind(), hyperdashi::error::ErrorKind::BadRequest);
            let (status, message) = e.into_response();
            assert_eq!(status, 400);
            assert_eq!(message, "Not enough label IDs available");
        }
        Ok(_) => panic!("the labels are used up"),
    }
    let failed = generate_labels_response(Err(AppError::DatabaseError("down".into())));
    match failed {
        Err(AppError::InternalServer(m)) => assert_eq!(m, "Database error: down"),
        _ => panic!("a failed allocation is a failure of the service"),
    }
    let failed = generate_labels_response(svc
        .generate_label_ids_read(-1, 1)
        .map(|allocation| allocation.label_ids));
    match failed {
        Err(AppError::InternalServer(m)) => {
            assert_eq!(m, "Internal server error: Label counter is out of range")
        }
        _ => panic!("a broken counter is a failure of the service"),
    }
}

#[test]
fn a_failed_listing_of_labels_is_a_failure_of_the_service() {
    assert!(get_label_info(Ok(Vec::new())).unwrap().is_empty());
    match get_label_info(Err(AppError::DatabaseError("down".into()))) {
        Err(AppError::InternalServer(m)) => assert_eq!(m, "Database error: down"),
        _ => panic!("a failed listing is a failure of the service"),
    }
}

#[test]
fn the_whole_pool_is_listed() {
    let svc = service("postgres://h/d");
    let rows = vec![
        UsedLabel { label_id: "ZZZZ".to_string(), name: "last".to_string() },
        UsedLabel { label_id: "0000".to_string(), name: "first".to_string() },
    ];
    let infos = svc.get_all_labels_result(&rows);
    assert_eq!(infos.len(), 1679616);
    assert_eq!(infos[0].id, "0000");
    assert_eq!(infos[0].item_name, Some("first".to_string()));
    assert_eq!(infos[1].id, "0001");
    assert!(!infos[1].used);
    assert_eq!(infos[1679615].id, "ZZZZ");
    assert_eq!(infos[1679615].item_name, Some("last".to_string()));
    assert_eq!(infos.iter().filter(|i| i.used).count(), 2);
}
