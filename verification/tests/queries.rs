use hyperdashi::db::{page_offset, DatabasePool, Statement};
use hyperdashi::error::AppError;
use hyperdashi::handlers::cable_colors::{
    check_page, default_page, default_per_page, list_cable_colors, CableColorsQuery,
};
use hyperdashi::handlers::containers::{list_containers, ListContainersQuery};
use hyperdashi::handlers::items::{list_items, ItemsQuery};
use hyperdashi::handlers::loans::{list_loans, LoansQuery};
use hyperdashi::services::cable_color_service::CableColorService;
use hyperdashi::services::container_service::{
    resolve_sort_column, resolve_sort_direction, ContainerService,
};
use hyperdashi::services::item_service::ItemService;
use hyperdashi::services::loan_service::LoanService;

const PG: &str = "postgres://host/db";
const LITE: &str = "sqlite://inventory.db";

const ITEMS: &str = "SELECT id, name, label_id, model_number, remarks, purchase_year, purchase_amount, durability_years, is_depreciation_target, connection_names, cable_color_pattern, storage_location, container_id, storage_type, is_on_loan, qr_code_type, is_disposed, image_url, created_at, updated_at FROM items";

fn pool(url: &str) -> DatabasePool {
    DatabasePool::connect(url).unwrap()
}

fn params(s: &Statement) -> String {
    format!("{:?}", s.params)
}

#[test]
fn item_listing_without_filters() {
    let q = ItemService::new(pool(PG)).list_items(1, 20, None, None, None, None, None);
    assert_eq!(q.rows.sql, format!("{} ORDER BY created_at DESC, id DESC LIMIT $1 OFFSET $2", ITEMS));
    assert_eq!(params(&q.rows), "[Int64(20), Int64(0)]");
    assert_eq!(q.count.sql, "SELECT COUNT(*) as count FROM items");
    assert_eq!(params(&q.count), "[]");
    let q = ItemService::new(pool(LITE)).list_items(3, 10, None, None, None, None, None);
    assert_eq!(q.rows.sql, format!("{} ORDER BY created_at DESC, id DESC LIMIT ? OFFSET ?", ITEMS));
    assert_eq!(params(&q.rows), "[Int64(10), Int64(20)]");
    assert_eq!(q.count.sql, "SELECT COUNT(*) as count FROM items");
}

#[test]
fn item_listing_with_all_filters_for_postgres() {
    let q = ItemService::new(pool(PG)).list_items(
        2,
        5,
        Some("drill".to_string()),
        Some(true),
        Some(false),
        Some("00A1".to_string()),
        Some("container".to_string()),
    );
    let clause = " WHERE (name ILIKE $1 OR label_id ILIKE $2 OR model_number ILIKE $3 OR remarks ILIKE $4) AND is_on_loan = $5 AND is_disposed = $6 AND container_id = $7 AND storage_type = $8";
    assert_eq!(
        q.rows.sql,
        format!("{}{} ORDER BY created_at DESC, id DESC LIMIT $9 OFFSET $10", ITEMS, clause)
    );
    assert_eq!(
        params(&q.rows),
        "[Text(\"%drill%\"), Text(\"%drill%\"), Text(\"%drill%\"), Text(\"%drill%\"), Bool(true), Bool(false), Text(\"00A1\"), Text(\"container\"), Int64(5), Int64(5)]"
    );
    assert_eq!(q.count.sql, format!("SELECT COUNT(*) as count FROM items{}", clause));
    assert_eq!(
        params(&q.count),
        "[Text(\"%drill%\"), Text(\"%drill%\"), Text(\"%drill%\"), Text(\"%drill%\"), Bool(true), Bool(false), Text(\"00A1\"), Text(\"container\")]"
    );
}

#[test]
fn item_listing_with_all_filters_for_sqlite() {
    let q = ItemService::new(pool(LITE)).list_items(
        2,
        5,
        Some("drill".to_string()),
        Some(true),
        Some(false),
        Some("00A1".to_string()),
        Some("container".to_string()),
    );
    let clause = " WHERE (name LIKE ? OR label_id LIKE ? OR model_number LIKE ? OR remarks LIKE ?) AND is_on_loan = ? AND is_disposed = ? AND container_id = ? AND storage_type = ?";
    assert_eq!(q.rows.sql, format!("{}{} ORDER BY created_at DESC, id DESC LIMIT ? OFFSET ?", ITEMS, clause));
    assert_eq!(
        params(&q.rows),
        "[Text(\"%drill%\"), Text(\"%drill%\"), Text(\"%drill%\"), Text(\"%drill%\"), Int32(1), Int32(0), Text(\"00A1\"), Text(\"container\"), Int64(5), Int64(5)]"
    );
    assert_eq!(q.count.sql, format!("SELECT COUNT(*) as count FROM items{}", clause));
}

#[test]
fn placeholders_are_numbered_in_the_order_of_the_values() {
    let q = ItemService::new(pool(PG)).list_items(
        1,
        20,
        None,
        None,
        Some(true),
        None,
        Some("location".to_string()),
    );
    assert_eq!(
        q.rows.sql,
        format!(
            "{} WHERE is_disposed = $1 AND storage_type = $2 ORDER BY created_at DESC, id DESC LIMIT $3 OFFSET $4",
            ITEMS
        )
    );
    assert_eq!(params(&q.rows), "[Bool(true), Text(\"location\"), Int64(20), Int64(0)]");
    let placeholders = q.rows.sql.matches('$').count();
    assert_eq!(placeholders, q.rows.params.len());
}

#[test]
fn search_terms_never_reach_the_text() {
    let hostile = "'; DROP TABLE items; --".to_string();
    let plain = "drill".to_string();
    for url in [PG, LITE] {
        let svc = ItemService::new(pool(url));
        let a = svc.list_items(1, 20, Some(hostile.clone()), None, None, Some(hostile.clone()), None);
        let b = svc.list_items(9, 3, Some(plain.clone()), None, None, Some(plain.clone()), None);
        assert_eq!(a.rows.sql, b.rows.sql);
        assert_eq!(a.count.sql, b.count.sql);
        assert!(!a.rows.sql.contains("DROP"));
        assert!(params(&a.rows).contains("DROP TABLE"));
    }
}

#[test]
fn two_filters_conjoin() {
    let svc = ItemService::new(pool(PG));
    let a = svc.list_items(1, 20, None, Some(true), None, None, None);
    let b = svc.list_items(1, 20, None, None, None, Some("00A1".to_string()), None);
    let both = svc.list_items(1, 20, None, Some(true), None, Some("00A1".to_string()), None);
    assert_eq!(a.count.sql, "SELECT COUNT(*) as count FROM items WHERE is_on_loan = $1");
    assert_eq!(b.count.sql, "SELECT COUNT(*) as count FROM items WHERE container_id = $1");
    assert_eq!(
        both.count.sql,
        "SELECT COUNT(*) as count FROM items WHERE is_on_loan = $1 AND container_id = $2"
    );
    assert_eq!(params(&both.count), "[Bool(true), Text(\"00A1\")]");
}

#[test]
fn pages_follow_one_another_without_gap() {
    let per_page: u32 = 7;
    let pages: u32 = 6;
    let mut covered: i64 = 0;
    for page in 1..=pages {
        let offset = page_offset(page, per_page);
        assert_eq!(offset, covered);
        assert_eq!(offset, (page as i64 - 1) * per_page as i64);
        let q = ItemService::new(pool(LITE)).list_items(page, per_page, None, None, None, None, None);
        assert_eq!(params(&q.rows), format!("[Int64({}), Int64({})]", per_page, offset));
        covered += per_page as i64;
    }
    assert_eq!(covered, (pages * per_page) as i64);
    assert_eq!(page_offset(1, 1), 0);
    assert_eq!(page_offset(4294967295, 1), 4294967294);
    assert_eq!(page_offset(3, 4294967295), 2 * 4294967295);
}

#[test]
fn pages_are_held_to_their_rules() {
    assert!(check_page(1, 1).is_ok());
    assert!(check_page(1, 4294967295).is_ok());
    assert!(check_page(4294967295, 4294967295).is_err());
    for (page, per_page) in [(0u32, 20u32), (1, 0), (0, 0)] {
        match check_page(page, per_page) {
            Err(AppError::BadRequest(m)) => {
                assert_eq!(m, "page must be at least 1 and per_page must be positive")
            }
            _ => panic!("no such page"),
        }
    }
    assert_eq!(default_page(), 1);
    assert_eq!(default_per_page(), 20);
    let q = CableColorsQuery::new(None, None);
    assert_eq!((q.page, q.per_page), (1, 20));
    let q = CableColorsQuery::new(Some(4), Some(50));
    assert_eq!((q.page, q.per_page), (4, 50));
}

#[test]
fn listings_of_the_endpoints_apply_defaults_and_rules() {
    let items = ItemService::new(pool(PG));
    let mut query = ItemsQuery::new(None, None);
    query.search = Some("saw".to_string());
    let q = list_items(&items, &query).unwrap();
    assert_eq!(
        params(&q.rows),
        "[Text(\"%saw%\"), Text(\"%saw%\"), Text(\"%saw%\"), Text(\"%saw%\"), Int64(20), Int64(0)]"
    );
    query.page = 0;
    assert!(matches!(list_items(&items, &query), Err(AppError::BadRequest(_))));

    let loans = LoanService::new(pool(LITE));
    let mut query = LoansQuery::new(Some(2), None);
    query.active_only = Some(true);
    let q = list_loans(&loans, &query).unwrap();
    assert_eq!(params(&q.rows), "[Int64(20), Int64(20)]");
    assert!(q.rows.sql.contains(" WHERE l.return_date IS NULL ORDER BY"));
    query.per_page = 0;
    assert!(matches!(list_loans(&loans, &query), Err(AppError::BadRequest(_))));

    let colors = CableColorService::new(pool(PG));
    let q = list_cable_colors(&colors, &CableColorsQuery::new(Some(3), Some(10))).unwrap();
    assert_eq!(
        q.rows.sql,
        "SELECT id, name, hex_code, description, created_at, updated_at FROM cable_colors ORDER BY created_at DESC, id DESC LIMIT $1 OFFSET $2"
    );
    assert_eq!(params(&q.rows), "[Int64(10), Int64(20)]");
    assert_eq!(q.count.sql, "SELECT COUNT(*) as count FROM cable_colors");
    assert!(list_cable_colors(&colors, &CableColorsQuery { page: 0, per_page: 1 }).is_err());
}

#[test]
fn loan_listing_for_both_dialects() {
    let head = "SELECT l.id, l.item_id, l.student_number, l.student_name, l.organization, l.loan_date, l.return_date, l.remarks, l.created_at, l.updated_at, i.name as item_name, i.label_id as item_label_id FROM loans l INNER JOIN items i ON l.item_id = i.id";
    let count = "SELECT COUNT(*) as count FROM loans l INNER JOIN items i ON l.item_id = i.id";
    let q = LoanService::new(pool(PG)).list_loans(
        2,
        10,
        Some(42),
        Some("s123".to_string()),
        Some(false),
    );
    let clause = " WHERE l.item_id = $1 AND l.student_number = $2 AND l.return_date IS NOT NULL";
    assert_eq!(
        q.rows.sql,
        format!("{}{} ORDER BY l.created_at DESC, l.id DESC LIMIT $3 OFFSET $4", head, clause)
    );
    assert_eq!(params(&q.rows), "[Int64(42), Text(\"s123\"), Int64(10), Int64(10)]");
    assert_eq!(q.count.sql, format!("{}{}", count, clause));
    assert_eq!(params(&q.count), "[Int64(42), Text(\"s123\")]");

    let q = LoanService::new(pool(LITE)).list_loans(1, 20, None, None, None);
    assert_eq!(q.rows.sql, format!("{} ORDER BY l.created_at DESC, l.id DESC LIMIT ? OFFSET ?", head));
    assert_eq!(q.count.sql, count);
    let q = LoanService::new(pool(LITE)).list_loans(1, 20, None, None, Some(true));
    assert_eq!(q.count.sql, format!("{} WHERE l.return_date IS NULL", count));
    assert_eq!(params(&q.count), "[]");
}

#[test]
fn container_listing_for_both_dialects() {
    let group = " GROUP BY c.id, c.name, c.description, c.location, c.image_url, c.created_at, c.updated_at, c.is_disposed";
    let head = |literal: &str| {
        format!("SELECT c.id, c.name, c.description, c.location, c.image_url, c.created_at, c.updated_at, c.is_disposed, COUNT(i.id) as item_count FROM containers c LEFT JOIN items i ON c.id = i.container_id AND i.storage_type = 'container' AND (i.is_disposed IS NULL OR i.is_disposed = {}) WHERE 1=1", literal)
    };
    let s = ContainerService::new(pool(PG)).list_containers(
        Some("lab"),
        false,
        Some("box"),
        "name",
        "asc",
    );
    assert_eq!(
        s.sql,
        format!(
            "{} AND c.is_disposed = false AND c.location = $1 AND (c.name ILIKE $2 OR c.description ILIKE $3 OR c.location ILIKE $4){} ORDER BY c.name ASC, c.id ASC",
            head("false"),
            group
        )
    );
    assert_eq!(params(&s), "[Text(\"lab\"), Text(\"%box%\"), Text(\"%box%\"), Text(\"%box%\")]");
    let s = ContainerService::new(pool(LITE)).list_containers(
        Some("lab"),
        false,
        Some("box"),
        "item_count",
        "DESC",
    );
    assert_eq!(
        s.sql,
        format!(
            "{} AND c.is_disposed = 0 AND c.location = ? AND (c.name LIKE ? OR c.description LIKE ? OR c.location LIKE ?){} ORDER BY item_count DESC, c.id ASC",
            head("0"),
            group
        )
    );
    let s = ContainerService::new(pool(LITE)).list_containers(None, true, None, "created_at", "x");
    assert_eq!(s.sql, format!("{}{} ORDER BY c.created_at DESC, c.id ASC", head("0"), group));
    assert!(s.params.is_empty());
}

#[test]
fn sort_keys_come_from_a_fixed_list() {
    assert_eq!(resolve_sort_column("name"), "c.name");
    assert_eq!(resolve_sort_column("location"), "c.location");
    assert_eq!(resolve_sort_column("item_count"), "item_count");
    assert_eq!(resolve_sort_column("created_at"), "c.created_at");
    assert_eq!(resolve_sort_column("updated_at"), "c.updated_at");
    assert_eq!(resolve_sort_column("is_disposed"), "c.is_disposed");
    assert_eq!(resolve_sort_column("Name"), "c.created_at");
    assert_eq!(resolve_sort_column(""), "c.created_at");
    assert_eq!(resolve_sort_column("name; DROP TABLE containers"), "c.created_at");
    let s = ContainerService::new(pool(PG)).list_containers(
        None,
        true,
        None,
        "name; DROP TABLE containers",
        "asc; DROP",
    );
    assert!(s.sql.ends_with(" ORDER BY c.created_at DESC, c.id ASC"));
    assert!(!s.sql.contains("DROP"));
}

#[test]
fn sort_direction_is_ascending_only_for_asc() {
    assert_eq!(resolve_sort_direction("asc"), "ASC");
    assert_eq!(resolve_sort_direction("ASC"), "ASC");
    assert_eq!(resolve_sort_direction("aSc"), "ASC");
    assert_eq!(resolve_sort_direction("desc"), "DESC");
    assert_eq!(resolve_sort_direction(""), "DESC");
    assert_eq!(resolve_sort_direction("ascending"), "DESC");
    assert_eq!(resolve_sort_direction("as"), "DESC");
    assert_eq!(resolve_sort_direction(" asc"), "DESC");
}

#[test]
fn container_listing_of_the_endpoint_applies_defaults() {
    let svc = ContainerService::new(pool(PG));
    let query = ListContainersQuery {
        location: None,
        include_disposed: None,
        search: None,
        sort_by: None,
        sort_order: None,
    };
    let s = list_containers(&svc, &query);
    assert!(s.sql.contains(" WHERE 1=1 AND c.is_disposed = false GROUP BY"));
    assert!(s.sql.ends_with(" ORDER BY c.created_at DESC, c.id ASC"));
    let query = ListContainersQuery {
        location: Some("lab".to_string()),
        include_disposed: Some(true),
        search: None,
        sort_by: Some("updated_at".to_string()),
        sort_order: Some("Asc".to_string()),
    };
    let s = list_containers(&svc, &query);
    assert!(s.sql.contains(" WHERE 1=1 AND c.location = $1 GROUP BY"));
    assert!(s.sql.ends_with(" ORDER BY c.updated_at ASC, c.id ASC"));
    assert_eq!(params(&s), "[Text(\"lab\")]");
}
