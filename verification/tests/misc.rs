use hyperdashi::config::{default_max_file_size, Config, Environment, StorageType};
use hyperdashi::db::DatabasePool;
use hyperdashi::error::{AppError, ErrorKind};
use hyperdashi::handlers::containers::{
    bulk_delete_containers, bulk_update_containers_disposed_status, check_container_id,
    create_container, delete_container, get_container, get_containers_by_location,
    list_containers_response, update_container,
};
use hyperdashi::handlers::ids::check_global_id;
use hyperdashi::json::list_round_trips;
use hyperdashi::handlers::images::{
    extension_is_image, generate_unique_filename, is_image_content_type, is_image_extension,
    unique_filename, upload_image, upload_image_chunk, upload_image_field,
    upload_image_field_checked, upload_image_missing,
};
use hyperdashi::handlers::items::add_item_image;
use hyperdashi::models::{
    Container, CreateCableColorRequest, CreateContainerRequest, CreateItemRequest,
    CreateLoanRequest, Item, ReturnLoanRequest, UpdateCableColorRequest, UpdateContainerRequest,
    UpdateItemRequest,
};
use hyperdashi::services::cable_color_service::CableColorService;
use hyperdashi::services::item_service::ItemService;
use hyperdashi::services::storage::{LocalStorage, S3Storage, StorageService};
use hyperdashi::text::{
    eq_ignore_ascii_case, insert_ascending, sentence_with_id, starts_with, strip_prefix,
};
use hyperdashi::validation::{
    check_hex_color, check_length, require_valid, validation_error, FieldError, Rule,
};
use hyperdashi::db::Timestamp;

fn empty_env() -> Environment {
    Environment {
        database_url: None,
        server_host: None,
        server_port: None,
        storage_type: None,
        storage_max_file_size_mb: None,
        s3_bucket_name: None,
        aws_region: None,
        aws_access_key_id: None,
        aws_secret_access_key: None,
        local_storage_path: None,
    }
}

fn rules(r: Result<(), Vec<FieldError>>) -> Vec<(String, Rule)> {
    match r {
        Ok(()) => Vec::new(),
        Err(list) => list.iter().map(|e| (e.field.to_string(), e.rule)).collect(),
    }
}

#[test]
fn configuration_takes_defaults() {
    let config = Config::from_env(&empty_env()).unwrap();
    assert_eq!(config.database.url, "sqlite://hyperdashi.db");
    assert_eq!(config.server.host, "127.0.0.1");
    assert_eq!(config.server.port, 8080);
    assert_eq!(config.storage.storage_type, StorageType::Local);
    assert_eq!(config.storage.local.unwrap().path, "./uploads");
    assert!(config.storage.s3.is_none());
    assert_eq!(config.storage.max_file_size_mb, 5);
    assert_eq!(default_max_file_size(), 5);
}

#[test]
fn configuration_reads_what_is_set() {
    let mut env = empty_env();
    env.database_url = Some("postgres://u@h/d".to_string());
    env.server_host = Some("0.0.0.0".to_string());
    env.server_port = Some("3000".to_string());
    env.storage_max_file_size_mb = Some("12".to_string());
    env.local_storage_path = Some("/var/img".to_string());
    env.storage_type = Some("LOCAL".to_string());
    let config = Config::from_env(&env).unwrap();
    assert_eq!(config.database.url, "postgres://u@h/d");
    assert_eq!(config.server.host, "0.0.0.0");
    assert_eq!(config.server.port, 3000);
    assert_eq!(config.storage.max_file_size_mb, 12);
    assert_eq!(config.storage.local.unwrap().path, "/var/img");
    assert!(DatabasePool::new(&Config::from_env(&env).unwrap()).is_ok());

    env.server_port = Some("70000".to_string());
    env.storage_max_file_size_mb = Some("many".to_string());
    let config = Config::from_env(&env).unwrap();
    assert_eq!(config.server.port, 8080);
    assert_eq!(config.storage.max_file_size_mb, 5);
    for (text, port) in [
        ("", 8080u16),
        ("+3000", 3000),
        ("0080", 80),
        ("65535", 65535),
        ("65536", 8080),
        (" 3000", 8080),
        ("3000 ", 8080),
        ("-1", 8080),
        ("+", 8080),
        ("3_000", 8080),
        ("0x50", 8080),
    ] {
        env.server_port = Some(text.to_string());
        assert_eq!(Config::from_env(&env).unwrap().server.port, port, "port {:?}", text);
    }
    for (text, size) in [("+7", 7u64), ("18446744073709551615", u64::MAX), ("18446744073709551616", 5), ("", 5)] {
        env.storage_max_file_size_mb = Some(text.to_string());
        assert_eq!(Config::from_env(&env).unwrap().storage.max_file_size_mb, size);
    }
    env.database_url = Some("mysql://h/d".to_string());
    assert!(matches!(
        DatabasePool::new(&Config::from_env(&env).unwrap()),
        Err(AppError::ConfigError(_))
    ));
}

#[test]
fn lists_survive_their_json_text() {
    for list in [
        vec![],
        vec!["usb".to_string()],
        vec!["a\"b".to_string(), "c\\d".to_string(), "".to_string(), "\n\t\u{1}".to_string()],
        vec!["\u{65e5}\u{672c}".to_string(), "[\"x\"]".to_string()],
    ] {
        assert!(list_round_trips(&list));
    }
}

#[test]
fn configuration_of_a_bucket_needs_name_and_region() {
    let mut env = empty_env();
    for local in ["local", "LOCAL", "", "s3 ", "bucket"] {
        env.storage_type = Some(local.to_string());
        assert_eq!(Config::from_env(&env).unwrap().storage.storage_type, StorageType::Local);
    }
    env.storage_type = None;
    assert_eq!(Config::from_env(&env).unwrap().storage.storage_type, StorageType::Local);
    env.storage_type = Some("S3".to_string());
    match Config::from_env(&env) {
        Err(AppError::ConfigError(m)) => assert_eq!(m, "S3_BUCKET_NAME not set"),
        _ => panic!("the bucket has no name"),
    }
    env.s3_bucket_name = Some("assets".to_string());
    match Config::from_env(&env) {
        Err(AppError::ConfigError(m)) => assert_eq!(m, "AWS_REGION not set"),
        _ => panic!("the bucket has no region"),
    }
    env.aws_region = Some("eu-west-1".to_string());
    env.aws_access_key_id = Some("key".to_string());
    let config = Config::from_env(&env).unwrap();
    assert_eq!(config.storage.storage_type, StorageType::S3);
    assert!(config.storage.local.is_none());
    let s3 = config.storage.s3.clone().unwrap();
    assert_eq!(s3.bucket_name, "assets");
    assert_eq!(s3.region, "eu-west-1");
    assert_eq!(s3.access_key_id, Some("key".to_string()));
    assert_eq!(s3.secret_access_key, None);

    let storage = S3Storage::new(&config, None).unwrap();
    assert_eq!(storage.get_url("images/a/b.png"), "https://assets.s3.eu-west-1.amazonaws.com/images/a/b.png");
    assert!(!storage.force_path_style());
    assert_eq!(storage.bucket_name(), "assets");
    let storage = S3Storage::new(&config, Some("http://minio:9000")).unwrap();
    assert!(storage.force_path_style());
    assert_eq!(storage.get_url("k"), "http://minio:9000/assets/k");
    let plan = storage.upload_as("u-u-i-d", "photo.png");
    assert_eq!(plan.key, "images/u-u-i-d/photo.png");
    assert_eq!(plan.url, "http://minio:9000/assets/images/u-u-i-d/photo.png");
    let plan = storage.upload("photo.png");
    assert!(plan.key.starts_with("images/"));
    assert!(plan.key.ends_with("/photo.png"));
    assert_eq!(plan.key.len(), "images/".len() + 36 + "/photo.png".len());
    assert_eq!(plan.url, format!("http://minio:9000/assets/{}", plan.key));
    assert_ne!(storage.upload("photo.png").key, plan.key);
    assert_eq!(storage.delete(&plan.url).unwrap(), plan.key);
    match storage.delete("http://elsewhere/assets/k") {
        Err(AppError::StorageError(m)) => assert_eq!(m, "Invalid S3 URL"),
        _ => panic!("the URL lies outside the bucket"),
    }
    assert!(storage.delete("http://minio:9000/assets").is_err());
    assert_eq!(storage.delete("http://minio:9000/assets/").unwrap(), "");

    let local_only = Config::from_env(&empty_env()).unwrap();
    assert!(matches!(S3Storage::new(&local_only, None), Err(AppError::ConfigError(_))));
    assert!(matches!(LocalStorage::new(&config), Err(AppError::ConfigError(_))));
    let service = StorageService::new(&config, None).unwrap();
    assert!(matches!(service, StorageService::S3(_)));
    assert_eq!(service.get_max_file_size_bytes(), 5 * 1024 * 1024);
}

#[test]
fn local_storage_serves_under_the_address_of_the_server() {
    let mut env = empty_env();
    env.server_host = Some("example.org".to_string());
    env.server_port = Some("8443".to_string());
    env.storage_max_file_size_mb = Some("2".to_string());
    let config = Config::from_env(&env).unwrap();
    let storage = LocalStorage::new(&config).unwrap();
    assert_eq!(storage.base_path(), "./uploads");
    assert_eq!(storage.get_url("d/f.png"), "http://example.org:8443/uploads/d/f.png");
    let plan = storage.upload_as("dir".to_string(), "f.png");
    assert_eq!(plan.dir_name, "dir");
    assert_eq!(plan.relative_path, "dir/f.png");
    assert_eq!(plan.url, "http://example.org:8443/uploads/dir/f.png");
    let plan = storage.upload("f.png");
    assert_eq!(plan.dir_name.len(), 36);
    assert_eq!(plan.dir_name.matches('-').count(), 4);
    assert_eq!(plan.relative_path, format!("{}/f.png", plan.dir_name));
    assert_eq!(storage.delete(&plan.url).unwrap(), plan.relative_path);
    match storage.delete("http://example.org:8443/other/f.png") {
        Err(AppError::StorageError(m)) => assert_eq!(m, "Invalid local storage URL"),
        _ => panic!("the URL lies outside the store"),
    }
    let service = StorageService::new(&config, None).unwrap();
    assert!(matches!(service, StorageService::Local(_)));
    assert_eq!(service.get_max_file_size_bytes(), 2 * 1024 * 1024);
    assert_eq!(service.get_url("k"), "http://example.org:8443/uploads/k");
    assert_eq!(service.delete("http://example.org:8443/uploads/a/b").unwrap(), "a/b");
    assert!(matches!(service.delete("nonsense"), Err(AppError::StorageError(_))));
}

#[test]
fn failures_have_a_line_a_status_and_a_public_message() {
    let cases = [
        (AppError::NotFound("x".into()), "Not found: x", 404, "x"),
        (AppError::BadRequest("x".into()), "Bad request: x", 400, "x"),
        (AppError::InternalServerError("x".into()), "Internal server error: x", 500, "x"),
        (AppError::DatabaseError("x".into()), "Database error: x", 500, "Database error occurred"),
        (
            AppError::ConfigError("x".into()),
            "Configuration error: x",
            500,
            "Configuration error occurred",
        ),
        (AppError::IoError("x".into()), "IO error: x", 500, "IO error occurred"),
        (AppError::ValidationError("x".into()), "Validation error: x", 400, "x"),
        (AppError::StorageError("x".into()), "Storage error: x", 500, "Storage error occurred"),
        (AppError::InternalServer("x".into()), "Internal server error: x", 500, "x"),
    ];
    for (error, line, status, message) in cases {
        assert_eq!(error.fmt(), line);
        let (s, m) = error.into_response();
        assert_eq!(s, status);
        assert_eq!(m, message);
    }
    assert_eq!(AppError::NotFound("x".into()).kind(), ErrorKind::NotFound);
    assert_eq!(AppError::StorageError("x".into()).kind(), ErrorKind::StorageError);
}

#[test]
fn image_types_and_extensions() {
    for t in [
        "image/jpeg",
        "image/jpg",
        "image/png",
        "image/gif",
        "image/webp",
        "image/pjpeg",
        "application/octet-stream",
    ] {
        assert!(is_image_content_type(t));
    }
    for t in ["image/bmp", "text/plain", "", "IMAGE/PNG", "image/png "] {
        assert!(!is_image_content_type(t));
    }
    for name in ["a.jpg", "a.JPG", "a.jpeg", "a.Png", "a.gif", "a.webp", "x.y.png", ".hidden.png"] {
        assert!(is_image_extension(name));
    }
    for name in ["a.bmp", "a", "", ".png", "png", "a.png.", "a.pngx", "..", "a.jpg.txt"] {
        assert!(!is_image_extension(name));
    }
    for name in ["/tmp/a.png", "/a.gif", "/x/./y.jpeg/", "dir/photo.JPG", "a.b/c.png", "dir/photo.png/", "dir/photo.gif/.", "./x.webp", "a//b.jpeg"] {
        assert!(is_image_extension(name), "{} names an image", name);
    }
    for name in ["/", "/.png", "/a.png/..", "photo.png/x", "dir.png/photo", "photo.png/..", "dir/.png", "a.jpg/b.txt", "./", "."] {
        assert!(!is_image_extension(name), "{} names no image", name);
    }
    assert!(extension_is_image("WEBP"));
    assert!(!extension_is_image(""));
    assert!(!extension_is_image("jp"));
}

#[test]
fn upload_fields_are_chosen_and_checked() {
    assert!(matches!(upload_image_field(Some("file"), Some("a.png"), None), Ok(None)));
    assert!(matches!(upload_image_field(None, Some("a.png"), None), Ok(None)));
    let field = upload_image_field(Some("image"), None, None).unwrap().unwrap();
    assert_eq!(field.filename, "image.jpg");
    assert_eq!(field.content_type, "application/octet-stream");
    let field = upload_image_field(Some("image"), Some("a.png"), Some("text/plain")).unwrap().unwrap();
    assert_eq!(field.filename, "a.png");
    assert_eq!(field.content_type, "text/plain");
    let field = upload_image_field(Some("image"), Some("a.txt"), Some("image/png")).unwrap().unwrap();
    assert_eq!(field.content_type, "image/png");
    match upload_image_field(Some("image"), Some("a.txt"), Some("text/plain")) {
        Err(AppError::BadRequest(m)) => assert_eq!(
            m,
            "Only image files are allowed (JPEG, PNG, GIF, WebP). Got content-type: text/plain, filename: a.txt"
        ),
        _ => panic!("a text file is no image"),
    }
    assert!(add_item_image(Some("other"), None, None).is_none());
    let field = add_item_image(Some("image"), None, None).unwrap();
    assert_eq!(field.filename, "image.jpg");
    assert_eq!(field.content_type, "image/jpeg");
    let field = add_item_image(Some("image"), Some("b.gif"), Some("image/gif")).unwrap();
    assert_eq!((field.filename.as_str(), field.content_type.as_str()), ("b.gif", "image/gif"));
}

#[test]
fn uploads_are_cut_off_at_the_largest_size() {
    let max = 5 * 1024 * 1024;
    assert!(upload_image_chunk(0, max).is_ok());
    assert!(upload_image_chunk(max, max).is_ok());
    match upload_image_chunk(max + 1, max) {
        Err(AppError::BadRequest(m)) => assert_eq!(m, "File size exceeds 5MB limit"),
        _ => panic!("the upload is too large"),
    }
    match upload_image_chunk(1, 0) {
        Err(AppError::BadRequest(m)) => assert_eq!(m, "File size exceeds 0MB limit"),
        _ => panic!("the upload is too large"),
    }
    match upload_image_missing() {
        AppError::BadRequest(m) => assert_eq!(m, "No image field found in multipart data"),
        _ => panic!("a missing image is a bad request"),
    }
    let (status, response) = upload_image("http://h/u/k.png".to_string(), "k.png".to_string(), 12);
    assert_eq!(status, 201);
    assert_eq!(response.url, "http://h/u/k.png");
    assert_eq!(response.filename, "k.png");
    assert_eq!(response.size, 12);
}

#[test]
fn unique_names_carry_time_uuid_and_extension() {
    assert_eq!(unique_filename(1700000000123, "abc", "png"), "1700000000123_abc.png");
    assert_eq!(unique_filename(0, "", ""), "0_.");
    let name = generate_unique_filename("photo.PNG", 42);
    assert!(name.starts_with("42_"));
    assert!(name.ends_with(".PNG"));
    assert_eq!(name.len(), "42_".len() + 36 + ".PNG".len());
    let name = generate_unique_filename("photo", 42);
    assert!(name.ends_with(".jpg"));
    assert!(generate_unique_filename("albums/2024/photo.webp", 42).ends_with(".webp"));
    assert!(generate_unique_filename("albums.old/photo", 42).ends_with(".jpg"));
    assert!(generate_unique_filename("albums/photo.gif/", 42).ends_with(".gif"));
    assert_ne!(generate_unique_filename("a.gif", 1), generate_unique_filename("a.gif", 1));
    let uuid = &generate_unique_filename("a.gif", 7)[2..38];
    for (i, c) in uuid.chars().enumerate() {
        if i == 8 || i == 13 || i == 18 || i == 23 {
            assert_eq!(c, '-');
        } else {
            assert!(c.is_ascii_digit() || ('a'..='f').contains(&c));
        }
    }
}

#[test]
fn requests_are_held_to_their_rules() {
    let item = CreateItemRequest {
        name: "".to_string(),
        label_id: "x".repeat(51),
        model_number: Some("m".repeat(256)),
        remarks: None,
        purchase_year: Some(1899),
        purchase_amount: None,
        durability_years: Some(101),
        is_depreciation_target: None,
        connection_names: None,
        cable_color_pattern: None,
        storage_location: None,
        container_id: None,
        storage_type: None,
        qr_code_type: None,
        image_url: Some("not a url".to_string()),
    };
    assert_eq!(
        rules(item.validate()),
        vec![
            ("name".to_string(), Rule::Length),
            ("label_id".to_string(), Rule::Length),
            ("model_number".to_string(), Rule::Length),
            ("purchase_year".to_string(), Rule::Range),
            ("durability_years".to_string(), Rule::Range),
            ("image_url".to_string(), Rule::Url),
        ]
    );
    let good = CreateItemRequest {
        name: "\u{65e5}\u{672c}".repeat(127) + "x",
        label_id: "x".repeat(50),
        model_number: Some("m".repeat(255)),
        purchase_year: Some(2100),
        durability_years: Some(1),
        image_url: Some("https://example.org/a.png".to_string()),
        ..item.clone()
    };
    assert!(good.validate().is_ok());
    let update = UpdateItemRequest {
        name: None,
        label_id: Some("".to_string()),
        model_number: None,
        remarks: None,
        purchase_year: Some(1900),
        purchase_amount: None,
        durability_years: Some(0),
        is_depreciation_target: None,
        connection_names: None,
        cable_color_pattern: None,
        storage_location: None,
        container_id: None,
        storage_type: None,
        is_on_loan: None,
        qr_code_type: None,
        is_disposed: None,
        image_url: None,
    };
    assert_eq!(
        rules(update.validate()),
        vec![("label_id".to_string(), Rule::Length), ("durability_years".to_string(), Rule::Range)]
    );
    let container = CreateContainerRequest {
        name: "n".repeat(101),
        description: None,
        location: "".to_string(),
        image_url: None,
    };
    assert_eq!(
        rules(container.validate()),
        vec![("name".to_string(), Rule::Length), ("location".to_string(), Rule::Length)]
    );
    let container = UpdateContainerRequest {
        name: None,
        description: None,
        location: Some("l".repeat(100)),
        image_url: None,
        is_disposed: None,
    };
    assert!(container.validate().is_ok());
    let loan = CreateLoanRequest {
        item_id: 1,
        student_number: "s".repeat(21),
        student_name: "".to_string(),
        organization: Some("o".repeat(256)),
        remarks: None,
    };
    assert_eq!(
        rules(loan.validate()),
        vec![
            ("student_number".to_string(), Rule::Length),
            ("student_name".to_string(), Rule::Length),
            ("organization".to_string(), Rule::Length),
        ]
    );
    assert!(ReturnLoanRequest { return_date: None, remarks: None }.validate().is_ok());
    let color = CreateCableColorRequest {
        name: "red".to_string(),
        hex_code: Some("#GG0000".to_string()),
        description: None,
    };
    assert_eq!(rules(color.validate()), vec![("hex_code".to_string(), Rule::Format)]);
    let color = UpdateCableColorRequest {
        name: Some("".to_string()),
        hex_code: Some("#ff00AA".to_string()),
        description: None,
    };
    assert_eq!(rules(color.validate()), vec![("name".to_string(), Rule::Length)]);
}

#[test]
fn colours_have_the_form_of_six_hex_digits() {
    for c in ["#000000", "#FFFFFF", "#ffffff", "#09AFaf", "#123abc"] {
        assert!(check_hex_color(c));
    }
    for c in ["", "#", "000000", "#00000", "#0000000", "#00000g", "#00000G", " #000000", "#0000\u{e9}0"] {
        assert!(!check_hex_color(c));
    }
    assert!(check_length("\u{65e5}\u{672c}", 2, 2));
    assert!(!check_length("\u{65e5}\u{672c}", 3, 6));
    assert!(check_length("", 0, 0));
}

#[test]
fn broken_rules_are_reported_line_by_line() {
    let errors = vec![
        FieldError { field: "name", rule: Rule::Length },
        FieldError { field: "purchase_year", rule: Rule::Range },
        FieldError { field: "image_url", rule: Rule::Url },
        FieldError { field: "hex_code", rule: Rule::Format },
    ];
    match validation_error(&errors) {
        AppError::ValidationError(m) => {
            assert_eq!(m, "name: length\npurchase_year: range\nimage_url: url\nhex_code: regex")
        }
        _ => panic!("broken rules are a validation error"),
    }
    match validation_error(&Vec::new()) {
        AppError::ValidationError(m) => assert_eq!(m, ""),
        _ => panic!("broken rules are a validation error"),
    }
}

#[test]
fn lookups_of_one_label_are_put_together() {
    let item = Item {
        id: 1,
        name: "drill".to_string(),
        label_id: "00A1".to_string(),
        model_number: None,
        remarks: None,
        purchase_year: None,
        purchase_amount: None,
        durability_years: None,
        is_depreciation_target: None,
        connection_names: None,
        cable_color_pattern: None,
        storage_location: None,
        container_id: None,
        storage_type: "location".to_string(),
        is_on_loan: None,
        qr_code_type: None,
        is_disposed: None,
        image_url: None,
        created_at: Timestamp::epoch(),
        updated_at: Timestamp::epoch(),
    };
    let container = Container {
        id: "00A1".to_string(),
        name: "box".to_string(),
        description: None,
        location: "lab".to_string(),
        image_url: None,
        created_at: Timestamp::epoch(),
        updated_at: Timestamp::epoch(),
        is_disposed: false,
    };
    let missing_item = || Err::<Item, AppError>(AppError::NotFound("x".into()));
    let missing_container = || Err::<Container, AppError>(AppError::DatabaseError("x".into()));
    let r = check_global_id(&missing_item(), &missing_container());
    assert!(!r.exists);
    assert!(r.found_in.is_empty());
    assert!(r.duplicates.is_empty());
    let r = check_global_id(&Ok(item.clone()), &missing_container());
    assert!(r.exists);
    assert_eq!(r.found_in, vec!["items"]);
    assert_eq!(r.duplicates.len(), 1);
    assert_eq!(r.duplicates[0].name, "drill");
    assert_eq!(r.duplicates[0].item_type, "item");
    let r = check_global_id(&missing_item(), &Ok(container.clone()));
    assert_eq!(r.found_in, vec!["containers"]);
    assert_eq!(r.duplicates[0].item_type, "container");
    let r = check_global_id(&Ok(item), &Ok(container));
    assert!(r.exists);
    assert_eq!(r.found_in, vec!["items", "containers"]);
    assert_eq!(r.duplicates[0].name, "drill");
    assert_eq!(r.duplicates[1].name, "box");
}

#[test]
fn outcomes_of_container_endpoints_get_their_status() {
    let container = Container {
        id: "00A1".to_string(),
        name: "box".to_string(),
        description: None,
        location: "lab".to_string(),
        image_url: None,
        created_at: Timestamp::epoch(),
        updated_at: Timestamp::epoch(),
        is_disposed: false,
    };
    assert_eq!(create_container(false, None).err(), Some(400));
    assert_eq!(create_container(false, Some(Ok(container.clone()))).err(), Some(400));
    assert_eq!(create_container(true, Some(Err(AppError::BadRequest("x".into())))).err(), Some(500));
    assert_eq!(create_container(true, None).err(), Some(500));
    let (status, response) = create_container(true, Some(Ok(container.clone()))).unwrap();
    assert_eq!(status, 201);
    assert_eq!(response.container.id, "00A1");
    assert_eq!(update_container(false, None).err(), Some(400));
    assert_eq!(update_container(true, Some(Err(AppError::BadRequest("x".into())))).err(), Some(404));
    assert_eq!(update_container(true, Some(Ok(container))).unwrap().container.name, "box");
    assert_eq!(bulk_delete_containers(&Ok(())), Ok(204));
    assert_eq!(bulk_delete_containers(&Err(AppError::BadRequest("x".into()))), Err(400));
    assert_eq!(bulk_delete_containers(&Err(AppError::DatabaseError("x".into()))), Err(500));
    assert_eq!(bulk_update_containers_disposed_status(&Ok(())), Ok(204));
    assert_eq!(
        bulk_update_containers_disposed_status(&Err(AppError::BadRequest("x".into()))),
        Err(500)
    );
}

#[test]
fn text_helpers() {
    assert!(starts_with("postgres://x", "postgres://"));
    assert!(starts_with("abc", ""));
    assert!(starts_with("abc", "abc"));
    assert!(!starts_with("ab", "abc"));
    assert!(!starts_with("xabc", "abc"));
    assert!(starts_with("\u{e9}t\u{e9}", "\u{e9}t"));
    assert_eq!(strip_prefix("abc/def", "abc/"), Some("def"));
    assert_eq!(strip_prefix("abc", "abc"), Some(""));
    assert_eq!(strip_prefix("abc", "abd"), None);
    assert_eq!(strip_prefix("\u{e9}\u{e9}x", "\u{e9}"), Some("\u{e9}x"));
    assert!(eq_ignore_ascii_case("AsC", "asc"));
    assert!(eq_ignore_ascii_case("", ""));
    assert!(!eq_ignore_ascii_case("asc", "as"));
    assert!(!eq_ignore_ascii_case("\u{e9}", "\u{c9}"));
    assert!(!eq_ignore_ascii_case("a[c", "a{c"));
    assert_eq!(sentence_with_id("Item with id ", 0, " not found"), "Item with id 0 not found");
    assert_eq!(sentence_with_id("<", -120, ">"), "<-120>");
    assert_eq!(sentence_with_id("", i64::MIN, ""), "-9223372036854775808");
    assert_eq!(sentence_with_id("", i64::MAX, ""), "9223372036854775807");
    let mut list: Vec<String> = Vec::new();
    for s in ["pear", "apple", "fig", "apple", "Apple", "", "figs", "fig"] {
        insert_ascending(&mut list, s.to_string());
    }
    assert_eq!(list, vec!["", "Apple", "apple", "fig", "figs", "pear"]);
}

#[test]
fn suggestions_are_sorted_and_without_duplicates() {
    let svc = ItemService::new(DatabasePool::connect("sqlite://d").unwrap());
    let rows = vec![
        Some("[\"usb\",\"hdmi\"]".to_string()),
        None,
        Some("not json".to_string()),
        Some("[\"vga\",\"usb\",\"USB\"]".to_string()),
        Some("[]".to_string()),
    ];
    assert_eq!(
        svc.get_connection_names_suggestions_result(&rows),
        vec!["USB", "hdmi", "usb", "vga"]
    );
    let rows = vec![
        Some("shelf B".to_string()),
        Some("shelf A".to_string()),
        None,
        Some("shelf B".to_string()),
        Some("\u{68da}".to_string()),
    ];
    assert_eq!(
        svc.get_storage_locations_suggestions_result(&rows),
        vec!["shelf A", "shelf B", "\u{68da}"]
    );
    assert!(svc.get_connection_names_suggestions_result(&Vec::new()).is_empty());
    assert_eq!(
        svc.get_storage_locations_suggestions().sql,
        "SELECT DISTINCT storage_location FROM items WHERE storage_location IS NOT NULL AND storage_location != ''"
    );
    assert_eq!(
        svc.get_connection_names_suggestions().sql,
        "SELECT DISTINCT connection_names FROM items WHERE connection_names IS NOT NULL AND connection_names != ''"
    );
}

#[test]
fn insertions_bind_the_fields_of_the_request() {
    let req = CreateItemRequest {
        name: "drill".to_string(),
        label_id: "00A1".to_string(),
        model_number: Some("M".to_string()),
        remarks: None,
        purchase_year: Some(2020),
        purchase_amount: Some(1.5f32.to_bits()),
        durability_years: None,
        is_depreciation_target: Some(true),
        connection_names: Some(Vec::new()),
        cable_color_pattern: Some(vec!["red".to_string(), "blue".to_string()]),
        storage_location: Some("shelf".to_string()),
        container_id: None,
        storage_type: Some("container".to_string()),
        qr_code_type: Some("qr".to_string()),
        image_url: None,
    };
    let pg = ItemService::new(DatabasePool::connect("postgres://h/d").unwrap());
    let s = pg.create_item(&req);
    assert_eq!(
        s.sql,
        "INSERT INTO items (name, label_id, model_number, remarks, purchase_year, purchase_amount, durability_years, is_depreciation_target, connection_names, cable_color_pattern, storage_location, container_id, storage_type, qr_code_type, image_url) VALUES ($1, $2, $3, $4, $5, $6, $7, $8, $9, $10, $11, $12, $13, $14, $15) RETURNING id"
    );
    assert_eq!(
        format!("{:?}", s.params),
        format!(
            "[Text(\"drill\"), Text(\"00A1\"), Text(\"M\"), Null(Text), Int32(2020), Real({}), Null(Int32), Bool(true), Text(\"[]\"), Text(\"[\\\"red\\\",\\\"blue\\\"]\"), Text(\"shelf\"), Null(Text), Text(\"container\"), Text(\"qr\"), Null(Text)]",
            1.5f32.to_bits()
        )
    );
    let lite = ItemService::new(DatabasePool::connect("sqlite://d").unwrap());
    let s = lite.create_item(&CreateItemRequest {
        is_depreciation_target: None,
        storage_type: None,
        connection_names: None,
        ..req
    });
    assert_eq!(
        s.sql,
        "INSERT INTO items (name, label_id, model_number, remarks, purchase_year, purchase_amount, durability_years, is_depreciation_target, connection_names, cable_color_pattern, storage_location, container_id, storage_type, qr_code_type, image_url) VALUES (?, ?, ?, ?, ?, ?, ?, ?, ?, ?, ?, ?, ?, ?, ?)"
    );
    assert_eq!(format!("{:?}", s.params[7]), "Bool(false)");
    assert_eq!(format!("{:?}", s.params[8]), "Null(Text)");
    assert_eq!(format!("{:?}", s.params[12]), "Text(\"location\")");
    let colors = CableColorService::new(DatabasePool::connect("postgres://h/d").unwrap());
    let s = colors.create_cable_color(&CreateCableColorRequest {
        name: "red".to_string(),
        hex_code: Some("#ff0000".to_string()),
        description: None,
    });
    assert_eq!(
        s.sql,
        "INSERT INTO cable_colors (name, hex_code, description) VALUES ($1, $2, $3) RETURNING id"
    );
    assert_eq!(format!("{:?}", s.params), "[Text(\"red\"), Text(\"#ff0000\"), Null(Text)]");
}

#[test]
fn upload_fields_with_a_known_extension() {
    assert!(matches!(upload_image_field_checked(Some("x"), None, None, true), Ok(None)));
    let field = upload_image_field_checked(Some("image"), Some("a.txt"), Some("text/plain"), true)
        .unwrap()
        .unwrap();
    assert_eq!(field.filename, "a.txt");
    assert_eq!(field.content_type, "text/plain");
    assert!(upload_image_field_checked(Some("image"), Some("a.png"), Some("text/plain"), false)
        .is_err());
    assert!(upload_image_field_checked(Some("image"), Some("a.png"), Some("image/gif"), false)
        .is_ok());
}

#[test]
fn outcomes_of_lookups_get_their_status() {
    let container = Container {
        id: "00A1".to_string(),
        name: "box".to_string(),
        description: None,
        location: "lab".to_string(),
        image_url: None,
        created_at: Timestamp::epoch(),
        updated_at: Timestamp::epoch(),
        is_disposed: false,
    };
    assert_eq!(get_container(Ok(container.clone())).unwrap().container.id, "00A1");
    assert_eq!(get_container(Err(AppError::DatabaseError("x".into()))).err(), Some(404));
    assert_eq!(list_containers_response(Ok(Vec::new())).unwrap().containers.len(), 0);
    assert_eq!(list_containers_response(Err(AppError::NotFound("x".into()))).err(), Some(500));
    assert_eq!(delete_container(&Ok(())), Ok(204));
    assert_eq!(delete_container(&Err(AppError::BadRequest("x".into()))), Err(404));
    assert!(check_container_id(Ok(true)).unwrap().exists);
    assert!(!check_container_id(Ok(false)).unwrap().exists);
    assert_eq!(check_container_id(Err(AppError::DatabaseError("x".into()))).err(), Some(500));
    assert_eq!(get_containers_by_location(Ok(vec![container])).unwrap().containers.len(), 1);
    assert_eq!(
        get_containers_by_location(Err(AppError::DatabaseError("x".into()))).err(),
        Some(500)
    );
    assert!(require_valid(Ok(())).is_ok());
    match require_valid(Err(vec![FieldError { field: "name", rule: Rule::Length }])) {
        Err(AppError::ValidationError(m)) => assert_eq!(m, "name: length"),
        _ => panic!("broken rules are a validation error"),
    }
}
