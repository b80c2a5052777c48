use columbia_api::auth::login;
use columbia_api::catalog::{addition_response, listing_or_empty, NewProduct, Product};
use columbia_api::config::{parse_port, startup_config, StartupError, DEFAULT_PORT, POOL_MAX_CONNECTIONS};
use columbia_api::routes::{endpoint_for, routes, Endpoint, HttpMethod};
use columbia_api::stats::{availability_message, project_stats, service_status};

#[test]
fn login_accepts_admin_and_names_it() {
    let r = login("admin");
    assert!(r.success);
    assert!(r.message.contains("admin"));
    assert_eq!(r.message, "Welcome back, admin!");
}

#[test]
fn login_accepts_columbia_user() {
    let r = login("columbia_user");
    assert!(r.success);
    assert!(r.message.contains("columbia_user"));
}

#[test]
fn login_refuses_others() {
    for name in ["guest", "Admin", "", "admin ", "columbia"] {
        let r = login(name);
        assert!(!r.success, "{name}");
        assert_eq!(r.message, "Invalid credentials.");
    }
}

#[test]
fn stats_snapshot_is_fixed() {
    let s = project_stats();
    assert_eq!(s.days_left, 14);
    assert_eq!(s.completion_percentage, 92);
    assert_eq!(s.pending_approvals, 1);
}

#[test]
fn static_answers() {
    assert_eq!(availability_message(), "Columbia API Online!");
    let s = service_status();
    assert!(s.active);
    assert_eq!(s.message, "Columbia API is running");
}

#[test]
fn port_parsing_examples() {
    assert_eq!(parse_port("8080"), Some(8080));
    assert_eq!(parse_port("+80"), Some(80));
    assert_eq!(parse_port("0"), Some(0));
    assert_eq!(parse_port("65535"), Some(65535));
    assert_eq!(parse_port("00042"), Some(42));
    assert_eq!(parse_port("65536"), None);
    assert_eq!(parse_port("123456789012"), None);
    assert_eq!(parse_port(""), None);
    assert_eq!(parse_port("+"), None);
    assert_eq!(parse_port("-1"), None);
    assert_eq!(parse_port("80a"), None);
    assert_eq!(parse_port(" 80"), None);
}

#[test]
fn port_parsing_agrees_with_std() {
    for s in ["1", "4000", "+4000", "++1", "99999", "65535", "65536", "x", "", "٣", "12 "] {
        assert_eq!(parse_port(s), s.parse::<u16>().ok(), "{s:?}");
    }
}

#[test]
fn startup_needs_database_url() {
    let r = startup_config(Some("8080".to_string()), None);
    assert_eq!(r, Err(StartupError::MissingDatabaseUrl));
}

#[test]
fn startup_rejects_bad_port() {
    let r = startup_config(Some("eighty".to_string()), Some("postgres://db".to_string()));
    assert_eq!(r, Err(StartupError::InvalidPort));
}

#[test]
fn startup_defaults_port() {
    let c = startup_config(None, Some("postgres://db".to_string())).unwrap();
    assert_eq!(c.port, DEFAULT_PORT);
    assert_eq!(c.port, 8080);
    assert_eq!(c.database_url, "postgres://db");
    assert_eq!(c.max_connections, POOL_MAX_CONNECTIONS);
    assert_eq!(c.max_connections, 5);
}

#[test]
fn startup_reads_port() {
    let c = startup_config(Some("4000".to_string()), Some("postgres://db".to_string())).unwrap();
    assert_eq!(c.port, 4000);
}

fn mug() -> Product {
    Product {
        id: 7,
        name: "Mug".to_string(),
        price_bits: 9.99f64.to_bits(),
        image_url: "http://x/y.png".to_string(),
    }
}

#[test]
fn listing_passes_rows_through() {
    let older = Product { id: 3, name: "Cup".to_string(), price_bits: 2.5f64.to_bits(), image_url: "u".to_string() };
    let rows = listing_or_empty(Ok(vec![mug(), older.clone()]));
    assert_eq!(rows.len(), 2);
    assert_eq!(rows[0], mug());
    assert_eq!(rows[1], older);
    assert_eq!(f64::from_bits(rows[0].price_bits), 9.99);
}

#[test]
fn listing_degrades_to_empty_when_store_fails() {
    let rows = listing_or_empty(Err("connection refused".to_string()));
    assert!(rows.is_empty());
}

#[test]
fn addition_confirms_with_name() {
    let p = NewProduct { name: "Mug".to_string(), price_bits: 9.99f64.to_bits(), image_url: "http://x/y.png".to_string() };
    let r = addition_response(&p, &Ok(1));
    assert!(r.success);
    assert_eq!(r.message, "Mug saved to Columbia inventory!");
}

#[test]
fn addition_reports_store_error() {
    let p = NewProduct { name: "Mug".to_string(), price_bits: 0, image_url: String::new() };
    let r = addition_response(&p, &Err("pool timed out".to_string()));
    assert!(!r.success);
    assert_eq!(r.message, "Database error: pool timed out");
}

#[test]
fn store_unreachable_list_empty_add_fails() {
    let rows = listing_or_empty(Err("unreachable".to_string()));
    assert_eq!(rows.len(), 0);
    let p = NewProduct { name: "Lamp".to_string(), price_bits: 1, image_url: "z".to_string() };
    assert!(!addition_response(&p, &Err("unreachable".to_string())).success);
}

#[test]
fn route_table_matches_paths() {
    assert_eq!(endpoint_for(HttpMethod::Get, "/"), Some(Endpoint::Root));
    assert_eq!(endpoint_for(HttpMethod::Get, "/api/status"), Some(Endpoint::Status));
    assert_eq!(endpoint_for(HttpMethod::Post, "/api/login"), Some(Endpoint::Login));
    assert_eq!(endpoint_for(HttpMethod::Get, "/api/stats"), Some(Endpoint::Stats));
    assert_eq!(endpoint_for(HttpMethod::Get, "/api/products"), Some(Endpoint::ListProducts));
    assert_eq!(endpoint_for(HttpMethod::Post, "/api/admin/add-product"), Some(Endpoint::AddProduct));
    assert_eq!(endpoint_for(HttpMethod::Get, "/api/login"), None);
    assert_eq!(endpoint_for(HttpMethod::Post, "/api/products"), None);
    assert_eq!(endpoint_for(HttpMethod::Get, "/missing"), None);
}

#[test]
fn root_and_status_need_no_store() {
    assert!(!Endpoint::Root.uses_store());
    assert!(!Endpoint::Status.uses_store());
    assert!(Endpoint::ListProducts.uses_store());
    assert!(Endpoint::AddProduct.uses_store());
    let all = routes();
    assert_eq!(all.len(), 6);
    assert_eq!(all.iter().filter(|e| e.uses_store()).count(), 2);
    assert_eq!(Endpoint::AddProduct.path(), "/api/admin/add-product");
    assert_eq!(Endpoint::Login.method(), HttpMethod::Post);
}
