use catalog_fdw::decode::{decode, decode_column, Cell, Column};
use catalog_fdw::error::{FdwError, Operation, SchemaProblem};
use catalog_fdw::fdw::{ExampleFdw, API_KEY_HEADER, BASE_URL, USER_AGENT};
use catalog_fdw::json::Json;

fn fdw() -> ExampleFdw {
    ExampleFdw::init("15550001", "15550002", "key-1").unwrap()
}

fn cols(names: &[&str]) -> Vec<String> {
    names.iter().map(|n| n.to_string()).collect()
}

fn is_text(c: &Cell, want: &str) -> bool {
    matches!(c, Cell::Text(s) if s == want)
}

fn record(text: &str) -> Json {
    Json::parse(text).unwrap()
}

#[test]
fn init_accepts_three_options() {
    let f = ExampleFdw::init("a", "b", "c").unwrap();
    let req = f.scan_request();
    assert_eq!(req.url, format!("{}/a?from_number=b", BASE_URL));
}

#[test]
fn init_names_each_missing_option() {
    assert!(matches!(ExampleFdw::init("", "b", "c"), Err(FdwError::MissingOption(k)) if k == "phone_number"));
    assert!(matches!(ExampleFdw::init("a", "", "c"), Err(FdwError::MissingOption(k)) if k == "from_number"));
    assert!(matches!(ExampleFdw::init("a", "b", ""), Err(FdwError::MissingOption(k)) if k == "api_key"));
    assert!(matches!(ExampleFdw::init("", "", ""), Err(FdwError::MissingOption(k)) if k == "phone_number"));
}

#[test]
fn scan_request_carries_settings() {
    let req = fdw().scan_request();
    assert_eq!(
        req.url,
        "https://api.p.2chat.io/open/whatsapp/catalog/products/15550001?from_number=15550002"
    );
    assert_eq!(req.headers.len(), 2);
    assert_eq!(req.headers[0], ("user-agent".to_string(), USER_AGENT.to_string()));
    assert_eq!(req.headers[1], (API_KEY_HEADER.to_string(), "key-1".to_string()));
}

#[test]
fn host_version_is_fixed() {
    assert_eq!(ExampleFdw::host_version_requirement(), "^0.1.0");
}

#[test]
fn end_to_end_single_product() {
    let mut f = fdw();
    let body = r#"{"success":true,"products":[{"id":"p1","name":"Shirt","is_hidden":false,"max_available":5}]}"#;
    f.begin_scan(Ok(body.to_string())).unwrap();
    let c = cols(&["id", "name", "is_hidden", "max_available"]);
    let row = f.iter_scan(&c).unwrap().unwrap();
    assert_eq!(row.len(), 4);
    assert!(is_text(&row[0], "p1"));
    assert!(is_text(&row[1], "Shirt"));
    assert!(matches!(row[2], Cell::Bool(false)));
    assert!(matches!(row[3], Cell::I64(5)));
    assert!(f.iter_scan(&c).unwrap().is_none());
}

#[test]
fn rows_come_in_order_then_exhaustion_repeats() {
    let mut f = fdw();
    let body = r#"{"success":true,"products":[{"id":"z"},{"id":"a"},{"id":"m"}]}"#;
    f.begin_scan(Ok(body.to_string())).unwrap();
    let c = cols(&["id"]);
    for want in ["z", "a", "m"] {
        let row = f.iter_scan(&c).unwrap().unwrap();
        assert!(is_text(&row[0], want));
    }
    for _ in 0..3 {
        assert!(f.iter_scan(&c).unwrap().is_none());
    }
}

#[test]
fn empty_column_list_gives_empty_rows() {
    let mut f = fdw();
    f.begin_scan(Ok(r#"{"success":true,"products":[{},{}]}"#.to_string())).unwrap();
    let c: Vec<String> = Vec::new();
    assert_eq!(f.iter_scan(&c).unwrap().unwrap().len(), 0);
    assert_eq!(f.iter_scan(&c).unwrap().unwrap().len(), 0);
    assert!(f.iter_scan(&c).unwrap().is_none());
}

#[test]
fn iter_before_any_scan_is_exhausted() {
    let mut f = fdw();
    assert!(f.iter_scan(&cols(&["id"])).unwrap().is_none());
}

#[test]
fn unsupported_column_fails_row_and_keeps_cursor() {
    let mut f = fdw();
    f.begin_scan(Ok(r#"{"success":true,"products":[{"id":"p1"}]}"#.to_string())).unwrap();
    let bad = cols(&["id", "colour", "weight"]);
    assert!(matches!(f.iter_scan(&bad), Err(FdwError::UnsupportedColumn(n)) if n == "colour"));
    let row = f.iter_scan(&cols(&["id"])).unwrap().unwrap();
    assert!(is_text(&row[0], "p1"));
}

#[test]
fn transport_failure_is_reported() {
    let mut f = fdw();
    let r = f.begin_scan(Err("connection refused".to_string()));
    assert!(matches!(r, Err(FdwError::TransportError(m)) if m == "connection refused"));
}

#[test]
fn invalid_json_is_decode_error() {
    let mut f = fdw();
    let r = f.begin_scan(Ok("{not json".to_string()));
    assert!(matches!(r, Err(FdwError::DecodeError(m)) if !m.is_empty() && m != "{not json"));
}

#[test]
fn unsuccessful_response_is_api_error() {
    let mut f = fdw();
    for body in [r#"{"success":false,"products":[]}"#, r#"{"products":[]}"#, r#"{"success":"yes"}"#, "[]"] {
        assert!(matches!(f.begin_scan(Ok(body.to_string())), Err(FdwError::ApiError)));
    }
}

#[test]
fn malformed_products_is_schema_error() {
    let mut f = fdw();
    let r = f.begin_scan(Ok(r#"{"success":true}"#.to_string()));
    assert!(matches!(r, Err(FdwError::SchemaError(SchemaProblem::MissingProducts))));
    let r = f.begin_scan(Ok(r#"{"success":true,"products":{"id":"p1"}}"#.to_string()));
    assert!(matches!(r, Err(FdwError::SchemaError(SchemaProblem::ProductsNotArray))));
}

#[test]
fn failed_begin_scan_keeps_buffer() {
    let mut f = fdw();
    f.begin_scan(Ok(r#"{"success":true,"products":[{"id":"p1"}]}"#.to_string())).unwrap();
    assert!(f.begin_scan(Ok(r#"{"success":false}"#.to_string())).is_err());
    assert!(matches!(f.begin_scan(Ok("{\"success\":".to_string())), Err(FdwError::DecodeError(_))));
    assert!(matches!(f.begin_scan(Err("timeout".to_string())), Err(FdwError::TransportError(_))));
    let row = f.iter_scan(&cols(&["id"])).unwrap().unwrap();
    assert!(is_text(&row[0], "p1"));
}

#[test]
fn re_scan_and_modify_are_refused() {
    let mut f = fdw();
    f.begin_scan(Ok(r#"{"success":true,"products":[{"id":"p1"}]}"#.to_string())).unwrap();
    assert!(matches!(f.re_scan(), Err(FdwError::Unsupported(Operation::ReScan))));
    assert!(matches!(f.begin_modify(), Err(FdwError::Unsupported(Operation::Modify))));
    let row = vec![Cell::Text("p2".to_string())];
    assert!(f.insert(&row).is_ok());
    assert!(f.update(&Cell::I64(1), &row).is_ok());
    assert!(f.delete(&Cell::I64(1)).is_ok());
    assert!(f.end_modify().is_ok());
    let out = f.iter_scan(&cols(&["id"])).unwrap().unwrap();
    assert!(is_text(&out[0], "p1"));
    assert!(f.iter_scan(&cols(&["id"])).unwrap().is_none());
}

#[test]
fn end_scan_resets_and_repeats() {
    let mut f = fdw();
    assert!(f.end_scan().is_ok());
    f.begin_scan(Ok(r#"{"success":true,"products":[{"id":"p1"},{"id":"p2"}]}"#.to_string())).unwrap();
    f.iter_scan(&cols(&["id"])).unwrap().unwrap();
    assert!(f.end_scan().is_ok());
    assert!(f.end_scan().is_ok());
    assert!(f.iter_scan(&cols(&["id"])).unwrap().is_none());
    f.begin_scan(Ok(r#"{"success":true,"products":[{"id":"p3"}]}"#.to_string())).unwrap();
    let row = f.iter_scan(&cols(&["id"])).unwrap().unwrap();
    assert!(is_text(&row[0], "p3"));
}

#[test]
fn images_are_joined() {
    let r = record(r#"{"images":[{"url":"a"},{"url":"b"}]}"#);
    assert!(is_text(&decode(&r, "images").unwrap(), "a, b"));
}

#[test]
fn images_without_urls_are_skipped() {
    let r = record(r#"{"images":[{"url":"a"},{"alt":"x"},{"url":7},{"url":"c"}]}"#);
    assert!(is_text(&decode(&r, "images").unwrap(), "a, c"));
}

#[test]
fn images_empty_or_absent_give_empty_text() {
    assert!(is_text(&decode(&record(r#"{"images":[]}"#), "images").unwrap(), ""));
    assert!(is_text(&decode(&record(r#"{"id":"p"}"#), "images").unwrap(), ""));
    assert!(is_text(&decode_column(&record(r#"{"images":"a"}"#), Column::Images), ""));
}

#[test]
fn every_known_column_decodes() {
    let r = record(
        r#"{"id":"1","retailer_id":"r","name":"n","description":"d","url":"u","currency":"EUR",
            "price":"9.99","is_hidden":true,"max_available":-3,"availability":"in stock",
            "checkmark":false,"whatsapp_product_can_appeal":true,"is_approved":true,
            "approval_status":"APPROVED","signedShimmedUrl":"s","images":[{"url":"i"}]}"#,
    );
    let texts = [
        ("id", "1"),
        ("retailer_id", "r"),
        ("name", "n"),
        ("description", "d"),
        ("url", "u"),
        ("currency", "EUR"),
        ("price", "9.99"),
        ("availability", "in stock"),
        ("approval_status", "APPROVED"),
        ("signedShimmedUrl", "s"),
        ("images", "i"),
    ];
    for (col, want) in texts {
        assert!(is_text(&decode(&r, col).unwrap(), want), "{}", col);
    }
    assert!(matches!(decode(&r, "is_hidden").unwrap(), Cell::Bool(true)));
    assert!(matches!(decode(&r, "checkmark").unwrap(), Cell::Bool(false)));
    assert!(matches!(decode(&r, "whatsapp_product_can_appeal").unwrap(), Cell::Bool(true)));
    assert!(matches!(decode(&r, "is_approved").unwrap(), Cell::Bool(true)));
    assert!(matches!(decode(&r, "max_available").unwrap(), Cell::I64(-3)));
}

#[test]
fn mismatched_or_missing_members_are_null() {
    let r = record(r#"{"id":5,"name":null,"is_hidden":"no","max_available":"5","checkmark":1}"#);
    for col in ["id", "name", "is_hidden", "max_available", "checkmark", "price", "is_approved"] {
        assert!(matches!(decode(&r, col).unwrap(), Cell::Null), "{}", col);
    }
}

#[test]
fn numbers_outside_i64_are_null() {
    let big = record(r#"{"max_available":9223372036854775808}"#);
    assert!(matches!(decode(&big, "max_available").unwrap(), Cell::Null));
    let frac = record(r#"{"max_available":2.5}"#);
    assert!(matches!(decode(&frac, "max_available").unwrap(), Cell::Null));
    let top = record(r#"{"max_available":9223372036854775807}"#);
    assert!(matches!(decode(&top, "max_available").unwrap(), Cell::I64(i64::MAX)));
}

#[test]
fn unknown_column_fails_whatever_the_record() {
    for text in [r#"{}"#, r#"{"colour":"red"}"#, "null", "[1,2]"] {
        let r = record(text);
        assert!(matches!(decode(&r, "colour"), Err(FdwError::UnsupportedColumn(n)) if n == "colour"));
        assert!(matches!(decode(&r, "ID"), Err(FdwError::UnsupportedColumn(n)) if n == "ID"));
        assert!(matches!(decode(&r, ""), Err(FdwError::UnsupportedColumn(n)) if n.is_empty()));
    }
}

#[test]
fn non_object_record_gives_nulls() {
    let r = record("[\"id\"]");
    assert!(matches!(decode(&r, "id").unwrap(), Cell::Null));
    assert!(is_text(&decode(&r, "images").unwrap(), ""));
}

#[test]
fn parse_keeps_structure() {
    let j = record(r#"{"b":[true,null,-1,"x"],"a":{"c":1}}"#);
    let b = j.get("b").unwrap();
    match b {
        Json::Array(items) => {
            assert_eq!(items.len(), 4);
            assert!(matches!(items[0], Json::Bool(true)));
            assert!(matches!(items[1], Json::Null));
            assert!(matches!(items[2], Json::Number(Some(-1))));
            assert!(matches!(&items[3], Json::Str(s) if s == "x"));
        }
        _ => panic!("not an array"),
    }
    assert!(matches!(j.get("a").unwrap().get("c"), Some(Json::Number(Some(1)))));
    assert!(j.get("z").is_none());
}

#[test]
fn parse_refuses_deep_nesting() {
    let deep = format!("{}{}", "[".repeat(200), "]".repeat(200));
    assert!(matches!(Json::parse(&deep), Err(FdwError::DecodeError(_))));
    let ok = format!("{}{}", "[".repeat(100), "]".repeat(100));
    assert!(Json::parse(&ok).is_ok());
}

#[test]
fn take_moves_member_out() {
    let j = record(r#"{"products":[{"id":"p"}],"x":1}"#);
    assert!(matches!(j.take("products"), Some(Json::Array(v)) if v.len() == 1));
    assert!(record(r#"{"x":1}"#).take("products").is_none());
}

#[test]
fn parse_sorts_members_and_keeps_last_repeat() {
    let j = record(r#"{"b":1,"a":2,"b":3}"#);
    match &j {
        Json::Object(members) => {
            assert_eq!(members.len(), 2);
            assert_eq!(members[0].0, "a");
            assert_eq!(members[1].0, "b");
            assert!(matches!(members[1].1, Json::Number(Some(3))));
        }
        _ => panic!("not an object"),
    }
}
