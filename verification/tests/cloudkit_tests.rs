use apple_services::cloudkit::BASE_URL;
use apple_services::cloudkit::Container;
use apple_services::cloudkit::Db;
use apple_services::cloudkit::DbBasePath;
use apple_services::cloudkit::Env;
use apple_services::cloudkit::Operation;
use apple_services::cloudkit::Record;
use apple_services::cloudkit::Request;
use apple_services::cloudkit::X_APPLE_CLOUDKIT_REQUEST_ISO8601_DATE_HEADER;
use apple_services::cloudkit::X_APPLE_CLOUDKIT_REQUEST_KEY_ID_HEADER;
use apple_services::cloudkit::X_APPLE_CLOUDKIT_REQUEST_SIGNATURE_V1_HEADER;
use apple_services::cloudkit::ZoneId;
use apple_services::cloudkit::records::ModifyRecordsRequest;
use apple_services::cloudkit::records::ModifyRecordsRequestBody;
use apple_services::cloudkit::zones::FetchZonesRequest;

fn base_path() -> DbBasePath {
    DbBasePath::new(Container(String::from("iCloud.com.example.app")), Env::Dev)
}

#[test]
fn cloudkit_constants_hold_the_documented_values() {
    assert_eq!(BASE_URL, "https://api.apple-cloudkit.com");
    assert_eq!(X_APPLE_CLOUDKIT_REQUEST_KEY_ID_HEADER, "X-Apple-CloudKit-Request-KeyID");
    assert_eq!(
        X_APPLE_CLOUDKIT_REQUEST_ISO8601_DATE_HEADER,
        "X-Apple-CloudKit-Request-ISO8601Date"
    );
    assert_eq!(
        X_APPLE_CLOUDKIT_REQUEST_SIGNATURE_V1_HEADER,
        "X-Apple-CloudKit-Request-SignatureV1"
    );
}

#[test]
fn env_and_db_render_their_path_segments() {
    assert_eq!(Env::Dev.as_str(), "development");
    assert_eq!(Env::Prod.as_str(), "production");
    assert_eq!(Db::Public.as_str(), "public");
    assert_eq!(Db::Private.as_str(), "private");
    assert_eq!(Db::Shared.as_str(), "shared");
}

#[test]
fn db_base_path_derives_its_sub_path() {
    let path = base_path();
    assert_eq!(path.version(), "1");
    assert_eq!(path.container().0, "iCloud.com.example.app");
    assert_eq!(path.environment(), &Env::Dev);
    assert_eq!(path.sub_path(), "/database/1/iCloud.com.example.app/development");
}

#[test]
fn modify_records_request_derives_its_sub_path_and_body() {
    let body = ModifyRecordsRequestBody {
        operations: vec![Operation {
            operation_type: String::from("create"),
            record: Record {
                record_name: String::from("r1"),
                record_type: Some(String::from("Item")),
                record_change_tag: None,
            },
            desired_keys: None,
        }],
        zone_id: ZoneId { zone_name: String::from("_defaultZone"), owner_record_name: None },
        atomic: Some(true),
        desired_keys: None,
        numbers_as_strings: None,
    };
    let request = ModifyRecordsRequest::new(base_path(), Db::Public, body);
    assert_eq!(
        request.sub_path(),
        "/database/1/iCloud.com.example.app/development/public/records/modify"
    );
    let body = request.body().unwrap();
    assert_eq!(body.operations.len(), 1);
    assert_eq!(body.operations[0].record.record_name, "r1");
    assert_eq!(body.zone_id.zone_name, "_defaultZone");
}

#[test]
fn fetch_zones_request_derives_its_sub_path_and_has_no_body() {
    let request = FetchZonesRequest::new(base_path(), Db::Private);
    assert_eq!(
        request.sub_path(),
        "/database/1/iCloud.com.example.app/development/private/zones/list"
    );
    assert!(request.body().is_none());
}
