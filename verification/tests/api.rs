use sync_service::api::{
    bulk_upload_check_reply, delete_asset_reply, empty_trash_reply, search_outcome, search_reply,
    server_version_reply, upload_reply, version_notice, ApiError, BulkCheckInput, BulkCheckResult,
    BulkUploadCheckResponse, HttpMethod, ImmichAPI, Notice, Operation, Reply, ServerVersion,
    UploadResponse,
};
use sync_service::workers::asset_info::AssetInfo;

#[test]
fn api_new_appends_api_path() {
    let api = ImmichAPI::new("http://localhost:3001", "test-key");
    assert_eq!(api.base_url, "http://localhost:3001/api");
}

#[test]
fn api_new_preserves_existing_api_path() {
    let api = ImmichAPI::new("http://localhost:3001/api", "test-key");
    assert_eq!(api.base_url, "http://localhost:3001/api");
}

#[test]
fn api_new_strips_trailing_slash() {
    let api = ImmichAPI::new("http://localhost:3001/", "test-key");
    assert_eq!(api.base_url, "http://localhost:3001/api");
}

#[test]
fn url_bare_path() {
    let api = ImmichAPI::new("http://localhost:3001", "key");
    assert_eq!(api.url("users/me"), "http://localhost:3001/api/users/me");
}

#[test]
fn url_leading_slash() {
    let api = ImmichAPI::new("http://localhost:3001", "key");
    assert_eq!(api.url("/users/me"), "http://localhost:3001/api/users/me");
}

#[test]
fn url_trailing_slash() {
    let api = ImmichAPI::new("http://localhost:3001", "key");
    assert_eq!(api.url("users/me/"), "http://localhost:3001/api/users/me");
}

#[test]
fn url_both_slashes() {
    let api = ImmichAPI::new("http://localhost:3001", "key");
    assert_eq!(api.url("/users/me/"), "http://localhost:3001/api/users/me");
}

#[test]
fn the_api_path_is_added_once() {
    let once = ImmichAPI::new("http://localhost:3001//", "key").base_url;
    assert_eq!(once, "http://localhost:3001/api");
    let twice = ImmichAPI::new(&once, "key").base_url;
    assert_eq!(twice, once);
    assert_eq!(ImmichAPI::new("http://host/api///", "key").base_url, "http://host/api");
    assert_eq!(ImmichAPI::new("http://host/myapi", "key").base_url, "http://host/myapi/api");
    assert_eq!(ImmichAPI::new("", "key").base_url, "/api");
}

#[test]
fn slashes_inside_a_path_stay() {
    let api = ImmichAPI::new("http://localhost:3001", "key");
    assert_eq!(api.url("//a//b//"), "http://localhost:3001/api/a//b");
}

#[test]
fn keys_with_control_characters_are_not_accepted() {
    assert!(!ImmichAPI::accepts_key("bad\nkey"));
    assert!(!ImmichAPI::accepts_key("bad\u{7f}key"));
    assert!(!ImmichAPI::accepts_key("\0"));
    assert!(ImmichAPI::accepts_key("good\tkey"));
    assert!(ImmichAPI::accepts_key("test-key"));
    assert!(ImmichAPI::accepts_key("schl\u{fc}ssel"));
    assert!(ImmichAPI::accepts_key(""));
}

#[test]
fn every_request_carries_the_key() {
    let api = ImmichAPI::new("http://localhost:3001", "test-key");
    assert_eq!(
        api.headers(),
        vec![
            ("accept".to_string(), "application/json".to_string()),
            ("x-api-key".to_string(), "test-key".to_string()),
        ]
    );
}

#[test]
fn search_asks_for_the_file_name() {
    let api = ImmichAPI::new("http://localhost:3001", "key");
    let request = api.search_assets_request("a \"b\"\\\n\u{1}\u{1f}\u{8}\u{c}\r\t/\u{e9}.jpg");
    assert_eq!(request.method, HttpMethod::Post);
    assert_eq!(request.url, "http://localhost:3001/api/search/metadata");
    assert_eq!(
        request.body.as_deref(),
        Some("{\"originalFileName\":\"a \\\"b\\\"\\\\\\n\\u0001\\u001f\\b\\f\\r\\t/\u{e9}.jpg\"}")
    );
}

#[test]
fn search_body_is_the_json_object() {
    let api = ImmichAPI::new("http://localhost:3001", "key");
    for name in ["", "photo.jpg", "q\"uote", "\u{2028}\u{1f600}", "tab\tnew\nline"] {
        let body = api.search_assets_request(name).body.unwrap();
        let value: serde_json::Value = serde_json::from_str(&body).unwrap();
        assert_eq!(value["originalFileName"].as_str(), Some(name));
        assert_eq!(value.as_object().unwrap().len(), 1);
    }
}

#[test]
fn requests_without_a_body() {
    let api = ImmichAPI::new("http://localhost:3001", "key");
    let trash = api.empty_trash_request();
    assert_eq!(trash.method, HttpMethod::Post);
    assert_eq!(trash.url, "http://localhost:3001/api/trash/empty");
    assert_eq!(trash.body, None);
    let version = api.server_version_request();
    assert_eq!(version.method, HttpMethod::Get);
    assert_eq!(version.url, "http://localhost:3001/api/server/version");
    assert_eq!(version.body, None);
}

#[test]
fn delete_names_the_asset() {
    let api = ImmichAPI::new("http://localhost:3001", "key");
    let request = api.delete_asset_request("uuid-1");
    assert_eq!(request.method, HttpMethod::Delete);
    assert_eq!(request.url, "http://localhost:3001/api/assets");
    assert_eq!(request.body.as_deref(), Some("{\"ids\":[\"uuid-1\"]}"));
}

fn input(id: &str, checksum_hex: &str) -> BulkCheckInput {
    BulkCheckInput { id: id.to_string(), checksum_hex: checksum_hex.to_string() }
}

#[test]
fn bulk_check_lists_every_asset() {
    let api = ImmichAPI::new("http://localhost:3001", "key");
    let none = api.bulk_upload_check_request(&[]);
    assert_eq!(none.body.as_deref(), Some("{\"assets\":[]}"));
    let one = api.bulk_upload_check_request(&[input("a.jpg", "01")]);
    assert_eq!(one.method, HttpMethod::Post);
    assert_eq!(one.url, "http://localhost:3001/api/assets/bulk-upload-check");
    assert_eq!(one.body.as_deref(), Some("{\"assets\":[{\"checksum\":\"01\",\"id\":\"a.jpg\"}]}"));
    let three =
        api.bulk_upload_check_request(&[input("a.jpg", "01"), input("b\"", "02"), input("c", "03")]);
    assert_eq!(
        three.body.as_deref(),
        Some(
            "{\"assets\":[{\"checksum\":\"01\",\"id\":\"a.jpg\"},{\"checksum\":\"02\",\"id\":\"b\\\"\"},{\"checksum\":\"03\",\"id\":\"c\"}]}"
        )
    );
}

fn info() -> AssetInfo {
    AssetInfo {
        device_asset_id: "a.jpg-7".to_string(),
        file_created_at: "1970-01-01T00:00:05Z".to_string(),
        file_modified_at: "1970-01-01T00:00:07Z".to_string(),
    }
}

#[test]
fn upload_form_holds_the_facts() {
    let api = ImmichAPI::new("http://localhost:3001", "key");
    let form = api.upload_asset_form("/data/a.jpg", &info()).unwrap();
    assert_eq!(form.url, "http://localhost:3001/api/assets");
    assert_eq!(form.file_field, "assetData");
    assert_eq!(form.file_name, "a.jpg");
    assert_eq!(
        form.fields,
        vec![
            ("deviceAssetId".to_string(), "a.jpg-7".to_string()),
            ("deviceId".to_string(), "sync-service".to_string()),
            ("fileCreatedAt".to_string(), "1970-01-01T00:00:05Z".to_string()),
            ("fileModifiedAt".to_string(), "1970-01-01T00:00:07Z".to_string()),
        ]
    );
}

#[test]
fn a_file_without_a_name_is_not_uploaded() {
    let api = ImmichAPI::new("http://localhost:3001", "key");
    let error = api.upload_asset_form("/data/..", &info()).unwrap_err();
    assert_eq!(error, ApiError::InvalidFileName { path: "/data/..".to_string() });
    assert_eq!(error.message(), "Invalid file name: /data/..");
}

#[test]
fn upload_replies() {
    let response = || Some(UploadResponse { id: Some("uuid-1".to_string()) });
    assert_eq!(upload_reply(200, "{}", response()), Ok(response()));
    assert_eq!(upload_reply(201, "{}", response()), Ok(response()));
    assert_eq!(
        upload_reply(201, "{}", Some(UploadResponse { id: None })),
        Ok(Some(UploadResponse { id: None }))
    );
    assert_eq!(upload_reply(500, "no", None), Ok(None));
    assert_eq!(upload_reply(204, "{}", response()), Ok(None));
    let error = upload_reply(200, "no", None).unwrap_err();
    assert_eq!(error, ApiError::Malformed { reply: Reply::Upload, body: "no".to_string() });
    assert_eq!(error.message(), "Failed to parse upload response: no");
}

#[test]
fn search_replies() {
    let found = search_reply(200, "{\"assets\":{\"items\":[{\"id\":\"x\"},7, \"s\"],\"total\":3}}");
    assert_eq!(
        found,
        Ok(vec!["{\"id\":\"x\"}".to_string(), "7".to_string(), "\"s\"".to_string()])
    );
    assert_eq!(search_reply(200, "{\"assets\":{\"items\":[]}}"), Ok(vec![]));
    assert_eq!(search_reply(200, "{\"assets\":{}}"), Ok(vec![]));
    assert_eq!(search_reply(200, "{\"items\":[1]}"), Ok(vec![]));
    assert_eq!(search_reply(200, "{\"assets\":{\"items\":7}}"), Ok(vec![]));
    assert_eq!(search_reply(200, "[]"), Ok(vec![]));
    let malformed = search_reply(200, "{\"assets\"").unwrap_err();
    assert_eq!(malformed.message(), "Failed to parse search response: {\"assets\"");
    let refused = search_reply(401, "{\"assets\":{\"items\":[1]}}").unwrap_err();
    assert_eq!(
        refused.message(),
        "POST search/metadata returned status 401. Response: {\"assets\":{\"items\":[1]}}"
    );
}

#[test]
fn search_outcomes() {
    let items = || vec!["1".to_string(), "2".to_string()];
    assert_eq!(search_outcome(200, "b", Some(Some(items()))), Ok(items()));
    assert_eq!(search_outcome(200, "b", Some(None)), Ok(vec![]));
    assert_eq!(
        search_outcome(200, "b", None),
        Err(ApiError::Malformed { reply: Reply::Search, body: "b".to_string() })
    );
    assert_eq!(
        search_outcome(503, "b", Some(Some(items()))),
        Err(ApiError::Status { operation: Operation::Search, status: 503, body: "b".to_string() })
    );
}

#[test]
fn empty_trash_replies() {
    assert_eq!(empty_trash_reply(200, ""), Ok(()));
    let error = empty_trash_reply(204, "x").unwrap_err();
    assert_eq!(error.message(), "POST trash/empty returned status 204. Response: x");
}

#[test]
fn delete_asset_replies() {
    assert_eq!(delete_asset_reply("uuid-1", 204, ""), Ok(()));
    let error = delete_asset_reply("uuid-1", 200, "x").unwrap_err();
    assert_eq!(error.message(), "Failed to delete asset uuid-1, status code 200. Response: x");
}

#[test]
fn server_version_replies() {
    let version = ServerVersion { major: 3, minor: 0, patch: 12 };
    assert_eq!(server_version_reply(200, "{}", Some(version)), Ok(version));
    let refused = server_version_reply(404, "x", Some(version)).unwrap_err();
    assert_eq!(refused.message(), "GET server/version returned status 404. Response: x");
    let malformed = server_version_reply(200, "x", None).unwrap_err();
    assert_eq!(malformed.message(), "Failed to parse server version response: x");
}

#[test]
fn bulk_upload_check_replies() {
    let response = || BulkUploadCheckResponse {
        results: vec![BulkCheckResult {
            id: "a.jpg".to_string(),
            action: "accept".to_string(),
            asset_id: None,
        }],
    };
    assert_eq!(bulk_upload_check_reply(200, "{}", Some(response())), Ok(response()));
    let refused = bulk_upload_check_reply(500, "x", Some(response())).unwrap_err();
    assert_eq!(refused.message(), "bulk-upload-check returned status 500. Response: x");
    let malformed = bulk_upload_check_reply(200, "x", None).unwrap_err();
    assert_eq!(malformed.message(), "Failed to parse bulk-upload-check response: x");
}

#[test]
fn versions_are_dotted() {
    assert_eq!(ServerVersion { major: 2, minor: 10, patch: 0 }.text(), "2.10.0");
    assert_eq!(
        ServerVersion { major: u32::MAX, minor: 0, patch: 1 }.text(),
        "4294967295.0.1"
    );
}

#[test]
fn a_deprecated_server_is_warned_about() {
    let v2 = ServerVersion { major: 2, minor: 5, patch: 1 };
    assert_eq!(
        version_notice(Ok(v2)),
        Notice::Warning(
            "Immich server v2.5.1 detected. Immich v2 support is deprecated \
             and will be removed in 0.3.x releases \u{2014} please upgrade to Immich v3"
                .to_string()
        )
    );
    let v3 = ServerVersion { major: 3, minor: 0, patch: 0 };
    assert_eq!(
        version_notice(Ok(v3)),
        Notice::Info("Immich server v3.0.0 detected".to_string())
    );
    assert_eq!(
        version_notice(Err("timed out".to_string())),
        Notice::Warning("Could not determine Immich server version: timed out".to_string())
    );
}

#[test]
fn an_upload_form_of_a_named_file() {
    let api = ImmichAPI::new("http://localhost:3001", "key");
    let form = api.upload_form_named("x", Some("b.jpg"), &info()).unwrap();
    assert_eq!(form.file_name, "b.jpg");
    assert_eq!(
        api.upload_form_named("x", None, &info()),
        Err(ApiError::InvalidFileName { path: "x".to_string() })
    );
}
