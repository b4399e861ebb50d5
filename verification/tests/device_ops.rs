use device_upgrade::config::Config;
use device_upgrade::device::{
    check_upgrade_status, get_current_version, read_status, read_version, status_from_member,
    trigger_upgrade, upload_os_file, version_from_member, DeviceClient, Method, Request, Response,
};
use device_upgrade::error::DeviceError;

fn client(base_url: &str, token: &str) -> DeviceClient {
    let config = Config::new(base_url.to_string(), token.to_string(), "/os.bin".to_string()).unwrap();
    DeviceClient::bind(&config)
}

fn reply(status: u16, body: &str) -> Result<Response, DeviceError> {
    Ok(Response { status, body: body.as_bytes().to_vec() })
}

#[test]
fn client_takes_base_url_and_token_from_the_config() {
    let c = client("http://10.0.0.1:8080", "secret");
    assert_eq!(c.base_url(), "http://10.0.0.1:8080");
    assert_eq!(c.token(), "secret");
}

#[test]
fn version_request_is_a_get_on_the_version_path() {
    let request = client("http://dev", "tok").version_request();
    assert_eq!(
        request,
        Request {
            method: Method::Get,
            url: "http://dev/api/device/version".to_string(),
            token: "tok".to_string(),
            body: None,
        }
    );
}

#[test]
fn upload_request_posts_the_image_as_raw_body() {
    let image = vec![0u8, 1, 2, 255];
    let request = client("http://dev", "tok").upload_request(image.clone());
    assert_eq!(
        request,
        Request {
            method: Method::Post,
            url: "http://dev/api/device/upload".to_string(),
            token: "tok".to_string(),
            body: Some(image),
        }
    );
}

#[test]
fn upload_request_with_empty_image_has_an_empty_body() {
    let request = client("http://dev", "tok").upload_request(Vec::new());
    assert_eq!(request.body, Some(Vec::new()));
}

#[test]
fn trigger_request_is_a_post_without_body() {
    let request = client("http://dev", "tok").trigger_request();
    assert_eq!(
        request,
        Request {
            method: Method::Post,
            url: "http://dev/api/device/upgrade".to_string(),
            token: "tok".to_string(),
            body: None,
        }
    );
}

#[test]
fn status_request_is_a_get_on_the_status_path() {
    let request = client("http://dev", "tok").status_request();
    assert_eq!(
        request,
        Request {
            method: Method::Get,
            url: "http://dev/api/device/upgrade/status".to_string(),
            token: "tok".to_string(),
            body: None,
        }
    );
}

#[test]
fn base_url_is_used_as_it_stands() {
    let request = client("http://dev/", "tok").version_request();
    assert_eq!(request.url, "http://dev//api/device/version");
}

#[test]
fn all_four_requests_carry_the_same_token() {
    let c = client("http://dev", "one-token");
    assert_eq!(c.version_request().token, "one-token");
    assert_eq!(c.upload_request(vec![1]).token, "one-token");
    assert_eq!(c.trigger_request().token, "one-token");
    assert_eq!(c.status_request().token, "one-token");
}

#[test]
fn request_clone_is_equal() {
    let request = client("http://dev", "tok").upload_request(vec![7, 8, 9]);
    assert_eq!(request.clone(), request);
    let plain = client("http://dev", "tok").status_request();
    assert_eq!(plain.clone(), plain);
}

#[test]
fn response_clone_is_equal() {
    let response = Response { status: 200, body: vec![1, 2, 3] };
    assert_eq!(response.clone(), response);
}

#[test]
fn client_clone_has_the_same_binding() {
    let c = client("http://dev", "tok");
    assert_eq!(c.clone(), c);
}

#[test]
fn version_is_the_literal_field_value() {
    assert_eq!(version_from_member(Some("1.0".to_string())), "1.0");
    assert_eq!(version_from_member(Some(String::new())), "");
    assert_eq!(version_from_member(Some("unknown".to_string())), "unknown");
}

#[test]
fn version_is_unknown_when_the_field_is_absent() {
    assert_eq!(version_from_member(None), "unknown");
}

#[test]
fn status_is_complete_only_for_the_exact_word() {
    assert!(status_from_member(Some("completed".to_string())));
    assert!(!status_from_member(Some("in_progress".to_string())));
    assert!(!status_from_member(Some("Completed".to_string())));
    assert!(!status_from_member(Some("completed ".to_string())));
    assert!(!status_from_member(Some("complete".to_string())));
    assert!(!status_from_member(Some(String::new())));
    assert!(!status_from_member(None));
}

#[test]
fn read_version_finds_the_member() {
    assert_eq!(read_version(br#"{"version":"1.0"}"#), Ok("1.0".to_string()));
    assert_eq!(
        read_version(b"  { \"model\" : \"x\", \"version\" : \"2.4.1-rc1\" }\n"),
        Ok("2.4.1-rc1".to_string())
    );
}

#[test]
fn read_version_decodes_escapes() {
    assert_eq!(read_version(br#"{"version":"1.0 \"beta\""}"#), Ok("1.0 \"beta\"".to_string()));
}

#[test]
fn read_version_of_repeated_member_takes_the_last() {
    assert_eq!(read_version(br#"{"version":"1","version":"2"}"#), Ok("2".to_string()));
}

#[test]
fn read_version_without_text_member_is_unknown() {
    assert_eq!(read_version(b"{}"), Ok("unknown".to_string()));
    assert_eq!(read_version(br#"{"Version":"1.0"}"#), Ok("unknown".to_string()));
    assert_eq!(read_version(br#"{"version":5}"#), Ok("unknown".to_string()));
    assert_eq!(read_version(br#"{"version":null}"#), Ok("unknown".to_string()));
    assert_eq!(read_version(br#"{"version":["1.0"]}"#), Ok("unknown".to_string()));
    assert_eq!(read_version(br#"{"device":{"version":"1.0"}}"#), Ok("unknown".to_string()));
}

#[test]
fn read_version_of_a_document_that_is_no_object_is_unknown() {
    assert_eq!(read_version(b"[1, 2]"), Ok("unknown".to_string()));
    assert_eq!(read_version(br#""version""#), Ok("unknown".to_string()));
    assert_eq!(read_version(b"null"), Ok("unknown".to_string()));
    assert_eq!(read_version(b"17"), Ok("unknown".to_string()));
}

#[test]
fn read_version_of_what_is_not_json_is_a_decode_error() {
    assert_eq!(read_version(b""), Err(DeviceError::Decode));
    assert_eq!(read_version(b"not json"), Err(DeviceError::Decode));
    assert_eq!(read_version(br#"{"version":"1.0""#), Err(DeviceError::Decode));
    assert_eq!(read_version(br#"{"version":"1.0"} trailing"#), Err(DeviceError::Decode));
    assert_eq!(read_version(b"<html>502</html>"), Err(DeviceError::Decode));
    assert_eq!(read_version(&[b'"', 0xff, b'"']), Err(DeviceError::Decode));
}

#[test]
fn read_status_is_true_for_completed_only() {
    assert_eq!(read_status(br#"{"status":"completed"}"#), Ok(true));
    assert_eq!(read_status(br#"{"status":"in_progress"}"#), Ok(false));
    assert_eq!(read_status(br#"{"status":"failed"}"#), Ok(false));
    assert_eq!(read_status(br#"{"status":"COMPLETED"}"#), Ok(false));
    assert_eq!(read_status(br#"{"status":""}"#), Ok(false));
}

#[test]
fn read_status_without_text_member_is_false() {
    assert_eq!(read_status(b"{}"), Ok(false));
    assert_eq!(read_status(br#"{"state":"completed"}"#), Ok(false));
    assert_eq!(read_status(br#"{"status":true}"#), Ok(false));
    assert_eq!(read_status(br#"{"status":null}"#), Ok(false));
    assert_eq!(read_status(br#"["completed"]"#), Ok(false));
    assert_eq!(read_status(br#""completed""#), Ok(false));
}

#[test]
fn read_status_of_what_is_not_json_is_a_decode_error() {
    assert_eq!(read_status(b""), Err(DeviceError::Decode));
    assert_eq!(read_status(b"completed"), Err(DeviceError::Decode));
    assert_eq!(read_status(br#"{"status":"completed"}}"#), Err(DeviceError::Decode));
}

#[test]
fn read_status_and_read_version_look_at_their_own_member() {
    let body = br#"{"status":"completed","version":"3.1"}"#;
    assert_eq!(read_status(body), Ok(true));
    assert_eq!(read_version(body), Ok("3.1".to_string()));
    let swapped = br#"{"status":"3.1","version":"completed"}"#;
    assert_eq!(read_status(swapped), Ok(false));
    assert_eq!(read_version(swapped), Ok("completed".to_string()));
}

#[test]
fn get_current_version_reads_the_body_whatever_the_status() {
    assert_eq!(get_current_version(reply(200, r#"{"version":"1.0"}"#)), Ok("1.0".to_string()));
    assert_eq!(get_current_version(reply(500, r#"{"version":"1.0"}"#)), Ok("1.0".to_string()));
    assert_eq!(get_current_version(reply(200, "{}")), Ok("unknown".to_string()));
    assert_eq!(get_current_version(reply(404, r#"{"error":"no"}"#)), Ok("unknown".to_string()));
}

#[test]
fn get_current_version_passes_errors_on() {
    assert_eq!(get_current_version(Err(DeviceError::Transport)), Err(DeviceError::Transport));
    assert_eq!(get_current_version(reply(200, "oops")), Err(DeviceError::Decode));
}

#[test]
fn repeated_version_queries_of_one_device_state_agree() {
    let body = r#"{"version":"7.2","uptime":12}"#;
    let first = get_current_version(reply(200, body));
    let second = get_current_version(reply(200, body));
    let third = get_current_version(reply(200, body));
    assert_eq!(first, Ok("7.2".to_string()));
    assert_eq!(first, second);
    assert_eq!(second, third);
}

#[test]
fn upload_counts_any_response_as_success() {
    assert_eq!(upload_os_file(reply(200, "")), Ok(()));
    assert_eq!(upload_os_file(reply(201, "stored")), Ok(()));
    assert_eq!(upload_os_file(reply(404, "not found")), Ok(()));
    assert_eq!(upload_os_file(reply(500, "boom")), Ok(()));
}

#[test]
fn upload_passes_errors_on() {
    assert_eq!(upload_os_file(Err(DeviceError::Io)), Err(DeviceError::Io));
    assert_eq!(upload_os_file(Err(DeviceError::Transport)), Err(DeviceError::Transport));
}

#[test]
fn trigger_counts_any_response_as_success() {
    assert_eq!(trigger_upgrade(reply(200, "")), Ok(()));
    assert_eq!(trigger_upgrade(reply(403, "forbidden")), Ok(()));
    assert_eq!(trigger_upgrade(reply(503, "busy")), Ok(()));
}

#[test]
fn trigger_passes_errors_on() {
    assert_eq!(trigger_upgrade(Err(DeviceError::Transport)), Err(DeviceError::Transport));
}

#[test]
fn check_upgrade_status_reads_the_body_whatever_the_status() {
    assert_eq!(check_upgrade_status(reply(200, r#"{"status":"completed"}"#)), Ok(true));
    assert_eq!(check_upgrade_status(reply(500, r#"{"status":"completed"}"#)), Ok(true));
    assert_eq!(check_upgrade_status(reply(200, r#"{"status":"in_progress"}"#)), Ok(false));
    assert_eq!(check_upgrade_status(reply(200, "{}")), Ok(false));
}

#[test]
fn check_upgrade_status_passes_errors_on() {
    assert_eq!(check_upgrade_status(Err(DeviceError::Transport)), Err(DeviceError::Transport));
    assert_eq!(check_upgrade_status(reply(200, "<busy>")), Err(DeviceError::Decode));
}

#[test]
fn device_errors_describe_themselves() {
    assert_eq!(DeviceError::Io.describe(), "I/O error: the firmware image could not be read");
    assert_eq!(
        DeviceError::Transport.describe(),
        "transport error: the device could not be reached"
    );
    assert_eq!(
        DeviceError::Decode.describe(),
        "decode error: the device's reply was not valid JSON"
    );
}
