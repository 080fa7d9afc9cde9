use vfio_motion::http::{
    attached_of_status, bad_request_reply, device_body, device_url, domains_body, domains_url,
    http_op_result, op_reply, parse_device_body, parse_status_body, status_body, status_reply,
    status_url,
};
use vfio_motion::outcome::{OpError, OpOutcome};

#[test]
fn urls_are_derived_from_the_host() {
    assert_eq!(device_url("http://10.0.122.1:3020"), "http://10.0.122.1:3020/device");
    assert_eq!(
        status_url("http://10.0.122.1:3020"),
        "http://10.0.122.1:3020/device/status"
    );
    assert_eq!(domains_url("http://10.0.122.1:3020"), "http://10.0.122.1:3020/domains");
}

#[test]
fn device_body_is_canonical() {
    assert_eq!(
        device_body("gpu", "kbd0"),
        "{\"domain\":\"gpu\",\"evdev\":\"kbd0\"}"
    );
}

#[test]
fn status_body_renders_both_states() {
    assert_eq!(status_body(true), "{\"attached\":true}");
    assert_eq!(status_body(false), "{\"attached\":false}");
}

#[test]
fn status_body_parses_canonical_forms() {
    assert_eq!(parse_status_body("{\"attached\":true}"), Some(true));
    assert_eq!(parse_status_body("{\"attached\":false}"), Some(false));
    assert_eq!(parse_status_body("{\"attached\": true}"), None);
    assert_eq!(parse_status_body("yes"), None);
}

#[test]
fn attached_query_fails_closed_on_http() {
    assert!(attached_of_status(&Some(String::from("{\"attached\":true}"))));
    assert!(!attached_of_status(&Some(String::from("{\"attached\":false}"))));
    assert!(!attached_of_status(&Some(String::from("<html>bad gateway</html>"))));
    assert!(!attached_of_status(&None));
}

#[test]
fn http_op_result_by_status() {
    assert_eq!(http_op_result(204, &None), Ok(()));
    assert_eq!(http_op_result(200, &Some(String::from("ok"))), Ok(()));
    match http_op_result(500, &Some(String::from("{\"message\":\"boom\"}"))) {
        Err(OpError::Transport { message }) => assert_eq!(message, "{\"message\":\"boom\"}"),
        other => panic!("expected Transport, got {:?}", other),
    }
    match http_op_result(502, &None) {
        Err(OpError::Transport { message }) => assert_eq!(message, "failed to decode response"),
        other => panic!("expected Transport, got {:?}", other),
    }
}

#[test]
fn http_success_boundaries() {
    assert!(http_op_result(200, &None).is_ok());
    assert!(http_op_result(299, &None).is_ok());
    assert!(http_op_result(199, &None).is_err());
    assert!(http_op_result(300, &None).is_err());
    assert!(http_op_result(404, &None).is_err());
}

// Attaching an already-attached device over HTTP: the benign duplicate
// outcome still answers 204, not 500.
#[test]
fn already_attached_answers_no_content() {
    let reply = op_reply(&Ok(OpOutcome::AlreadyAttached));
    assert_eq!(reply.status, 204);
    assert_eq!(reply.body, "");
}

#[test]
fn op_reply_by_outcome() {
    assert_eq!(op_reply(&Ok(OpOutcome::Attached)).status, 204);
    assert_eq!(op_reply(&Ok(OpOutcome::AlreadyDetached)).status, 204);
    let failure = op_reply(&Err(OpError::HardFailure {
        code: 1,
        message: String::from("internal error"),
    }));
    assert_eq!(failure.status, 500);
    assert_eq!(failure.body, "{\"message\":\"hypervisor error: internal error\"}");
}

#[test]
fn bad_request_reply_is_400() {
    let reply = bad_request_reply();
    assert_eq!(reply.status, 400);
    assert_eq!(reply.body, "{\"message\":\"invalid device request\"}");
}

#[test]
fn status_reply_carries_the_state() {
    let reply = status_reply(true);
    assert_eq!(reply.status, 200);
    assert_eq!(reply.body, "{\"attached\":true}");
}

#[test]
fn device_body_parses_back() {
    let (domain, evdev) = parse_device_body("{\"domain\":\"gpu\",\"evdev\":\"kbd0\"}").unwrap();
    assert_eq!(domain, "gpu");
    assert_eq!(evdev, "kbd0");
}

#[test]
fn device_body_round_trips_through_parse() {
    let body = device_body("win10-games", "/dev/input/by-id/usb-kbd-event");
    let (domain, evdev) = parse_device_body(body.as_str()).unwrap();
    assert_eq!(domain, "win10-games");
    assert_eq!(evdev, "/dev/input/by-id/usb-kbd-event");
}

#[test]
fn malformed_device_bodies_are_rejected() {
    assert!(parse_device_body("").is_none());
    assert!(parse_device_body("{}").is_none());
    assert!(parse_device_body("{\"domain\":\"gpu\"}").is_none());
    assert!(parse_device_body("{\"evdev\":\"kbd0\",\"domain\":\"gpu\"}").is_none());
    assert!(parse_device_body("{\"domain\":\"gpu\",\"evdev\":\"kbd0\"} ").is_none());
    assert!(parse_device_body("{\"domain\": \"gpu\",\"evdev\":\"kbd0\"}").is_none());
}

#[test]
fn domains_body_renders_arrays() {
    assert_eq!(domains_body(&Vec::new()), "[]");
    assert_eq!(domains_body(&vec![String::from("gpu")]), "[\"gpu\"]");
    assert_eq!(
        domains_body(&vec![String::from("gpu"), String::from("work")]),
        "[\"gpu\",\"work\"]"
    );
}
