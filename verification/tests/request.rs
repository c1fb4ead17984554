use redfish_monitor::request::{endpoint_url, Method, Request};

#[test]
fn endpoint_url_joins_scheme_address_and_path() {
    assert_eq!(endpoint_url("10.0.0.7", "/redfish/v1"), "https://10.0.0.7/redfish/v1");
    assert_eq!(endpoint_url("bmc.lab:8443", "/x"), "https://bmc.lab:8443/x");
}

#[test]
fn endpoint_url_adds_nothing_of_its_own() {
    assert_eq!(endpoint_url("", ""), "https://");
    assert_eq!(endpoint_url("host", ""), "https://host");
    assert_eq!(endpoint_url("", "/path"), "https:///path");
    assert_eq!(endpoint_url("hôte", "/é"), "https://hôte/é");
}

#[test]
fn request_holds_plain_values() {
    let request = Request {
        method: Method::Get,
        url: "https://a/b".to_string(),
        headers: vec![("k".to_string(), "v".to_string())],
        body: None,
    };
    assert_eq!(request.method, Method::Get);
    assert_ne!(request.method, Method::Post);
    assert_eq!(request.headers.len(), 1);
}
