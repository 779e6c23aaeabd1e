use sensing::abstractions::utility::IUtility;
use sensing::enums::error::SensingError;
use sensing::services::http_client::{HttpClientService, HttpError};

fn client() -> HttpClientService {
    HttpClientService::new(
        "urn:esp32:http:client".to_string(),
        "urn:esp32:device:001".to_string(),
        "urn:esp32:location:lab".to_string(),
        "192.168.1.100".to_string(),
    )
    .unwrap()
}

#[test]
fn client_keeps_its_names() {
    let c = client();
    assert_eq!(c.urn(), "urn:esp32:http:client");
    assert_eq!(c.device_urn(), "urn:esp32:device:001");
    assert_eq!(c.location_urn(), "urn:esp32:location:lab");
    assert_eq!(c.server_ip, "192.168.1.100");
    assert!(matches!(
        HttpClientService::new("".to_string(), "d".to_string(), "l".to_string(), "h".to_string()),
        Err(SensingError::EmptyUrn)
    ));
}

#[test]
fn get_request_text() {
    assert_eq!(
        client().create_get_request("/api/sensors"),
        "GET /api/sensors HTTP/1.1\r\nHost: 192.168.1.100\r\nConnection: close\r\n\r\n"
    );
}

#[test]
fn post_request_text() {
    let json = "{\"temperature\": 25.5, \"humidity\": 60.0}";
    assert_eq!(
        client().create_post_request("/api/data", json),
        "POST /api/data HTTP/1.1\r\nHost: 192.168.1.100\r\nContent-Type: application/json\r\n\
         Content-Length: 39\r\nConnection: close\r\n\r\n{\"temperature\": 25.5, \"humidity\": 60.0}"
    );
    assert_eq!(
        client().create_post_request("/sensors", ""),
        "POST /sensors HTTP/1.1\r\nHost: 192.168.1.100\r\nContent-Type: application/json\r\n\
         Content-Length: 0\r\nConnection: close\r\n\r\n"
    );
}

#[test]
fn post_request_counts_bytes() {
    let r = client().create_post_request("/x", "°C€");
    assert!(r.contains("Content-Length: 6\r\n"));
    assert!(r.ends_with("\r\n\r\n°C€"));
}

#[test]
fn response_body_follows_the_first_empty_line() {
    let c = client();
    assert_eq!(
        c.parse_http_response(b"HTTP/1.1 200 OK\r\nContent-Length: 2\r\n\r\nok"),
        Ok("ok".to_string())
    );
    assert_eq!(
        c.parse_http_response(b"HTTP/1.1 200 OK\r\n\r\na\r\n\r\nb"),
        Ok("a\r\n\r\nb".to_string())
    );
    assert_eq!(c.parse_http_response(b"HTTP/1.1 204 No Content\r\n\r\n"), Ok(String::new()));
    assert_eq!(c.parse_http_response(b"\r\n\r\n"), Ok(String::new()));
    assert_eq!(c.parse_http_response("h\r\n\r\n°C".as_bytes()), Ok("°C".to_string()));
}

#[test]
fn response_without_empty_line_is_all_body() {
    let c = client();
    assert_eq!(c.parse_http_response(b"no head here"), Ok("no head here".to_string()));
    assert_eq!(c.parse_http_response(b""), Ok(String::new()));
    assert_eq!(c.parse_http_response(b"\r\n\r"), Ok("\r\n\r".to_string()));
    assert_eq!(c.parse_http_response(b"a\r\nb\n\r\n"), Ok("a\r\nb\n\r\n".to_string()));
}

#[test]
fn response_that_is_not_text_is_refused() {
    let c = client();
    assert_eq!(c.parse_http_response(&[0xff, 0xfe]), Err(HttpError::InvalidUtf8));
    assert_eq!(
        c.parse_http_response(&[b'a', b'\r', b'\n', b'\r', b'\n', 0xc3]),
        Err(HttpError::InvalidUtf8)
    );
    assert_eq!(c.parse_http_response(&[0xed, 0xa0, 0x80]), Err(HttpError::InvalidUtf8));
}
