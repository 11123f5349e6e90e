use pumpfun::utils::metadata::{
    append_optional_text_field, append_text_field, form_body, form_content_type, BOUNDARY,
};
use pumpfun::utils::CreateTokenMetadata;

fn metadata() -> CreateTokenMetadata {
    CreateTokenMetadata {
        name: "Cat On Horse".to_string(),
        symbol: "COH".to_string(),
        description: "Lorem ipsum dolor, sit amet consectetur adipisicing elit.".to_string(),
        file: "path/to/image.png".to_string(),
        twitter: None,
        telegram: Some("t\u{e9}l\u{e9}".to_string()),
        website: Some("https://example.com".to_string()),
    }
}

#[test]
fn one_text_field() {
    let mut body = b"x".to_vec();
    append_text_field(&mut body, "name", "My Token");
    let expected = format!(
        "x--{}\r\nContent-Disposition: form-data; name=\"name\"\r\n\r\nMy Token\r\n",
        BOUNDARY
    );
    assert_eq!(body, expected.as_bytes());
    let before = body.clone();
    append_optional_text_field(&mut body, "twitter", &None);
    assert_eq!(body, before);
    append_optional_text_field(&mut body, "twitter", &Some("@cat".to_string()));
    let more = format!(
        "--{}\r\nContent-Disposition: form-data; name=\"twitter\"\r\n\r\n@cat\r\n",
        BOUNDARY
    );
    assert_eq!(&body[before.len()..], more.as_bytes());
}

#[test]
fn whole_form() {
    let b = "------------------------f4d9c2e8b7a5310f";
    assert_eq!(BOUNDARY, b);
    let body = form_body(&metadata(), b"fake image data");
    let mut expected = String::new();
    for (name, value) in [
        ("name", "Cat On Horse"),
        ("symbol", "COH"),
        ("description", "Lorem ipsum dolor, sit amet consectetur adipisicing elit."),
        ("telegram", "t\u{e9}l\u{e9}"),
        ("website", "https://example.com"),
        ("showName", "true"),
    ] {
        expected.push_str(&format!(
            "--{}\r\nContent-Disposition: form-data; name=\"{}\"\r\n\r\n{}\r\n",
            b, name, value
        ));
    }
    expected.push_str(&format!(
        "--{}\r\nContent-Disposition: form-data; name=\"file\"; filename=\"file\"\r\n", b
    ));
    expected.push_str("Content-Type: application/octet-stream\r\n\r\n");
    expected.push_str("fake image data");
    expected.push_str(&format!("\r\n--{}--\r\n", b));
    assert_eq!(body, expected.as_bytes());
    assert_eq!(
        form_content_type(),
        "multipart/form-data; boundary=------------------------f4d9c2e8b7a5310f"
    );
}

#[test]
fn form_carries_any_file_bytes() {
    let file = [0u8, 255, 13, 10, 45, 45];
    let body = form_body(&metadata(), &file);
    let tail = format!("\r\n--{}--\r\n", BOUNDARY);
    let end = body.len() - tail.len();
    assert_eq!(&body[end..], tail.as_bytes());
    assert_eq!(&body[end - file.len()..end], &file);
}
