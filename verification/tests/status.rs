use backend::msg::HttpCode;
use backend::status::HTTP_CODE_COUNT;

#[test]
fn status_lookup_round_trip_for_every_code() {
    let mut seen = 0;
    for index in 0..HTTP_CODE_COUNT {
        let code = HttpCode::at(index).unwrap();
        assert_eq!(HttpCode::from_name(code.name()), Some(code));
        assert_eq!(HttpCode::from_name(&code.to_string()), Some(code));
        assert_eq!(HttpCode::from_code(code.code()), Some(code));
        seen += 1;
    }
    assert_eq!(seen, 62);
    assert_eq!(HttpCode::at(HTTP_CODE_COUNT), None);
}

#[test]
fn status_numbers_and_names() {
    assert_eq!(HttpCode::OK.code(), 200);
    assert_eq!(HttpCode::OK.name(), "OK");
    assert_eq!(HttpCode::Continue.code(), 100);
    assert_eq!(HttpCode::BadRequest.code(), 400);
    assert_eq!(HttpCode::BadRequest.to_string(), "Bad Request");
    assert_eq!(HttpCode::ImATeapot.to_string(), "I'm a teapot");
    assert_eq!(HttpCode::NonAuthoritativeInformation.name(), "Non-Authoritative Information");
    assert_eq!(HttpCode::NetworkAuthenticationRequired.code(), 511);
    assert_eq!(HttpCode::from_code(404), Some(HttpCode::NotFound));
    assert_eq!(HttpCode::from_name("Not Found"), Some(HttpCode::NotFound));
}

#[test]
fn status_outside_the_vocabulary() {
    assert_eq!(HttpCode::from_code(0), None);
    assert_eq!(HttpCode::from_code(199), None);
    assert_eq!(HttpCode::from_code(209), None);
    assert_eq!(HttpCode::from_code(512), None);
    assert_eq!(HttpCode::from_code(u16::MAX), None);
    assert_eq!(HttpCode::from_name(""), None);
    assert_eq!(HttpCode::from_name("ok"), None);
    assert_eq!(HttpCode::from_name("Ok"), None);
    assert_eq!(HttpCode::from_name("Not  Found"), None);
}
