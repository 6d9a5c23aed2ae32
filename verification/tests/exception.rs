use coconut::cresult::CError;

#[test]
fn test_exception() {
    let exception_test = CError::new(0xffffffff, "测试：异常测试");
    // Ok path
    let e_a = exception_test.to_owned();
    let r_a: Result<i32, i16> = Ok(2);
    r_a.or(e_a.to_cresult()).unwrap();
    // Err path, with other_info attached
    let r_b: Result<i32, i16> = Err(3);
    let r_b = r_b.or(exception_test.to_cresult_with_other_info("补充".into()));
    let e = r_b.unwrap_err();
    assert_eq!(e.code, 0xffffffff);
    assert_eq!(e.message, "测试：异常测试");
    assert_eq!(e.other_info, Some("补充".to_string()));
}

#[test]
fn test_new_has_no_other_info() {
    let e = CError::new(7, "some message");
    assert_eq!(e.code, 7);
    assert_eq!(e.message, "some message");
    assert!(e.other_info.is_none());
}

#[test]
fn test_add_other_info_keeps_code_and_message() {
    let e = CError::new(5, "m");
    let d = e.add_other_info("x".to_string());
    assert_eq!(d.code, 5);
    assert_eq!(d.message, "m");
    assert_eq!(d.other_info, Some("x".to_string()));
    // the shared constant itself is untouched
    assert_eq!(e.code, 5);
    assert_eq!(e.message, "m");
    assert!(e.other_info.is_none());
}

#[test]
fn test_to_cresult_copies_the_error() {
    let e = CError::new(9, "nine").add_other_info("ctx".to_string());
    let r: Result<u8, CError> = e.to_cresult();
    let err = r.unwrap_err();
    assert_eq!(err.code, 9);
    assert_eq!(err.message, "nine");
    assert_eq!(err.other_info, Some("ctx".to_string()));
}

#[test]
fn test_to_cresult_with_other_info_attaches_context() {
    let e = CError::new(11, "eleven");
    let r: Result<u8, CError> = e.to_cresult_with_other_info("later".to_string());
    let err = r.unwrap_err();
    assert_eq!(err.code, 11);
    assert_eq!(err.message, "eleven");
    assert_eq!(err.other_info, Some("later".to_string()));
    assert!(e.other_info.is_none());
}
