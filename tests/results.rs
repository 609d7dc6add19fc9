use d3d12_practice::{
    classify_compile, hresult_to_result, succeeded, CompileStatus, ERROR_FILE_NOT_FOUND,
    ERROR_PATH_NOT_FOUND, S_FALSE, S_OK,
};

#[test]
fn succeeded_is_non_negative() {
    assert!(succeeded(S_OK));
    assert!(succeeded(S_FALSE));
    assert!(!succeeded(-1));
    assert!(!succeeded(0x8007_000Eu32 as i32));
}

#[test]
fn hresult_to_result_keeps_object_on_s_ok() {
    assert_eq!(hresult_to_result(S_OK, 42u32), Ok(42));
    assert_eq!(hresult_to_result(S_FALSE, 42u32), Err(S_FALSE));
    assert_eq!(hresult_to_result(-5, "obj"), Err(-5));
}

#[test]
fn classify_compile_codes() {
    assert_eq!(classify_compile(S_OK), CompileStatus::Compiled);
    assert_eq!(classify_compile(ERROR_FILE_NOT_FOUND), CompileStatus::Missing(2));
    assert_eq!(classify_compile(ERROR_PATH_NOT_FOUND), CompileStatus::Missing(3));
    assert_eq!(classify_compile(-2147467259), CompileStatus::Failed);
    assert_eq!(classify_compile(1), CompileStatus::Failed);
}
