use bass_rs::result::{check, check_dword, check_handle, check_qword, result};

#[test]
fn success_values_pass_through() {
    assert_eq!(result(true), Ok(()));
    assert_eq!(check(true), Ok(()));
    assert_eq!(check_handle(7), Ok(7));
    assert_eq!(check_handle(u32::MAX), Ok(u32::MAX));
    assert_eq!(check_dword(0), Ok(0));
    assert_eq!(check_dword(u32::MAX - 1), Ok(u32::MAX - 1));
    assert_eq!(check_qword(0), Ok(0));
    assert_eq!(check_qword(u64::MAX - 1), Ok(u64::MAX - 1));
}
