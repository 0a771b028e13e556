use huginn::security::{check_file_permissions, mask_sensitive, validate_config_file_security};

#[test]
fn test_mask_sensitive_api_key() {
    let input = "api_key=sk_test_abcdef1234567890";
    let masked = mask_sensitive(input);
    assert!(!masked.contains("sk_test_abcdef1234567890"));
    assert!(masked.contains("***REDACTED***"));
}

#[test]
fn test_mask_sensitive_token() {
    let input = "token: ghp_1234567890abcdefghij";
    let masked = mask_sensitive(input);
    assert!(!masked.contains("ghp_1234567890abcdefghij"));
    assert!(masked.contains("***REDACTED***"));
}

#[test]
fn test_mask_sensitive_password() {
    let input = "password=mySecretPass123";
    let masked = mask_sensitive(input);
    assert!(!masked.contains("mySecretPass123"));
    assert!(masked.contains("***REDACTED***"));
}

#[test]
fn test_mask_sensitive_no_secrets() {
    let input = "This is just normal text";
    let masked = mask_sensitive(input);
    assert_eq!(input, masked);
}

#[test]
fn test_mask_sensitive_multiple_secrets() {
    let input = "api_key=secret123 token=token456";
    let masked = mask_sensitive(input);
    assert!(!masked.contains("secret123"));
    assert!(!masked.contains("token456"));
    assert!(masked.contains("***REDACTED***"));
}

#[test]
fn test_check_file_permissions_nonexistent() {
    // permission bits that could not be read: never secure
    let result = check_file_permissions(None);
    assert!(!result);
}

#[test]
fn test_check_file_permissions_modes() {
    assert!(check_file_permissions(Some(0o600)));
    assert!(check_file_permissions(Some(0o100600)));
    assert!(!check_file_permissions(Some(0o644)));
    assert!(!check_file_permissions(Some(0o700)));
}

#[test]
fn test_validate_config_file_security_decision() {
    assert!(validate_config_file_security(Some(0o600)));
    assert!(!validate_config_file_security(Some(0o666)));
    assert!(!validate_config_file_security(None));
}
