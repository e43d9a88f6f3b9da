use marketplace_core::access::{delivery_staff_access, DeliveryStaffOperation};
use marketplace_core::codes::{generate_code, CodeType};
use marketplace_core::error::AppError;

#[test]
fn test_generate_order_code() {
    let code = generate_code(CodeType::Order);
    assert!(code.starts_with("ODR-"));
    assert!(code.len() > 20);
    assert!(code.len() < 30);
}

#[test]
fn test_generate_reconciliation_statement_code() {
    let code = generate_code(CodeType::ReconciliationStatement);
    assert!(code.starts_with("RS-"));
    assert!(code.len() > 20);
    assert!(code.len() < 30);
}

#[test]
fn test_error_response_structure() {
    let internal_error = AppError::internal("Internal server error");
    let validation_error = AppError::validation("Validation failed");
    let auth_error = AppError::auth("Authentication failed");

    assert_eq!(internal_error.error_code(), 500);
    assert_eq!(validation_error.error_code(), 400);
    assert_eq!(auth_error.error_code(), 401);

    assert_eq!(internal_error.to_text(), "Internal server error: Internal server error");
    assert_eq!(validation_error.to_text(), "Validation error: Validation failed");
    assert_eq!(auth_error.to_text(), "Authentication failed: Authentication failed");
}

#[test]
fn test_error_classification() {
    let validation_error = AppError::validation("Bad input");
    let auth_error = AppError::auth("No token");
    let not_found_error = AppError::not_found("Resource not found");
    let conflict_error = AppError::conflict("Resource exists");

    assert!(validation_error.is_client_error());
    assert!(auth_error.is_client_error());
    assert!(not_found_error.is_client_error());
    assert!(conflict_error.is_client_error());
    assert!(!validation_error.is_server_error());

    let db_error = AppError::Database("no rows returned by a query that expected to return at least one row".to_string());
    let internal_error = AppError::internal("Server crash");

    assert!(db_error.is_server_error());
    assert!(internal_error.is_server_error());
    assert!(!db_error.is_client_error());
}

#[test]
fn test_get_delivery_staff_forbidden() {
    let result = delivery_staff_access("CUSTOMER", DeliveryStaffOperation::List);
    assert!(result.is_err());
    match result.unwrap_err() {
        AppError::Forbidden(msg) => {
            assert_eq!(msg, "Only provider can get delivery staff");
        }
        err => panic!("预期是Forbidden错误，但得到了: {:?}", err),
    }
}

#[test]
fn test_disable_or_enable_delivery_staff_forbidden() {
    let result = delivery_staff_access("CUSTOMER", DeliveryStaffOperation::Toggle);
    assert!(result.is_err());
    match result.unwrap_err() {
        AppError::Forbidden(msg) => {
            assert_eq!(msg, "Only provider can disable or enable delivery staff");
        }
        err => panic!("预期是Forbidden错误，但得到了: {:?}", err),
    }
}
