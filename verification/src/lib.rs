//! Serial-number validation: a string is accepted when it is at least six
//! characters long, consists entirely of Unicode letters and digits, and is
//! not already present in the record store.

pub mod errors;
pub mod store;
pub mod validator;

pub use errors::ValidationError;
pub use store::SerialStore;
pub use validator::{
    StoreFault, ValidationResult, validate_serial, validate_serial_alphanumeric,
    validate_serial_length, validate_serial_unique, validate_serial_with_lookup,
};
