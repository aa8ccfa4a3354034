//! A reusable error-representation library: a structured numeric
//! error-code space plus a two-tier error taxonomy (logic errors for
//! contract violations, runtime errors for operational failures), each
//! optionally carrying a typed context value describing the offending
//! input.

pub mod error;
pub mod generator_iterator;

pub use error::ErrorCode;
pub use error::Error;
pub use error::LogicError;
pub use error::RuntimeError;
pub use error::ExError;
pub use error::ExLogicError;
pub use error::ExRuntimeError;
pub use error::LogicKind;
pub use error::RuntimeKind;
pub use error::LogicFailure;
pub use error::ExLogicFailure;
pub use error::RuntimeFailure;
pub use error::ExRuntimeFailure;
pub use generator_iterator::Generator;
pub use generator_iterator::GeneratorState;
pub use generator_iterator::GeneratorIterator;
