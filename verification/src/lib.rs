//! A model of HTTP/1.1 messages: reading requests and responses from their
//! wire text, and rendering them back, with every rule of the grammar stated
//! as a specification and every function proved against it.

pub mod body;
pub mod builder;
pub mod error;
pub mod field;
pub mod head;
pub mod method;
pub mod request;
pub mod request_status;
pub mod response;
pub mod response_status;
pub mod status_code;
pub mod text;
pub mod version;

pub use crate::body::Body;
pub use crate::builder::MessageBuilder;
pub use crate::error::{ErrorKind, ParseError};
pub use crate::field::Field;
pub use crate::method::Method;
pub use crate::request::Request;
pub use crate::request_status::RequestStatus;
pub use crate::response::Response;
pub use crate::response_status::ResponseStatus;
pub use crate::status_code::StatusCode;
pub use crate::version::Version;
