//! The validated values of a subscription and the reasons to refuse one.

pub mod dto;
pub mod error;
pub mod user_email;
pub mod user_name;

pub use dto::{UserRequest, UserResponse};
pub use error::UserError;
pub use user_email::UserEmail;
pub use user_name::UserName;
