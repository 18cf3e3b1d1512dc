//! The records of the API and the parameters that page through them.

pub mod answer;
pub mod pagination;
pub mod question;
