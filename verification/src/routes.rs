//! What each route of the API does with a request, once the request has been
//! taken apart and before the reply is put together.

pub mod answer;
pub mod question;
