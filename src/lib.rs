// Serving the users table over HTTP: the rows of the query become records,
// the records a JSON array, and every request passes through a middleware
// that times and logs it.
pub mod endpoint;
pub mod error;
pub mod json;
pub mod middleware;
pub mod record;

pub use middleware::Log;
