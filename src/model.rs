pub mod body;
pub mod headers;
pub mod method;
pub mod request;
pub mod url;

pub use body::Body;
pub use headers::{HeaderName, HeaderValue, Headers};
pub use method::Method;
pub use request::Request;
pub use url::Url;
