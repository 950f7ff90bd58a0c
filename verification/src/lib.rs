//! Request inspection and page rendering for a page that shows a caller what
//! the server sees of them: peer address, user agent, forwarded address and
//! cookies.
//!
//! [`ClientInfo::from_request`] reads the snapshot of a request, [`index`]
//! renders the page for a snapshot, and [`Site::rocket`] says where the server puts
//! the page and its style sheets.

pub mod escape;
pub mod page;
pub mod request;
pub mod shown;
pub mod site;
pub mod snapshot;
pub mod text;

pub use page::{index, Page};
pub use site::Site;
pub use snapshot::ClientInfo;
