//! Client-side logic of the Pinepods web settings pages: the endpoints of the
//! backend API, the messages exchanged with it, the Nextcloud linking flow as a
//! state machine with the laws that its runs obey, and the small utilities of
//! the settings forms (dates, descriptions, user fields, one-time codes,
//! password hashing and HTML cleaning).

pub mod dates;
pub mod endpoint;
pub mod flow_laws;
pub mod nextcloud;
pub mod password;
pub mod settings;
pub mod text;
