//! What the library promises, stated apart from the functions that keep the promises: laws
//! over all messages, states and values, each proved from the contracts' own terms.
pub mod access;
pub mod answers;
pub mod beginnings;
pub mod client;
pub mod client_use;
pub mod copies;
pub mod faults;
pub mod forms;
pub mod http_client;
pub mod http_server;
pub mod makers;
pub mod messages;
pub mod names;
pub mod offers;
pub mod posting;
pub mod readings;
pub mod requests;
pub mod running;
pub mod schemas;
pub mod server;
pub mod shapes;
pub mod streams;
pub mod texts;
pub mod waiting;
