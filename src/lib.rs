// Core of a command-line client for a managed Kubernetes service: it turns a
// parsed command into the one request to send, and renders the records that
// come back either as a table or as a structured document.
pub mod command;
pub mod driver;
pub mod options;
pub mod records;
pub mod render;
pub mod value;
