//! Decision logic of a script preview workflow: building the preview request,
//! choosing and sequencing the upload, and driving a live debug session.

pub mod cf;
pub mod http_method;
pub mod interactive;
pub mod request_payload;
pub mod socket;
pub mod target;
pub mod text;
pub mod upload;
