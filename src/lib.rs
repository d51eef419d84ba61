//! Serves one stored object, named by namespace, database, bucket and path,
//! as a byte stream: the locator grammar, the response decision, and the
//! one-message hand-off between the producer task and the response body.

pub mod reference;
pub mod response;
pub mod bridge;
pub mod laws;
