//! A key/value settings store kept as one JSON object.
//!
//! `json` holds the calls into serde_json and what they are relied on for;
//! `document` holds one transaction on the document's content: parse it,
//! apply an operation to its entries, and give back the reply and the
//! content to persist; `laws` states what holds of the operations together.
pub mod document;
pub mod json;
pub mod laws;
