//! A small library for composing a "rich presence" status: a form the user
//! edits (title, details, imagery references, action buttons, activity
//! category) and a pure translation of a form snapshot into the activity
//! payload that an IPC transport delivers to a locally running chat client.
//!
//! The form is a single aggregate updated by a closed set of edit events;
//! the translator filters out incomplete action buttons and maps the chosen
//! category onto the transport's category enumeration. Delivery itself
//! (socket handshake, framing, send) is left to the hosting application.

pub mod form;
pub mod payload;
