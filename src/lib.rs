//! A relay for privileged operations: a backend asks a front end for a
//! superuser password over an event bus, correlates the single answer with
//! its request, and then supervises a privileged command while relaying its
//! output lines.
pub mod correlation;
pub mod greeting;
pub mod installer;
pub mod prompt;
pub mod supervisor;
