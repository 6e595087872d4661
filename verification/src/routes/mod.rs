//! What is answered to a request, and what is published for it.

pub mod games;
pub mod ws;
