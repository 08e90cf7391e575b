//! Authentication state reconciliation for a gateway that delegates login to
//! a remote authentication service and keeps a signed session cookie.

pub mod model;
pub mod payload;
pub mod codec;
pub mod gateway;
