//! Query parameters of the account routes.
use vstd::prelude::*;

verus! {

/// Query of the sign-in callback.
#[derive(Debug)]
pub struct CallbackQueryProps {
    /// This token will need to be sent to the client
    pub token: String,
}

/// Query of the route that sets the session token.
#[derive(Debug)]
pub struct SetTokenQuery {
    pub token: String,
}

} // verus!
