use vstd::prelude::*;

verus! {

/// Where the client connects, and the reservation code of a prepared game.
#[derive(Debug, Clone)]
pub struct ClientArgs {
    pub host: String,
    pub port: i32,
    pub reservation: Option<String>,
}

} // verus!
