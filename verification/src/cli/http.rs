//! Options for the static-file HTTP subcommand.

use vstd::prelude::*;

verus! {

/// The HTTP subcommand: serve a directory.
#[derive(Debug, Clone)]
pub enum HttpSubCommand {
    Serve(HttpServeOpts),
}

/// Options for serving: the directory and the port.
#[derive(Debug, Clone)]
pub struct HttpServeOpts {
    pub dir: String,
    pub port: u16,
}

} // verus!
