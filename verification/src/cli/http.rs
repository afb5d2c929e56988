//! Arguments of the `http` commands.

use vstd::prelude::*;

verus! {

/// The one thing to do over HTTP.
#[derive(Clone, Debug)]
pub enum HttpSubCommand {
    /// Serve a directory.
    Serve(HttpServeOpts),
}

/// Arguments of `http serve`.
#[derive(Clone, Debug)]
pub struct HttpServeOpts {
    /// The directory to serve.
    pub dir: String,
    /// The port to listen on.
    pub port: u16,
}

impl Default for HttpServeOpts {
    /// The current directory, on port 8080.
    fn default() -> (opts: Self)
        ensures
            opts.dir@ == "."@,
            opts.port == 8080,
    {
        HttpServeOpts { dir: ".".to_owned(), port: 8080 }
    }
}

} // verus!
