use vstd::prelude::*;

verus! {

/// The parsed command line: a shell to generate completions for, or a
/// command to run.
pub struct Cli {
    pub shell: Option<Shell>,
    pub command: Option<Commands>,
}

/// The commands of the client.
pub enum Commands {
    /// Authenticate against a server and store the resulting credential.
    Login { api_url: String, api_key: Option<String> },
    /// Create a snippet from files.
    Create { files: Vec<String> },
    /// Retrieve a snippet and write its files.
    Get { id: u64 },
    /// Replace a snippet's metadata and files.
    Update { id: u64, files: Vec<String> },
    /// Delete a snippet, after confirmation unless forced.
    Delete { id: u64, force: bool },
    /// Show a page of snippets, or all of them.
    List { all: bool, number: Option<usize>, page: Option<usize> },
    /// Search snippets.
    Search { query: String, sort: Option<String>, search_code: bool },
}

/// The shells completions can be generated for.
#[derive(PartialEq, Eq, Structural, Clone, Copy, Debug)]
pub enum Shell {
    Bash,
    Zsh,
    Fish,
    Powershell,
}

} // verus!
