//! The outward-facing ports of the library: the forge HTTP client and the
//! local machine (subprocesses and the filesystem).  The library promises
//! nothing about what lies behind them; every decision taken on their
//! results is made, and verified, on this side.

use vstd::prelude::*;

use crate::model::SkootError;

verus! {

/// What a tool run reports back: whether it exited successfully, and its
/// standard error text.
#[derive(Debug, PartialEq, Eq)]
pub struct ToolOutput {
    pub success: bool,
    pub stderr: String,
}

/// One asset of a forge release.
#[derive(Debug, PartialEq, Eq)]
pub struct GithubAsset {
    /// The file name of the asset.
    pub name: String,
    /// The URL the asset can be downloaded from.
    pub browser_download_url: String,
}

impl Clone for GithubAsset {
    fn clone(&self) -> (r: Self)
        ensures
            r.name@ == self.name@,
            r.browser_download_url@ == self.browser_download_url@,
    {
        GithubAsset {
            name: self.name.clone(),
            browser_download_url: self.browser_download_url.clone(),
        }
    }
}

/// A forge release: its assets, in the order the forge returns them.
#[derive(Debug, PartialEq, Eq)]
pub struct GithubRelease {
    pub assets: Vec<GithubAsset>,
}

/// The forge HTTP edge.  Implementations authenticate and speak the wire
/// protocol; nothing is assumed about what they return.
pub trait ForgeClient {
    /// POST a JSON body; returns the response text.
    fn post(&self, endpoint: &String, body: &String) -> Result<String, SkootError>;

    /// PUT a JSON body; returns the response text.
    fn put_json(&self, endpoint: &String, body: &String) -> Result<String, SkootError>;

    /// PUT with an empty body; success carries no response body.
    fn put_empty(&self, endpoint: &String) -> Result<(), SkootError>;

    /// PATCH a JSON body; returns the response text.
    fn patch(&self, endpoint: &String, body: &String) -> Result<String, SkootError>;

    /// Whether the repo exists on the forge.
    fn repo_exists(&self, owner: &String, name: &String) -> Result<bool, SkootError>;

    /// The decoded content of a file on the default branch, or `None` when
    /// the path is absent or empty.
    fn fetch_content(&self, owner: &String, name: &String, path: &String) -> Result<
        Option<String>,
        SkootError,
    >;

    /// The release named by the tag, or the latest release when no tag is
    /// given.
    fn fetch_release(&self, owner: &String, name: &String, tag: &Option<String>) -> Result<
        GithubRelease,
        SkootError,
    >;

    /// Downloads a URL as text.
    fn download(&self, url: &String) -> Result<String, SkootError>;

    /// Emits an event record to the log stream.
    fn emit_event(&self, event: &String);
}

/// The local machine edge: version control and language tooling run as
/// subprocesses, and files written and read under a working copy.
pub trait LocalClient {
    /// Runs git with the given arguments in the given directory.
    fn run_git(&self, args: &Vec<String>, dir: &String) -> Result<ToolOutput, SkootError>;

    /// Runs a tool in the given directory.
    fn run_tool(&self, program: &String, args: &Vec<String>, dir: &String) -> Result<
        ToolOutput,
        SkootError,
    >;

    /// Creates `dir/rel` if needed and writes `dir/rel/name` whole.
    fn write_file(&self, dir: &String, rel: &String, name: &String, contents: &String) -> Result<
        (),
        SkootError,
    >;

    /// Reads `dir/rel/name` as text.
    fn read_file(&self, dir: &String, rel: &String, name: &String) -> Result<String, SkootError>;
}

} // verus!
