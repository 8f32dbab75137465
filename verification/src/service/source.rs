//! The source driver: clone, write, read, hash and commit-and-push a
//! local working copy.

use vstd::prelude::*;

use crate::model::{
    spec_repo_full_url, spec_repo_name, spec_source_path, InitializedRepo, InitializedSource,
    SkootError, SourceInitializeParams,
};
use crate::hash::sha256_hex;
use crate::ports::LocalClient;

verus! {

/// The contract every source driver honors: managing a project's local
/// working copy, file by file.
pub trait SourceService {
    /// Clones the repo into `parentPath/<repoName>` and returns the
    /// resulting working copy.
    fn initialize(&self, params: SourceInitializeParams, initialized_repo: InitializedRepo) -> (r:
        Result<InitializedSource, SkootError>)
        ensures
            r matches Ok(s) ==> s.path@ == spec_source_path(
                params.parent_path@,
                spec_repo_name(initialized_repo@),
            ),
    ;

    /// Stages all changes, commits them with the message, and pushes to
    /// the remote's default branch; each sub-operation must succeed.
    fn commit_and_push_changes(&self, source: InitializedSource, message: String) -> Result<
        (),
        SkootError,
    >;

    /// Writes the full contents of a file under the working copy,
    /// creating the path first.
    fn write_file(&self, source: InitializedSource, path: String, name: String, contents: String)
        -> Result<(), SkootError>;

    /// Reads a file under the working copy.
    fn read_file(&self, source: &InitializedSource, path: String, name: String) -> Result<
        String,
        SkootError,
    >;

    /// The streaming SHA-256 of a file, in lowercase hex.
    fn hash_file(&self, source: &InitializedSource, path: String, name: String) -> (r: Result<
        String,
        SkootError,
    >)
        ensures
            r matches Ok(h) ==> h@.len() == 64,
    ;

    /// Fast-forward pulls updates from the remote.
    fn pull_updates(&self, source: InitializedSource) -> Result<(), SkootError>;
}

/// The source driver run on the local machine, over the local client
/// port.
#[derive(Debug)]
pub struct LocalSourceService<L: LocalClient> {
    pub local: L,
}

/// Runs one git subcommand and turns a failed exit status into a
/// subprocess error carrying the stderr text.
fn run_git_checked<L: LocalClient>(local: &L, args: Vec<String>, dir: &String) -> Result<
    (),
    SkootError,
> {
    let out = local.run_git(&args, dir)?;
    if out.success {
        Ok(())
    } else {
        Err(SkootError::Subprocess(out.stderr))
    }
}

impl<L: LocalClient> SourceService for LocalSourceService<L> {
    fn initialize(&self, params: SourceInitializeParams, initialized_repo: InitializedRepo) -> (r:
        Result<InitializedSource, SkootError>) {
        let url = initialized_repo.full_url();
        let name = match &initialized_repo {
            InitializedRepo::Github(g) => g.name.clone(),
        };
        let mut args: Vec<String> = Vec::new();
        args.push("clone".to_owned());
        args.push(url);
        run_git_checked(&self.local, args, &params.parent_path)?;
        Ok(InitializedSource { path: params.path(name.as_str()) })
    }

    fn commit_and_push_changes(&self, source: InitializedSource, message: String) -> Result<
        (),
        SkootError,
    > {
        let mut add_args: Vec<String> = Vec::new();
        add_args.push("add".to_owned());
        add_args.push(".".to_owned());
        run_git_checked(&self.local, add_args, &source.path)?;
        let mut commit_args: Vec<String> = Vec::new();
        commit_args.push("commit".to_owned());
        commit_args.push("-m".to_owned());
        commit_args.push(message);
        run_git_checked(&self.local, commit_args, &source.path)?;
        let mut push_args: Vec<String> = Vec::new();
        push_args.push("push".to_owned());
        run_git_checked(&self.local, push_args, &source.path)?;
        Ok(())
    }

    fn write_file(&self, source: InitializedSource, path: String, name: String, contents: String)
        -> Result<(), SkootError> {
        self.local.write_file(&source.path, &path, &name, &contents)
    }

    fn read_file(&self, source: &InitializedSource, path: String, name: String) -> Result<
        String,
        SkootError,
    > {
        self.local.read_file(&source.path, &path, &name)
    }

    fn hash_file(&self, source: &InitializedSource, path: String, name: String) -> (r: Result<
        String,
        SkootError,
    >) {
        let contents = self.local.read_file(&source.path, &path, &name)?;
        Ok(sha256_hex(contents.as_str()))
    }

    fn pull_updates(&self, source: InitializedSource) -> Result<(), SkootError> {
        let mut args: Vec<String> = Vec::new();
        args.push("pull".to_owned());
        run_git_checked(&self.local, args, &source.path)
    }
}

} // verus!
