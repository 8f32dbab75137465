//! The ecosystem driver: initializing language tooling (a Go module, a
//! Maven archetype) inside a working copy.

use vstd::prelude::*;

use crate::model::{
    EcosystemInitializeParams, EcosystemInitializeParamsView, GoParams, InitializedEcosystem,
    InitializedEcosystemView, InitializedGoView, InitializedMavenView, InitializedSource,
    MavenParams, SkootError,
};
use crate::ports::LocalClient;

verus! {

/// The ecosystem record that initializing with the given parameters
/// produces.
pub open spec fn spec_initialized_eco(p: EcosystemInitializeParamsView) -> InitializedEcosystemView {
    match p {
        EcosystemInitializeParamsView::Go(g) => InitializedEcosystemView::Go(
            InitializedGoView { name: g.name, host: g.host },
        ),
        EcosystemInitializeParamsView::Maven(m) => InitializedEcosystemView::Maven(
            InitializedMavenView { group_id: m.group_id, artifact_id: m.artifact_id },
        ),
    }
}

/// The contract every ecosystem driver honors: on success the initialized
/// ecosystem mirrors the parameters it was initialized from.
pub trait EcosystemService {
    fn initialize(&self, params: EcosystemInitializeParams, source: InitializedSource) -> (r:
        Result<InitializedEcosystem, SkootError>)
        ensures
            r matches Ok(e) ==> e@ == spec_initialized_eco(params@),
    ;
}

/// The ecosystem driver run on the local machine, over the local client
/// port.
#[derive(Debug)]
pub struct LocalEcosystemService<L: LocalClient> {
    pub local: L,
}

/// Runs `go mod init {host}/{name}` in the working copy; a non-zero exit
/// fails with the tool's stderr included.
fn initialize_go<L: LocalClient>(local: &L, path: &String, params: &GoParams) -> Result<
    (),
    SkootError,
> {
    let mut args: Vec<String> = Vec::new();
    args.push("mod".to_owned());
    args.push("init".to_owned());
    args.push(params.module());
    let program = "go".to_owned();
    let out = local.run_tool(&program, &args, path)?;
    if out.success {
        Ok(())
    } else {
        let mut msg = "failed to run go mod init: ".to_owned();
        msg.append(out.stderr.as_str());
        Err(SkootError::Subprocess(msg))
    }
}

/// Runs the Maven quickstart archetype in the working copy; a non-zero
/// exit fails with the tool's stderr included.
fn initialize_maven<L: LocalClient>(local: &L, path: &String, params: &MavenParams) -> Result<
    (),
    SkootError,
> {
    let mut args: Vec<String> = Vec::new();
    args.push("archetype:generate".to_owned());
    let mut group = "-DgroupId=".to_owned();
    group.append(params.group_id.as_str());
    args.push(group);
    let mut artifact = "-DartifactId=".to_owned();
    artifact.append(params.artifact_id.as_str());
    args.push(artifact);
    args.push("-DarchetypeArtifactId=maven-archetype-quickstart".to_owned());
    args.push("-DinteractiveMode=false".to_owned());
    let program = "mvn".to_owned();
    let out = local.run_tool(&program, &args, path)?;
    if out.success {
        Ok(())
    } else {
        let mut msg = "failed to run mvn archetype:generate: ".to_owned();
        msg.append(out.stderr.as_str());
        Err(SkootError::Subprocess(msg))
    }
}

impl<L: LocalClient> EcosystemService for LocalEcosystemService<L> {
    fn initialize(&self, params: EcosystemInitializeParams, source: InitializedSource) -> (r:
        Result<InitializedEcosystem, SkootError>) {
        match params {
            EcosystemInitializeParams::Go(g) => {
                initialize_go(&self.local, &source.path, &g)?;
                Ok(
                    InitializedEcosystem::Go(
                        crate::model::InitializedGo { name: g.name, host: g.host },
                    ),
                )
            },
            EcosystemInitializeParams::Maven(m) => {
                initialize_maven(&self.local, &source.path, &m)?;
                Ok(
                    InitializedEcosystem::Maven(
                        crate::model::InitializedMaven {
                            group_id: m.group_id,
                            artifact_id: m.artifact_id,
                        },
                    ),
                )
            },
        }
    }
}

} // verus!
