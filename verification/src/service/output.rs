//! The output driver: listing and fetching release artifacts (SBOMs,
//! attestations) from a forge release.

use vstd::prelude::*;

use crate::model::{
    InitializedRepo, ProjectOutput, ProjectOutputParams, ProjectOutputReference,
    ProjectOutputReferenceView, ProjectOutputType, ProjectOutputTypeView,
    ProjectOutputsListParams, SkootError,
};
use crate::ports::{ForgeClient, GithubAsset, GithubRelease};
use crate::strutil::{contains_seq, contains_str, str_eq};

verus! {

/// The classification of a release asset by its name: SPDX and CycloneDX
/// names are SBOMs, in-toto names are attestations, and everything else
/// is unknown.
pub open spec fn spec_classify(name: Seq<char>) -> ProjectOutputTypeView {
    if contains_seq(name, ".spdx."@) || contains_seq(name, ".cdx."@) {
        ProjectOutputTypeView::SBOM
    } else if contains_seq(name, ".intoto."@) {
        ProjectOutputTypeView::InToto
    } else {
        ProjectOutputTypeView::Custom("Unknown"@)
    }
}

/// The reference an asset maps to: its name and its classification.
pub open spec fn spec_reference_of(name: Seq<char>) -> ProjectOutputReferenceView {
    ProjectOutputReferenceView { output_type: spec_classify(name), name: name }
}

/// Classifies one asset name.
pub fn classify_output(name: &str) -> (r: ProjectOutputType)
    ensures
        r@ == spec_classify(name@),
{
    if contains_str(name, ".spdx.") || contains_str(name, ".cdx.") {
        ProjectOutputType::SBOM
    } else if contains_str(name, ".intoto.") {
        ProjectOutputType::InToto
    } else {
        ProjectOutputType::Custom("Unknown".to_owned())
    }
}

/// Maps every asset of a release to its reference, in the order the
/// forge returned them.
pub fn references_of(assets: &Vec<GithubAsset>) -> (r: Vec<ProjectOutputReference>)
    ensures
        r@.len() == assets@.len(),
        forall|k: int|
            0 <= k < r@.len() ==> (#[trigger] r@[k])@ == spec_reference_of(assets@[k].name@),
{
    let mut r: Vec<ProjectOutputReference> = Vec::new();
    let mut k: usize = 0;
    while k < assets.len()
        invariant
            k <= assets.len(),
            r@.len() == k,
            forall|j: int|
                0 <= j < k ==> (#[trigger] r@[j])@ == spec_reference_of(assets@[j].name@),
        decreases assets.len() - k,
    {
        let a = &assets[k];
        r.push(
            ProjectOutputReference {
                output_type: classify_output(a.name.as_str()),
                name: a.name.clone(),
            },
        );
        k = k + 1;
    }
    r
}

/// The contract every output driver honors: every reference it hands out
/// is classified by its name.
pub trait OutputService {
    fn list(&self, params: ProjectOutputsListParams) -> (r: Result<
        Vec<ProjectOutputReference>,
        SkootError,
    >)
        ensures
            r matches Ok(refs) ==> forall|k: int|
                0 <= k < refs@.len() ==> (#[trigger] refs@[k])@ == spec_reference_of(
                    refs@[k].name@,
                ),
    ;

    fn get(&self, params: ProjectOutputParams) -> (r: Result<ProjectOutput, SkootError>)
        ensures
            r matches Ok(o) ==> o.reference@ == spec_reference_of(params.project_output@),
    ;
}

/// The output driver run from the local machine, over the forge client.
#[derive(Debug)]
pub struct LocalOutputService<C: ForgeClient> {
    pub client: C,
}

/// Fetches the named release of the project's repo, or the latest.
fn get_release<C: ForgeClient>(
    client: &C,
    repo: &InitializedRepo,
    tag: &Option<String>,
) -> Result<GithubRelease, SkootError> {
    let (owner, name) = match repo {
        InitializedRepo::Github(g) => (g.organization.get_name(), g.name.clone()),
    };
    client.fetch_release(&owner, &name, tag)
}

impl<C: ForgeClient> OutputService for LocalOutputService<C> {
    fn list(&self, params: ProjectOutputsListParams) -> (r: Result<
        Vec<ProjectOutputReference>,
        SkootError,
    >) {
        let tag = params.release.tag();
        let release = get_release(&self.client, &params.initialized_project.repo, &tag)?;
        Ok(references_of(&release.assets))
    }

    fn get(&self, params: ProjectOutputParams) -> (r: Result<ProjectOutput, SkootError>) {
        let tag = params.release.tag();
        let release = get_release(&self.client, &params.initialized_project.repo, &tag)?;
        let mut k: usize = 0;
        while k < release.assets.len()
            invariant
                k <= release.assets.len(),
            decreases release.assets.len() - k,
        {
            let a = &release.assets[k];
            if str_eq(a.name.as_str(), params.project_output.as_str()) {
                let content = self.client.download(&a.browser_download_url)?;
                let reference = ProjectOutputReference {
                    output_type: classify_output(a.name.as_str()),
                    name: a.name.clone(),
                };
                proof {
                    assert(reference@ == spec_reference_of(params.project_output@));
                }
                return Ok(ProjectOutput { reference, output: content });
            }
            k = k + 1;
        }
        Err(SkootError::NotFound("asset not found in release".to_owned()))
    }
}

} // verus!
