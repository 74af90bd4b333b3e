//! Resolved targets: a triple with what it says and how CI builds for it.

use vstd::prelude::*;
use vstd::string::*;
use crate::detail::{detail_of, parsable, parse_failure, TargetDetail, TargetDetailView};
use crate::error::{ResolveError, ResolveErrorView};
use crate::workflow::{config_of, GithubWorkflowConfig, GithubWorkflowConfigView};

verus! {

/// A resolved target.
#[derive(Debug, Clone, PartialEq, Eq)]
pub struct Target {
    pub triple: String,
    pub detail: TargetDetail,
    pub github_workflow_config: GithubWorkflowConfig,
}

/// What a `Target` stands for.
pub ghost struct TargetView {
    pub triple: Seq<char>,
    pub detail: TargetDetailView,
    pub github_workflow_config: GithubWorkflowConfigView,
}

impl View for Target {
    type V = TargetView;

    open spec fn view(&self) -> TargetView {
        TargetView {
            triple: self.triple@,
            detail: self.detail@,
            github_workflow_config: self.github_workflow_config@,
        }
    }
}

/// Whether a triple can be resolved: it can be read, and the table of
/// configurations holds it.
pub open spec fn resolvable(triple: Seq<char>) -> bool {
    parsable(triple) && config_of(triple) is Some
}

/// Why a triple cannot be resolved, if it cannot. What stops the reading of
/// the triple is reported before a missing configuration.
pub open spec fn failure_of(triple: Seq<char>) -> Option<ResolveErrorView> {
    if parse_failure(triple) is Some {
        parse_failure(triple)
    } else if config_of(triple) is None {
        Some(ResolveErrorView::NotConfigured)
    } else {
        None
    }
}

/// A triple can be resolved exactly where nothing is reported against it.
pub proof fn lemma_resolvable_iff_no_failure(triple: Seq<char>)
    ensures
        resolvable(triple) <==> failure_of(triple) is None,
{
}

/// The target that a resolvable triple resolves to. It depends on the triple
/// alone.
pub open spec fn target_of(triple: Seq<char>) -> TargetView
    recommends
        resolvable(triple),
{
    TargetView {
        triple,
        detail: detail_of(triple),
        github_workflow_config: config_of(triple)->0,
    }
}

impl Target {
    /// Resolves a triple, or says why it cannot be resolved: it has fewer than
    /// three fields, its architecture is unknown, or no configuration is
    /// registered for it.
    pub fn try_new(triple: &str) -> (r: Result<Target, ResolveError>)
        ensures
            match r {
                Ok(t) => resolvable(triple@) && t@ == target_of(triple@),
                Err(e) => !resolvable(triple@) && failure_of(triple@) == Some(e@),
            },
    {
        let detail = match TargetDetail::parse(triple) {
            Ok(d) => d,
            Err(e) => {
                return Err(e);
            },
        };
        let config = match GithubWorkflowConfig::lookup(triple) {
            Some(c) => c,
            None => {
                return Err(ResolveError::NotConfigured);
            },
        };
        Ok(Target { triple: triple.to_owned(), detail, github_workflow_config: config })
    }

    /// Resolves a resolvable triple.
    pub fn new(triple: &str) -> (r: Target)
        requires
            resolvable(triple@),
        ensures
            r@ == target_of(triple@),
    {
        let detail = TargetDetail::from(triple);
        let config = match GithubWorkflowConfig::lookup(triple) {
            Some(c) => c,
            None => {
                proof {
                    assert(false);
                }
                unreached()
            },
        };
        Target { triple: triple.to_owned(), detail, github_workflow_config: config }
    }
}

} // verus!
