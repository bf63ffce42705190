use vstd::prelude::*;
use crate::probe::{bytes_view, installed_version, installed_version_result, ProbeError};
use crate::registry::FetchError;
use crate::version::{version_lt, SemanticVersion};

verus! {

/// How upgrading one tool ended.
#[derive(Clone, Debug)]
pub enum UpgradeOutcome {
    /// The installed version is not older than the registry's latest.
    UpToDate(SemanticVersion),
    /// The build command was run to replace `from` with `to`.
    Upgraded { from: SemanticVersion, to: SemanticVersion },
    /// The tool could not be run.
    NotInstalled,
    /// The tool's output held no readable version; the text that failed, where
    /// there was one.
    VersionUnparsable(Option<String>),
    /// The registry gave no latest version.
    RegistryError(FetchError),
}

/// Where the upgrade of one tool stands; each state but the last names the
/// outside work to do next.
#[derive(Clone, Debug)]
pub enum UpgradeStep {
    /// Run `<cli> --version` and capture its standard output.
    QueryVersion,
    /// Ask the registry for the latest version of the package.
    FetchLatest(SemanticVersion),
    /// Run the build command in forcing mode for the package.
    ForceInstall { installed: SemanticVersion, latest: SemanticVersion },
    /// Nothing is left to do.
    Finished(UpgradeOutcome),
}

/// What the outside work of a step produced.
#[derive(Debug)]
pub enum UpgradeEvent {
    /// The standard output of `<cli> --version`, or `None` where it could not run.
    VersionOutput(Option<Vec<u8>>),
    /// The registry's answer.
    LatestVersion(Result<SemanticVersion, FetchError>),
    /// The build command has ended, whether it succeeded or not.
    InstallFinished,
}

/// The step that follows reading the installed version.
pub open spec fn after_probe(p: Result<SemanticVersion, ProbeError>) -> UpgradeStep {
    match p {
        Ok(v) => UpgradeStep::FetchLatest(v),
        Err(ProbeError::NotFound) => UpgradeStep::Finished(UpgradeOutcome::NotInstalled),
        Err(ProbeError::VersionBroken(raw)) => UpgradeStep::Finished(UpgradeOutcome::VersionUnparsable(raw)),
    }
}

/// The step that follows an event that carries no tool output; an event that
/// the step does not wait for leaves it as it is.
pub open spec fn advance(state: UpgradeStep, event: UpgradeEvent) -> UpgradeStep {
    match state {
        UpgradeStep::FetchLatest(installed) => match event {
            UpgradeEvent::LatestVersion(Ok(latest)) => if version_lt(installed, latest) {
                UpgradeStep::ForceInstall { installed, latest }
            } else {
                UpgradeStep::Finished(UpgradeOutcome::UpToDate(installed))
            },
            UpgradeEvent::LatestVersion(Err(e)) => UpgradeStep::Finished(UpgradeOutcome::RegistryError(e)),
            _ => state,
        },
        UpgradeStep::ForceInstall { installed, latest } => match event {
            UpgradeEvent::InstallFinished => UpgradeStep::Finished(
                UpgradeOutcome::Upgraded { from: installed, to: latest },
            ),
            _ => state,
        },
        _ => state,
    }
}

/// The next step of upgrading a tool, from the current one and what its
/// outside work produced.
pub fn upgrade_step(state: UpgradeStep, event: UpgradeEvent) -> (r: UpgradeStep)
    ensures
        (state is QueryVersion && event is VersionOutput) ==> exists|p: Result<SemanticVersion, ProbeError>|
            installed_version_result(bytes_view(event->VersionOutput_0), p) && r == after_probe(p),
        !(state is QueryVersion && event is VersionOutput) ==> r == advance(state, event),
{
    match state {
        UpgradeStep::QueryVersion => match event {
            UpgradeEvent::VersionOutput(output) => {
                let ghost bytes = bytes_view(output);
                let p = installed_version(output);
                let ghost probed = p;
                let r = match p {
                    Ok(v) => UpgradeStep::FetchLatest(v),
                    Err(ProbeError::NotFound) => UpgradeStep::Finished(UpgradeOutcome::NotInstalled),
                    Err(ProbeError::VersionBroken(raw)) => UpgradeStep::Finished(
                        UpgradeOutcome::VersionUnparsable(raw),
                    ),
                };
                assert(installed_version_result(bytes, probed) && r == after_probe(probed));
                r
            },
            _ => UpgradeStep::QueryVersion,
        },
        UpgradeStep::FetchLatest(installed) => match event {
            UpgradeEvent::LatestVersion(Ok(latest)) => if installed.lt(&latest) {
                UpgradeStep::ForceInstall { installed, latest }
            } else {
                UpgradeStep::Finished(UpgradeOutcome::UpToDate(installed))
            },
            UpgradeEvent::LatestVersion(Err(e)) => UpgradeStep::Finished(UpgradeOutcome::RegistryError(e)),
            _ => UpgradeStep::FetchLatest(installed),
        },
        UpgradeStep::ForceInstall { installed, latest } => match event {
            UpgradeEvent::InstallFinished => UpgradeStep::Finished(
                UpgradeOutcome::Upgraded { from: installed, to: latest },
            ),
            _ => UpgradeStep::ForceInstall { installed, latest },
        },
        UpgradeStep::Finished(outcome) => UpgradeStep::Finished(outcome),
    }
}

/// An older installed version leads to exactly one forced build, after which
/// the outcome reports the registry's latest version; a version that is not
/// older leads to no build at all and reports the installed version; once
/// finished, no event starts anything again.
pub proof fn lemma_upgrade_builds_once(
    installed: SemanticVersion,
    latest: SemanticVersion,
    outcome: UpgradeOutcome,
    event: UpgradeEvent,
)
    ensures
        version_lt(installed, latest) ==> advance(
            UpgradeStep::FetchLatest(installed),
            UpgradeEvent::LatestVersion(Ok(latest)),
        ) == (UpgradeStep::ForceInstall { installed, latest }),
        advance(UpgradeStep::ForceInstall { installed, latest }, UpgradeEvent::InstallFinished)
            == UpgradeStep::Finished(UpgradeOutcome::Upgraded { from: installed, to: latest }),
        !version_lt(installed, latest) ==> advance(
            UpgradeStep::FetchLatest(installed),
            UpgradeEvent::LatestVersion(Ok(latest)),
        ) == UpgradeStep::Finished(UpgradeOutcome::UpToDate(installed)),
        !(event is VersionOutput) ==> advance(UpgradeStep::Finished(outcome), event)
            == UpgradeStep::Finished(outcome),
{
}

} // verus!
