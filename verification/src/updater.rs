//! The update client's decisions.
//!
//! Fetching the release list and swapping the running binary are network and
//! file work done outside the library; what the library owns is the decision
//! in between.  `check_for_updates` takes the outcome of a fetch and decides
//! between "no update", "update available with this version", and the error
//! taxonomy; the comparison is plain string inequality against the running
//! version, exactly as the contracts state.  `update_app` classifies the
//! outcome of a self-replacement attempt the same way.

use vstd::prelude::*;

verus! {

/// One entry of a fetched release list; only its version string matters.
#[derive(Clone, Debug)]
pub struct ReleaseInfo {
    pub version: String,
}

/// What an update check decided.
#[derive(Clone, Debug)]
pub enum UpdateOutcome {
    /// The latest published version equals the running one.
    NoUpdate,
    /// A different version is published; carries its version string.
    Available(String),
}

/// Why an update check failed.
#[derive(Clone, Debug)]
pub enum UpdateCheckError {
    /// The release list could not be fetched; carries the reported reason.
    FetchFailed(String),
    /// The release list was fetched but holds no entry.
    NoReleases,
}

/// Why applying an update failed; carries the reported reason.
#[derive(Clone, Debug)]
pub struct UpdateApplyError {
    pub message: String,
}

/// The update client: remembers the running build's version string and
/// judges fetched release lists against it.
pub struct AppUpdater {
    pub current_version: String,
}

impl AppUpdater {
    /// A client for a build running the given version.
    pub fn new(current_version: String) -> (r: Self)
        ensures
            r.current_version@ == current_version@,
    {
        AppUpdater { current_version }
    }

    /// Decide an update check from the outcome of a release-list fetch.
    ///
    /// A failed fetch or an empty list is an error; otherwise only the first
    /// entry counts, and any version string other than the running one —
    /// newer, older or merely differently written — reads as "available".
    pub fn check_for_updates(&self, fetched: Result<Vec<ReleaseInfo>, String>) -> (r: Result<
        UpdateOutcome,
        UpdateCheckError,
    >)
        ensures
            fetched matches Err(m) ==> (r matches Err(e) && e matches UpdateCheckError::FetchFailed(
                w,
            ) && w@ == m@),
            fetched matches Ok(l) ==> {
                &&& l@.len() == 0 ==> (r matches Err(e) && e is NoReleases)
                &&& l@.len() > 0 && l@[0].version@ == self.current_version@ ==> (r matches Ok(o)
                    && o is NoUpdate)
                &&& l@.len() > 0 && l@[0].version@ != self.current_version@ ==> (r matches Ok(o)
                    && o matches UpdateOutcome::Available(v) && v@ == l@[0].version@)
            },
    {
        match fetched {
            Err(m) => Err(UpdateCheckError::FetchFailed(m)),
            Ok(releases) => {
                if releases.len() == 0 {
                    Err(UpdateCheckError::NoReleases)
                } else {
                    let latest = &releases[0];
                    if latest.version == self.current_version {
                        Ok(UpdateOutcome::NoUpdate)
                    } else {
                        Ok(UpdateOutcome::Available(latest.version.clone()))
                    }
                }
            },
        }
    }

    /// Classify the outcome of a self-replacement attempt: success carries
    /// the version now staged, failure carries the reported reason.
    pub fn update_app(&self, applied: Result<String, String>) -> (r: Result<
        String,
        UpdateApplyError,
    >)
        ensures
            applied matches Ok(v) ==> (r matches Ok(w) && w@ == v@),
            applied matches Err(m) ==> (r matches Err(e) && e.message@ == m@),
    {
        match applied {
            Ok(version) => Ok(version),
            Err(message) => Err(UpdateApplyError { message }),
        }
    }
}

} // verus!
