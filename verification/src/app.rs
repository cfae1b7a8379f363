//! The shell's state: page selection and the update-dialog state machine.
//!
//! A shell around the library only draws and forwards user actions; every
//! state change it performs goes through the transition methods here, whose
//! contracts state the exact next state: which page is shown, which phase
//! the update dialog is in, and the status line's text.

use vstd::prelude::*;
use vstd::string::StringExecFns;

verus! {

/// Which page the shell shows.
#[derive(Clone, Copy, Debug, PartialEq, Eq, Structural)]
pub enum AppPage {
    Home,
    DataTable,
    Settings,
    About,
}

impl Default for AppPage {
    /// The shell opens on the home page.
    fn default() -> (r: Self)
        ensures
            r is Home,
    {
        AppPage::Home
    }
}

/// The phase of the update dialog's state machine.
#[derive(Clone, Debug)]
pub enum UpdateState {
    /// Nothing in flight.
    Idle,
    /// A version check is running.
    Checking,
    /// A different version was found; carries its version string.
    Available(String),
    /// A download and binary swap is running.
    Downloading,
    /// The new binary is staged; a restart completes the update.
    Downloaded,
    /// A check or download failed; carries the reported reason.
    Error(String),
}

impl Default for UpdateState {
    /// Each process start begins with nothing in flight.
    fn default() -> (r: Self)
        ensures
            r is Idle,
    {
        UpdateState::Idle
    }
}

/// What a background update worker reported back.
#[derive(Clone, Debug)]
pub enum UpdateResult {
    UpdateAvailable(String),
    NoUpdate,
    UpdateDownloaded,
    Error(String),
}

/// The shell's own state: everything the pages and the update dialog read,
/// held apart from the widgets that draw it.
pub struct AppState {
    pub current_page: AppPage,
    pub update_state: UpdateState,
    pub update_status: String,
    pub show_update_dialog: bool,
    pub available_version: String,
}

impl AppState {
    /// The state at process start: home page, nothing in flight, a ready
    /// status line, no dialog, no known version.
    pub fn new() -> (r: Self)
        ensures
            r.current_page is Home,
            r.update_state is Idle,
            r.update_status@ == "Ready"@,
            !r.show_update_dialog,
            r.available_version@.len() == 0,
    {
        AppState {
            current_page: AppPage::Home,
            update_state: UpdateState::Idle,
            update_status: String::from_str("Ready"),
            show_update_dialog: false,
            available_version: String::new(),
        }
    }

    /// Switch to the given page; nothing else moves.
    pub fn navigate(&mut self, page: AppPage)
        ensures
            final(self).current_page == page,
            final(self).update_state == old(self).update_state,
            final(self).update_status == old(self).update_status,
            final(self).show_update_dialog == old(self).show_update_dialog,
            final(self).available_version == old(self).available_version,
    {
        self.current_page = page;
    }

    /// A version check was launched: enter the checking phase.
    pub fn begin_check(&mut self)
        ensures
            final(self).update_state is Checking,
            final(self).current_page == old(self).current_page,
            final(self).update_status == old(self).update_status,
            final(self).show_update_dialog == old(self).show_update_dialog,
            final(self).available_version == old(self).available_version,
    {
        self.update_state = UpdateState::Checking;
    }

    /// A download was launched (first try or retry): enter the downloading
    /// phase.
    pub fn begin_download(&mut self)
        ensures
            final(self).update_state is Downloading,
            final(self).current_page == old(self).current_page,
            final(self).update_status == old(self).update_status,
            final(self).show_update_dialog == old(self).show_update_dialog,
            final(self).available_version == old(self).available_version,
    {
        self.update_state = UpdateState::Downloading;
    }

    /// The dialog was dismissed: hide it and return to idle.
    pub fn dismiss_update_dialog(&mut self)
        ensures
            final(self).update_state is Idle,
            !final(self).show_update_dialog,
            final(self).current_page == old(self).current_page,
            final(self).update_status == old(self).update_status,
            final(self).available_version == old(self).available_version,
    {
        self.show_update_dialog = false;
        self.update_state = UpdateState::Idle;
    }

    /// A background worker reported back: take the matching transition.
    ///
    /// An available version opens the dialog and is remembered; "no update"
    /// returns to idle; a finished download enters the downloaded phase; an
    /// error enters the error phase with the reason both kept and shown.
    pub fn apply_update_result(&mut self, result: UpdateResult)
        ensures
            final(self).current_page == old(self).current_page,
            result matches UpdateResult::UpdateAvailable(v) ==> {
                &&& final(self).update_state matches UpdateState::Available(w) && w@ == v@
                &&& final(self).available_version@ == v@
                &&& final(self).show_update_dialog
                &&& final(self).update_status@ == "Update available!"@
            },
            result is NoUpdate ==> {
                &&& final(self).update_state is Idle
                &&& final(self).update_status@ == "No updates available."@
                &&& final(self).show_update_dialog == old(self).show_update_dialog
                &&& final(self).available_version == old(self).available_version
            },
            result is UpdateDownloaded ==> {
                &&& final(self).update_state is Downloaded
                &&& final(self).update_status@ == "Update downloaded!"@
                &&& final(self).show_update_dialog == old(self).show_update_dialog
                &&& final(self).available_version == old(self).available_version
            },
            result matches UpdateResult::Error(m) ==> {
                &&& final(self).update_state matches UpdateState::Error(w) && w@ == m@
                &&& final(self).update_status@ == "Update failed: "@ + m@
                &&& final(self).show_update_dialog == old(self).show_update_dialog
                &&& final(self).available_version == old(self).available_version
            },
    {
        match result {
            UpdateResult::UpdateAvailable(version) => {
                self.available_version = version.clone();
                self.update_state = UpdateState::Available(version);
                self.show_update_dialog = true;
                self.update_status = String::from_str("Update available!");
            },
            UpdateResult::NoUpdate => {
                self.update_state = UpdateState::Idle;
                self.update_status = String::from_str("No updates available.");
            },
            UpdateResult::UpdateDownloaded => {
                self.update_state = UpdateState::Downloaded;
                self.update_status = String::from_str("Update downloaded!");
            },
            UpdateResult::Error(message) => {
                let mut status = String::from_str("Update failed: ");
                status.append(message.as_str());
                self.update_state = UpdateState::Error(message);
                self.update_status = status;
            },
        }
    }

    /// An export finished: show where it went, or why it failed; nothing
    /// else moves.
    pub fn note_export_outcome(&mut self, outcome: Result<String, String>)
        ensures
            outcome matches Ok(p) ==> final(self).update_status@ == "Exported to: "@ + p@,
            outcome matches Err(m) ==> final(self).update_status@ == "Export failed: "@ + m@,
            final(self).current_page == old(self).current_page,
            final(self).update_state == old(self).update_state,
            final(self).show_update_dialog == old(self).show_update_dialog,
            final(self).available_version == old(self).available_version,
    {
        match outcome {
            Ok(path) => {
                let mut status = String::from_str("Exported to: ");
                status.append(path.as_str());
                self.update_status = status;
            },
            Err(message) => {
                let mut status = String::from_str("Export failed: ");
                status.append(message.as_str());
                self.update_status = status;
            },
        }
    }
}

} // verus!
