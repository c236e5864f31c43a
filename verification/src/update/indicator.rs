//! What the interface shows of updates: a newer version, a failed look for
//! one, or nothing. The look itself runs in the background; the interface
//! polls for its end.
use vstd::prelude::*;

verus! {

/// How a look for an update in the background ended.
#[derive(Debug)]
pub enum CheckReport {
    /// A newer version exists; its text is given.
    Newer(String),
    /// The running build is the latest.
    Current,
    /// The look failed, for the reason given.
    Failed(String),
}

/// The state behind the update indicator.
#[derive(Debug)]
pub struct UpdateIndicator {
    /// Text of the newer version, once one is known.
    pub update_available: Option<String>,
    /// Why the last look failed, if it did.
    pub update_last_error: Option<String>,
    /// A look is under way.
    pub check_running: bool,
}

/// The mathematical content of an [`UpdateIndicator`].
pub struct IndicatorModel {
    pub update_available: Option<Seq<char>>,
    pub update_last_error: Option<Seq<char>>,
    pub check_running: bool,
}

/// The text of an optional string.
pub open spec fn text_of(value: Option<String>) -> Option<Seq<char>> {
    match value {
        Some(s) => Some(s@),
        None => None,
    }
}

impl View for UpdateIndicator {
    type V = IndicatorModel;

    open spec fn view(&self) -> IndicatorModel {
        IndicatorModel {
            update_available: text_of(self.update_available),
            update_last_error: text_of(self.update_last_error),
            check_running: self.check_running,
        }
    }
}

/// The indicator after a look has ended: a newer version replaces what was
/// shown and clears the error; an up-to-date build clears both; a failure
/// is kept beside whatever version was known.
pub open spec fn after_report(before: IndicatorModel, report: CheckReport) -> IndicatorModel {
    match report {
        CheckReport::Newer(version) => IndicatorModel {
            update_available: Some(version@),
            update_last_error: None,
            check_running: false,
        },
        CheckReport::Current => IndicatorModel {
            update_available: None,
            update_last_error: None,
            check_running: false,
        },
        CheckReport::Failed(reason) => IndicatorModel {
            update_available: before.update_available,
            update_last_error: Some(reason@),
            check_running: false,
        },
    }
}

/// What the indicator reads: the newer version if one is known, else that
/// the look failed if it did, else nothing.
pub open spec fn label_of(indicator: IndicatorModel) -> Option<Seq<char>> {
    match indicator.update_available {
        Some(version) => Some("Update available: v"@ + version),
        None => match indicator.update_last_error {
            Some(_) => Some("Update check failed"@),
            None => None,
        },
    }
}

impl UpdateIndicator {
    /// An indicator that shows nothing, with no look under way.
    pub fn new() -> (r: UpdateIndicator)
        ensures
            r@ == (IndicatorModel {
                update_available: None,
                update_last_error: None,
                check_running: false,
            }),
    {
        UpdateIndicator { update_available: None, update_last_error: None, check_running: false }
    }

    /// Says whether a look for an update is to be started now, and notes
    /// that it is under way. None is started in a development build, nor
    /// while one is under way.
    pub fn schedule_update_check(&mut self, debug_build: bool) -> (started: bool)
        ensures
            started == (!debug_build && !old(self).check_running),
            final(self)@ == (IndicatorModel {
                check_running: old(self).check_running || started,
                ..old(self)@
            }),
    {
        if debug_build || self.check_running {
            false
        } else {
            self.check_running = true;
            true
        }
    }

    /// Polls the look that is under way: `finished` holds its report once
    /// it has ended. Nothing changes while it runs, nor when none is under
    /// way.
    pub fn tick_update_check(&mut self, finished: Option<CheckReport>)
        ensures
            final(self)@ == (match finished {
                Some(report) if old(self).check_running => after_report(old(self)@, report),
                _ => old(self)@,
            }),
    {
        if !self.check_running {
            return ;
        }
        match finished {
            Some(CheckReport::Newer(version)) => {
                self.update_available = Some(version);
                self.update_last_error = None;
                self.check_running = false;
            },
            Some(CheckReport::Current) => {
                self.update_available = None;
                self.update_last_error = None;
                self.check_running = false;
            },
            Some(CheckReport::Failed(reason)) => {
                self.update_last_error = Some(reason);
                self.check_running = false;
            },
            None => {},
        }
    }

    /// Forgets the last failure and says whether a new look is to be
    /// started now.
    pub fn retry(&mut self, debug_build: bool) -> (started: bool)
        ensures
            started == (!debug_build && !old(self).check_running),
            final(self)@ == (IndicatorModel {
                update_last_error: None,
                check_running: old(self).check_running || started,
                ..old(self)@
            }),
    {
        self.update_last_error = None;
        self.schedule_update_check(debug_build)
    }

    /// The text the indicator shows, if it shows any.
    pub fn label(&self) -> (r: Option<String>)
        ensures
            text_of(r) == label_of(self@),
    {
        match &self.update_available {
            Some(version) => {
                let mut text = "Update available: v".to_owned();
                text.append(version.as_str());
                Some(text)
            },
            None => match &self.update_last_error {
                Some(_) => Some("Update check failed".to_owned()),
                None => None,
            },
        }
    }
}

} // verus!
