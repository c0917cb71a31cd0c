//! How the progress of a transfer is presented, and its state.
//!
//! Nothing here draws. A presenter reads the state and renders it; the state
//! says in which mode, under which label, how far the transfer has come and
//! whether it is complete.

use vstd::prelude::*;

verus! {

/// The layout of a determinate bar: the label, a spinner, the elapsed time,
/// the bar filled in proportion, the bytes transferred of the bytes
/// expected, and the estimated time left.
pub const BAR_TEMPLATE: &'static str =
    "{msg} {spinner:.green} [{elapsed_precise}] [{wide_bar:.cyan/blue}] {bytes}/{total_bytes} eta: {eta}";

/// The characters of a determinate bar: filled, current, and to come.
pub const BAR_PROGRESS_CHARS: &'static str = "=> ";

/// The way progress is shown.
#[derive(Clone, Copy, Debug, PartialEq, Eq, Structural)]
pub enum ProgressMode {
    /// Nothing is shown.
    Hidden,
    /// A bar that fills towards the given number of bytes.
    Bar(u64),
    /// A spinner, for a transfer of unknown length.
    Spinner,
}

/// The mode that `create_progress_bar` chooses: hidden when quiet, else a
/// bar when the total is known, else a spinner.
pub open spec fn mode_for(quiet: bool, total: Option<u64>) -> ProgressMode {
    if quiet {
        ProgressMode::Hidden
    } else {
        match total {
            Some(n) => ProgressMode::Bar(n),
            None => ProgressMode::Spinner,
        }
    }
}

/// The mathematical value of a `ProgressState`.
pub struct ProgressView {
    pub mode: ProgressMode,
    pub label: Seq<char>,
    pub position: u64,
    pub finished: bool,
}

impl ProgressView {
    /// The state of a presenter that was just created.
    pub open spec fn created(quiet: bool, label: Seq<char>, total: Option<u64>) -> ProgressView {
        ProgressView { mode: mode_for(quiet, total), label, position: 0, finished: false }
    }

    /// The number of bytes that the presenter was told to expect, if any.
    pub open spec fn total(self) -> Option<u64> {
        match self.mode {
            ProgressMode::Bar(n) => Some(n),
            _ => None,
        }
    }

    /// Whether anything is drawn for this state.
    pub open spec fn visible(self) -> bool {
        self.mode != ProgressMode::Hidden
    }

    /// The state under another label.
    pub open spec fn relabelled(self, label: Seq<char>) -> ProgressView {
        ProgressView { label, ..self }
    }

    /// The state after `by` more bytes: the count grows by `by` and stops at
    /// the largest number of 64 bits. A finished state stays as it is.
    pub open spec fn advanced(self, by: u64) -> ProgressView {
        if self.finished {
            self
        } else if self.position + by > u64::MAX {
            ProgressView { position: u64::MAX, ..self }
        } else {
            ProgressView { position: (self.position + by) as u64, ..self }
        }
    }

    /// The state once the transfer is complete: a bar stands at its total, a
    /// spinner or a hidden presenter keeps its count.
    pub open spec fn completed(self) -> ProgressView {
        ProgressView {
            position: match self.mode {
                ProgressMode::Bar(n) => n,
                _ => self.position,
            },
            finished: true,
            ..self
        }
    }
}

/// The state of one progress presenter.
#[derive(Debug, PartialEq, Eq)]
pub struct ProgressState {
    mode: ProgressMode,
    label: String,
    position: u64,
    finished: bool,
}

impl View for ProgressState {
    type V = ProgressView;

    closed spec fn view(&self) -> ProgressView {
        ProgressView {
            mode: self.mode,
            label: self.label@,
            position: self.position,
            finished: self.finished,
        }
    }
}

/// Creates the state of a presenter for a transfer of `length` bytes, if
/// that is known, shown under `msg`. In quiet mode the presenter is hidden:
/// it takes the same calls and shows nothing.
pub fn create_progress_bar(quiet_mode: bool, msg: &str, length: Option<u64>) -> (bar: ProgressState)
    ensures
        bar@ == ProgressView::created(quiet_mode, msg@, length),
{
    let mode = if quiet_mode {
        ProgressMode::Hidden
    } else {
        match length {
            Some(n) => ProgressMode::Bar(n),
            None => ProgressMode::Spinner,
        }
    };
    ProgressState { mode, label: msg.to_owned(), position: 0, finished: false }
}

impl ProgressState {
    /// The mode in which progress is shown.
    pub fn mode(&self) -> (mode: ProgressMode)
        ensures
            mode == self@.mode,
    {
        self.mode
    }

    /// The text shown beside the indicator.
    pub fn label(&self) -> (label: &str)
        ensures
            label@ == self@.label,
    {
        self.label.as_str()
    }

    /// The number of bytes reported so far.
    pub fn position(&self) -> (position: u64)
        ensures
            position == self@.position,
    {
        self.position
    }

    /// The number of bytes expected, where the mode is a bar.
    pub fn total(&self) -> (total: Option<u64>)
        ensures
            total == self@.total(),
    {
        match self.mode {
            ProgressMode::Bar(n) => Some(n),
            _ => None,
        }
    }

    /// Whether the transfer was marked complete.
    pub fn is_finished(&self) -> (finished: bool)
        ensures
            finished == self@.finished,
    {
        self.finished
    }

    /// Whether a presenter draws anything for this state.
    pub fn is_visible(&self) -> (visible: bool)
        ensures
            visible == self@.visible(),
    {
        match self.mode {
            ProgressMode::Hidden => false,
            _ => true,
        }
    }

    /// The layout to draw a bar with; a spinner and a hidden presenter have
    /// none of their own.
    pub fn template(&self) -> (template: Option<&'static str>)
        ensures
            template is Some <==> self@.mode is Bar,
            template matches Some(t) ==> t@ == BAR_TEMPLATE@,
    {
        match self.mode {
            ProgressMode::Bar(_) => Some(BAR_TEMPLATE),
            _ => None,
        }
    }

    /// Replaces the label.
    pub fn set_label(&mut self, text: &str)
        ensures
            final(self)@ == old(self)@.relabelled(text@),
    {
        self.label = text.to_owned();
    }

    /// Reports `by` more bytes received.
    pub fn advance(&mut self, by: u64)
        ensures
            final(self)@ == old(self)@.advanced(by),
    {
        if !self.finished {
            self.position = self.position.saturating_add(by);
        }
    }

    /// Marks the transfer complete. Nothing that is reported afterwards
    /// changes the state.
    pub fn finish(&mut self)
        ensures
            final(self)@ == old(self)@.completed(),
    {
        match self.mode {
            ProgressMode::Bar(n) => {
                self.position = n;
            },
            _ => {},
        }
        self.finished = true;
    }
}

} // verus!
