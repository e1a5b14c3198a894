//! Playback: whether the slideshow runs, and where in the content it stands.

use std::path::PathBuf;
use vstd::prelude::*;
use vstd::string::*;
use crate::services::{describe_io_error, is_io_error_message};

verus! {

/// Whether the slideshow is running.
#[derive(Debug, Clone, Copy, PartialEq, Eq, Structural)]
pub enum PlaybackState {
    Stopped,
    Playing,
    Paused,
}

impl Default for PlaybackState {
    fn default() -> (state: Self)
        ensures
            state == PlaybackState::Stopped,
    {
        PlaybackState::Stopped
    }
}

/// The state that follows `state` when play/pause is toggled: a stopped or
/// paused show plays, a playing one pauses.
pub open spec fn toggled(state: PlaybackState) -> PlaybackState {
    match state {
        PlaybackState::Stopped => PlaybackState::Playing,
        PlaybackState::Playing => PlaybackState::Paused,
        PlaybackState::Paused => PlaybackState::Playing,
    }
}

/// Toggling never stops a show, and from the first toggle on it alternates
/// between playing and paused: Stopped, Playing, Paused, Playing, ...
pub proof fn lemma_toggle_alternates(state: PlaybackState)
    ensures
        toggled(state) != PlaybackState::Stopped,
        toggled(PlaybackState::Stopped) == PlaybackState::Playing,
        toggled(toggled(PlaybackState::Stopped)) == PlaybackState::Paused,
        state != PlaybackState::Stopped ==> toggled(toggled(state)) == state,
{
}

/// The state after `presses` toggles, starting from `state`.
pub open spec fn toggled_times(state: PlaybackState, presses: nat) -> PlaybackState
    decreases presses,
{
    if presses == 0 {
        state
    } else {
        toggled(toggled_times(state, (presses - 1) as nat))
    }
}

/// Toggling a stopped show again and again runs through Playing, Paused,
/// Playing, ...: an odd number of toggles leaves it playing, an even number
/// other than zero leaves it paused.
pub proof fn lemma_toggle_cycle(presses: nat)
    ensures
        toggled_times(PlaybackState::Stopped, presses) == if presses == 0 {
            PlaybackState::Stopped
        } else if presses % 2 == 1 {
            PlaybackState::Playing
        } else {
            PlaybackState::Paused
        },
    decreases presses,
{
    if presses > 0 {
        lemma_toggle_cycle((presses - 1) as nat);
    }
}

/// What a `PlaybackManager` stands for.
pub struct PlaybackView {
    pub state: PlaybackState,
    /// The grid that playback acts on; `None` for all grids.
    pub active_grid: Option<usize>,
    /// Position in the content sequence.
    pub content_index: usize,
    pub highlights_only: bool,
}

/// Manages slideshow playback.
pub struct PlaybackManager {
    state: PlaybackState,
    current_grid: Option<usize>,
    current_content_index: usize,
    highlights_only: bool,
}

impl View for PlaybackManager {
    type V = PlaybackView;

    closed spec fn view(&self) -> PlaybackView {
        PlaybackView {
            state: self.state,
            active_grid: self.current_grid,
            content_index: self.current_content_index,
            highlights_only: self.highlights_only,
        }
    }
}

/// The view of a manager that has just been made: stopped, at the start of
/// the content, acting on all grids, showing content and highlights alike.
pub open spec fn initial_playback() -> PlaybackView {
    PlaybackView {
        state: PlaybackState::Stopped,
        active_grid: None,
        content_index: 0,
        highlights_only: false,
    }
}

impl Default for PlaybackManager {
    fn default() -> (manager: Self)
        ensures
            manager@ == initial_playback(),
    {
        PlaybackManager {
            state: PlaybackState::Stopped,
            current_grid: None,
            current_content_index: 0,
            highlights_only: false,
        }
    }
}

impl PlaybackManager {
    pub fn new() -> (manager: Self)
        ensures
            manager@ == initial_playback(),
    {
        Self::default()
    }

    /// Starts playback, from any state.
    pub fn play(&mut self)
        ensures
            final(self)@ == (PlaybackView { state: PlaybackState::Playing, ..old(self)@ }),
    {
        self.state = PlaybackState::Playing;
    }

    /// Stops playback and returns to the start of the content.
    pub fn stop(&mut self)
        ensures
            final(self)@ == (PlaybackView {
                state: PlaybackState::Stopped,
                content_index: 0,
                ..old(self)@
            }),
    {
        self.state = PlaybackState::Stopped;
        self.current_content_index = 0;
    }

    /// Pauses a playing show; any other state is left as it is.
    pub fn pause(&mut self)
        ensures
            old(self)@.state == PlaybackState::Playing ==> final(self)@ == (PlaybackView {
                state: PlaybackState::Paused,
                ..old(self)@
            }),
            old(self)@.state != PlaybackState::Playing ==> final(self)@ == old(self)@,
    {
        if self.state == PlaybackState::Playing {
            self.state = PlaybackState::Paused;
        }
    }

    /// Resumes a paused show; any other state is left as it is.
    pub fn resume(&mut self)
        ensures
            old(self)@.state == PlaybackState::Paused ==> final(self)@ == (PlaybackView {
                state: PlaybackState::Playing,
                ..old(self)@
            }),
            old(self)@.state != PlaybackState::Paused ==> final(self)@ == old(self)@,
    {
        if self.state == PlaybackState::Paused {
            self.state = PlaybackState::Playing;
        }
    }

    /// Toggles between play and pause; a stopped show starts playing.
    pub fn toggle(&mut self)
        ensures
            final(self)@ == (PlaybackView { state: toggled(old(self)@.state), ..old(self)@ }),
    {
        match self.state {
            PlaybackState::Playing => self.pause(),
            PlaybackState::Paused => self.resume(),
            PlaybackState::Stopped => self.play(),
        }
    }

    /// Advances to the next image.
    pub fn next(&mut self)
        requires
            old(self)@.content_index < usize::MAX,
        ensures
            final(self)@ == (PlaybackView {
                content_index: (old(self)@.content_index + 1) as usize,
                ..old(self)@
            }),
    {
        self.current_content_index = self.current_content_index + 1;
    }

    /// Goes back to the previous image; at the first image it stays there.
    pub fn previous(&mut self)
        ensures
            final(self)@ == (PlaybackView {
                content_index: if old(self)@.content_index > 0 {
                    (old(self)@.content_index - 1) as usize
                } else {
                    0
                },
                ..old(self)@
            }),
    {
        if self.current_content_index > 0 {
            self.current_content_index = self.current_content_index - 1;
        }
    }

    /// Sets the active grid; `None` stands for all grids.
    pub fn set_active_grid(&mut self, grid: Option<usize>)
        ensures
            final(self)@ == (PlaybackView { active_grid: grid, ..old(self)@ }),
    {
        self.current_grid = grid;
    }

    /// Switches highlights-only mode on or off.
    pub fn toggle_highlights_only(&mut self)
        ensures
            final(self)@ == (PlaybackView {
                highlights_only: !old(self)@.highlights_only,
                ..old(self)@
            }),
    {
        self.highlights_only = !self.highlights_only;
    }

    /// The current playback state.
    pub fn state(&self) -> (state: PlaybackState)
        ensures
            state == self@.state,
    {
        self.state
    }

    /// Whether only highlights are shown.
    pub fn is_highlights_only(&self) -> (on: bool)
        ensures
            on == self@.highlights_only,
    {
        self.highlights_only
    }

    /// The grid that playback acts on; `None` for all grids.
    pub fn active_grid(&self) -> (grid: Option<usize>)
        ensures
            grid == self@.active_grid,
    {
        self.current_grid
    }

    /// Position in the content sequence.
    pub fn content_index(&self) -> (index: usize)
        ensures
            index == self@.content_index,
    {
        self.current_content_index
    }
}

/// Loads an image for display. No image format is read yet: every path is
/// refused.
pub fn load_image(_path: &PathBuf) -> (loaded: Result<Vec<u8>, ImageError>)
    ensures
        loaded matches Err(ImageError::NotImplemented),
{
    Err(ImageError::NotImplemented)
}

/// Why an image could not be loaded.
#[derive(Debug)]
pub enum ImageError {
    IoError(std::io::Error),
    DecodeError(String),
    NotImplemented,
}

impl ImageError {
    /// The error in words.
    pub fn message(&self) -> (text: String)
        ensures
            match self {
                ImageError::IoError(error) => is_io_error_message(*error, text@),
                ImageError::DecodeError(detail) => text@ == "Decode error: "@ + detail@,
                ImageError::NotImplemented => text@ == "Not implemented"@,
            },
    {
        match self {
            ImageError::IoError(error) => describe_io_error(error),
            ImageError::DecodeError(detail) => {
                let mut text = String::from_str("Decode error: ");
                text.append(detail.as_str());
                text
            },
            ImageError::NotImplemented => String::from_str("Not implemented"),
        }
    }
}

} // verus!
