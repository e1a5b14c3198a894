//! Playlists: the grids, the images shown in them, and how they are shown.

use std::path::PathBuf;
use vstd::prelude::*;
use vstd::string::*;
use crate::services::{describe_io_error, is_io_error_message};

verus! {

/// A screen region that images are shown in.
#[derive(Debug, Clone)]
pub struct GridConfig {
    pub x: i32,
    pub y: i32,
    pub width: u32,
    pub height: u32,
}

/// Whether images advance by themselves.
#[derive(Debug, Clone, Copy, PartialEq, Eq, Structural)]
pub enum AdvanceMode {
    Automatic,
    Manual,
}

/// The dimension by which an image is fitted to its grid.
#[derive(Debug, Clone, Copy, PartialEq, Eq, Structural)]
pub enum ResizeMode {
    ByLargestDimension,
    ByWidth,
    ByHeight,
}

/// Whether the grids advance together or one after another.
#[derive(Debug, Clone, Copy, PartialEq, Eq, Structural)]
pub enum StaggerMode {
    Staggered,
    Synchronized,
    Off,
}

/// Whether the content is shuffled.
#[derive(Debug, Clone, Copy, PartialEq, Eq, Structural)]
pub enum RandomizeMode {
    Shuffle,
    Sequential,
}

/// The order of unshuffled content.
#[derive(Debug, Clone, Copy, PartialEq, Eq, Structural)]
pub enum SequencingMode {
    ByFilename,
    ByTimestamp,
}

/// How highlights are placed among the content.
#[derive(Debug, Clone, Copy, PartialEq, Eq, Structural)]
pub enum HighlightMode {
    SameAsContent,
    Random,
    Sequential,
}

impl Default for AdvanceMode {
    fn default() -> (mode: Self)
        ensures
            mode == AdvanceMode::Automatic,
    {
        AdvanceMode::Automatic
    }
}

impl Default for ResizeMode {
    fn default() -> (mode: Self)
        ensures
            mode == ResizeMode::ByLargestDimension,
    {
        ResizeMode::ByLargestDimension
    }
}

impl Default for StaggerMode {
    fn default() -> (mode: Self)
        ensures
            mode == StaggerMode::Staggered,
    {
        StaggerMode::Staggered
    }
}

impl Default for RandomizeMode {
    fn default() -> (mode: Self)
        ensures
            mode == RandomizeMode::Shuffle,
    {
        RandomizeMode::Shuffle
    }
}

impl Default for SequencingMode {
    fn default() -> (mode: Self)
        ensures
            mode == SequencingMode::ByFilename,
    {
        SequencingMode::ByFilename
    }
}

impl Default for HighlightMode {
    fn default() -> (mode: Self)
        ensures
            mode == HighlightMode::SameAsContent,
    {
        HighlightMode::SameAsContent
    }
}

/// How one playlist is played.
#[derive(Debug, Clone)]
pub struct PlaylistSettings {
    pub advance_mode: AdvanceMode,
    pub resize_mode: ResizeMode,
    /// The shuffle time, a single-precision number held as its IEEE 754
    /// bit pattern. The library stores it and never computes with it.
    pub shuffle_time_bits: u32,
    pub stagger_mode: StaggerMode,
    pub randomize_mode: RandomizeMode,
    pub sequencing_mode: SequencingMode,
    pub highlight_mode: HighlightMode,
    pub max_sequence_length: u32,
    pub highlight_frequency: u32,
}

/// The settings of a new playlist: the first mode of every kind, and zero
/// for every number.
pub open spec fn default_settings() -> PlaylistSettings {
    PlaylistSettings {
        advance_mode: AdvanceMode::Automatic,
        resize_mode: ResizeMode::ByLargestDimension,
        shuffle_time_bits: 0,
        stagger_mode: StaggerMode::Staggered,
        randomize_mode: RandomizeMode::Shuffle,
        sequencing_mode: SequencingMode::ByFilename,
        highlight_mode: HighlightMode::SameAsContent,
        max_sequence_length: 0,
        highlight_frequency: 0,
    }
}

impl Default for PlaylistSettings {
    fn default() -> (settings: Self)
        ensures
            settings == default_settings(),
    {
        PlaylistSettings {
            advance_mode: AdvanceMode::default(),
            resize_mode: ResizeMode::default(),
            shuffle_time_bits: 0,
            stagger_mode: StaggerMode::default(),
            randomize_mode: RandomizeMode::default(),
            sequencing_mode: SequencingMode::default(),
            highlight_mode: HighlightMode::default(),
            max_sequence_length: 0,
            highlight_frequency: 0,
        }
    }
}

/// A slidegrid playlist.
#[derive(Debug, Clone)]
pub struct Playlist {
    /// The file that the playlist was read from or last written to.
    pub path: Option<PathBuf>,
    pub grids: Vec<GridConfig>,
    /// Content image paths.
    pub content: Vec<PathBuf>,
    /// Highlight image paths.
    pub highlights: Vec<PathBuf>,
    pub settings: PlaylistSettings,
}

impl Default for Playlist {
    fn default() -> (playlist: Self)
        ensures
            playlist.is_blank(),
    {
        Playlist {
            path: None,
            grids: Vec::new(),
            content: Vec::new(),
            highlights: Vec::new(),
            settings: PlaylistSettings::default(),
        }
    }
}

impl Playlist {
    /// A playlist without a file, grids or images, with the default
    /// settings.
    pub open spec fn is_blank(&self) -> bool {
        &&& self.path is None
        &&& self.grids@ == Seq::<GridConfig>::empty()
        &&& self.content@ == Seq::<PathBuf>::empty()
        &&& self.highlights@ == Seq::<PathBuf>::empty()
        &&& self.settings == default_settings()
    }

    /// Creates a new empty playlist.
    pub fn new() -> (playlist: Self)
        ensures
            playlist.is_blank(),
    {
        Self::default()
    }

    /// Loads a playlist from a file. No playlist format is defined yet:
    /// every path is refused.
    pub fn load(_path: &PathBuf) -> (loaded: Result<Self, PlaylistError>)
        ensures
            loaded matches Err(PlaylistError::NotImplemented),
    {
        Err(PlaylistError::NotImplemented)
    }

    /// Saves the playlist to a file. No playlist format is defined yet:
    /// every path is refused.
    pub fn save(&self, _path: &PathBuf) -> (saved: Result<(), PlaylistError>)
        ensures
            saved matches Err(PlaylistError::NotImplemented),
    {
        Err(PlaylistError::NotImplemented)
    }

    /// Saves the playlist to the file it came from. A playlist without a
    /// file reports `NoPath`; with one, the outcome is that of `save`.
    pub fn save_current(&self) -> (saved: Result<(), PlaylistError>)
        ensures
            self.path is None ==> saved matches Err(PlaylistError::NoPath),
            self.path is Some ==> saved matches Err(PlaylistError::NotImplemented),
    {
        match &self.path {
            Some(path) => self.save(path),
            None => Err(PlaylistError::NoPath),
        }
    }
}

/// Why a playlist could not be read or written.
#[derive(Debug)]
pub enum PlaylistError {
    IoError(std::io::Error),
    ParseError(String),
    NoPath,
    NotImplemented,
}

impl PlaylistError {
    /// The error in words.
    pub fn message(&self) -> (text: String)
        ensures
            match self {
                PlaylistError::IoError(error) => is_io_error_message(*error, text@),
                PlaylistError::ParseError(detail) => text@ == "Parse error: "@ + detail@,
                PlaylistError::NoPath => text@ == "No playlist path set"@,
                PlaylistError::NotImplemented => text@ == "Not implemented"@,
            },
    {
        match self {
            PlaylistError::IoError(error) => describe_io_error(error),
            PlaylistError::ParseError(detail) => {
                let mut text = String::from_str("Parse error: ");
                text.append(detail.as_str());
                text
            },
            PlaylistError::NoPath => String::from_str("No playlist path set"),
            PlaylistError::NotImplemented => String::from_str("Not implemented"),
        }
    }
}

} // verus!
