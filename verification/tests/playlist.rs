use slidegrid::services::playlist::{
    AdvanceMode, GridConfig, HighlightMode, Playlist, PlaylistError, PlaylistSettings,
    RandomizeMode, ResizeMode, SequencingMode, StaggerMode,
};
use std::path::PathBuf;

#[test]
fn new_playlist_is_blank() {
    let playlist = Playlist::new();
    assert!(playlist.path.is_none());
    assert!(playlist.grids.is_empty());
    assert!(playlist.content.is_empty());
    assert!(playlist.highlights.is_empty());
    assert_eq!(playlist.settings.advance_mode, AdvanceMode::Automatic);
    assert_eq!(playlist.settings.max_sequence_length, 0);
}

#[test]
fn default_playlist_is_blank() {
    let playlist = Playlist::default();
    assert!(playlist.path.is_none());
    assert!(playlist.grids.is_empty());
    assert!(playlist.content.is_empty());
    assert!(playlist.highlights.is_empty());
}

#[test]
fn default_settings_take_the_first_mode_and_zero() {
    let settings = PlaylistSettings::default();
    assert_eq!(settings.advance_mode, AdvanceMode::Automatic);
    assert_eq!(settings.resize_mode, ResizeMode::ByLargestDimension);
    assert_eq!(settings.shuffle_time_bits, 0);
    assert_eq!(f32::from_bits(settings.shuffle_time_bits), 0.0);
    assert_eq!(settings.stagger_mode, StaggerMode::Staggered);
    assert_eq!(settings.randomize_mode, RandomizeMode::Shuffle);
    assert_eq!(settings.sequencing_mode, SequencingMode::ByFilename);
    assert_eq!(settings.highlight_mode, HighlightMode::SameAsContent);
    assert_eq!(settings.max_sequence_length, 0);
    assert_eq!(settings.highlight_frequency, 0);
}

#[test]
fn default_modes() {
    assert_eq!(AdvanceMode::default(), AdvanceMode::Automatic);
    assert_eq!(ResizeMode::default(), ResizeMode::ByLargestDimension);
    assert_eq!(StaggerMode::default(), StaggerMode::Staggered);
    assert_eq!(RandomizeMode::default(), RandomizeMode::Shuffle);
    assert_eq!(SequencingMode::default(), SequencingMode::ByFilename);
    assert_eq!(HighlightMode::default(), HighlightMode::SameAsContent);
}

#[test]
fn load_is_not_implemented() {
    assert!(matches!(
        Playlist::load(&PathBuf::from("/shows/holiday.playlist")),
        Err(PlaylistError::NotImplemented)
    ));
    assert!(matches!(Playlist::load(&PathBuf::new()), Err(PlaylistError::NotImplemented)));
}

#[test]
fn save_is_not_implemented() {
    let mut playlist = Playlist::new();
    assert!(matches!(
        playlist.save(&PathBuf::from("/shows/holiday.playlist")),
        Err(PlaylistError::NotImplemented)
    ));
    playlist.grids.push(GridConfig { x: 0, y: 0, width: 1920, height: 1080 });
    playlist.content.push(PathBuf::from("/pictures/cat.png"));
    assert!(matches!(
        playlist.save(&PathBuf::from("relative.playlist")),
        Err(PlaylistError::NotImplemented)
    ));
}

#[test]
fn save_current_without_a_path_reports_no_path() {
    let playlist = Playlist::new();
    assert!(matches!(playlist.save_current(), Err(PlaylistError::NoPath)));
}

#[test]
fn save_current_with_a_path_is_not_implemented() {
    let mut playlist = Playlist::new();
    playlist.path = Some(PathBuf::from("/shows/holiday.playlist"));
    assert!(matches!(playlist.save_current(), Err(PlaylistError::NotImplemented)));
}

#[test]
fn playlist_clone_keeps_the_fields() {
    let mut playlist = Playlist::new();
    playlist.path = Some(PathBuf::from("/shows/holiday.playlist"));
    playlist.grids.push(GridConfig { x: -5, y: 7, width: 640, height: 480 });
    playlist.highlights.push(PathBuf::from("/pictures/best.png"));
    playlist.settings.stagger_mode = StaggerMode::Off;
    playlist.settings.shuffle_time_bits = 2.5f32.to_bits();
    let copy = playlist.clone();
    assert_eq!(copy.path, Some(PathBuf::from("/shows/holiday.playlist")));
    assert_eq!(copy.grids.len(), 1);
    assert_eq!(copy.grids[0].x, -5);
    assert_eq!(copy.grids[0].y, 7);
    assert_eq!(copy.grids[0].width, 640);
    assert_eq!(copy.grids[0].height, 480);
    assert_eq!(copy.highlights, vec![PathBuf::from("/pictures/best.png")]);
    assert_eq!(copy.settings.stagger_mode, StaggerMode::Off);
    assert_eq!(f32::from_bits(copy.settings.shuffle_time_bits), 2.5);
}

#[test]
fn playlist_error_messages() {
    assert_eq!(PlaylistError::NotImplemented.message(), "Not implemented");
    assert_eq!(PlaylistError::NoPath.message(), "No playlist path set");
    assert_eq!(
        PlaylistError::ParseError(String::from("line 3")).message(),
        "Parse error: line 3"
    );
    let failure = std::io::Error::new(std::io::ErrorKind::PermissionDenied, "read only");
    assert_eq!(PlaylistError::IoError(failure).message(), "I/O error: read only");
}
