//! Application settings: what the program remembers between playlists.

use std::path::PathBuf;
use vstd::prelude::*;
use vstd::string::*;
use crate::platform::{join_path, joined_path, paths_equal, same_path, user_config_dir};
use crate::services::{describe_io_error, is_io_error_message};

verus! {

/// How many recent playlists are remembered unless the user says otherwise.
pub const DEFAULT_MAX_RECENT: usize = 10;

/// Position and size of the main window.
#[derive(Debug, Clone, Copy)]
pub struct WindowGeometry {
    pub x: i32,
    pub y: i32,
    pub width: u32,
    pub height: u32,
}

/// Application-wide settings, as opposed to those of one playlist.
#[derive(Debug, Clone)]
pub struct AppSettings {
    /// Last used directory for file dialogs.
    pub last_directory: Option<PathBuf>,
    /// Recently opened playlists, the most recent first.
    pub recent_playlists: Vec<PathBuf>,
    /// Maximum number of recent playlists to remember.
    pub max_recent: usize,
    pub window_geometry: Option<WindowGeometry>,
}

/// `recent` without the entries that are the same path as `path`.
pub open spec fn without_path(recent: Seq<PathBuf>, path: PathBuf) -> Seq<PathBuf> {
    recent.filter(|entry: PathBuf| !same_path(entry, path))
}

/// The list of recent playlists after `path` was opened: `path` in front,
/// then the other entries in the order they had, cut to `max` entries.
pub open spec fn recent_after(recent: Seq<PathBuf>, path: PathBuf, max: nat) -> Seq<PathBuf> {
    let all = seq![path] + without_path(recent, path);
    if max < all.len() {
        all.take(max as int)
    } else {
        all
    }
}

/// No entry of `recent` is the same path as an entry before it.
pub open spec fn no_repeats(recent: Seq<PathBuf>) -> bool {
    forall|i: int, j: int|
        0 <= i < j < recent.len() ==> !same_path(#[trigger] recent[j], #[trigger] recent[i])
}

/// `positions` walks through `whole` from left to right and finds the
/// entries of `part` there, one after another.
pub open spec fn picks<T>(positions: Seq<int>, part: Seq<T>, whole: Seq<T>) -> bool {
    &&& positions.len() == part.len()
    &&& forall|k: int|
        0 <= k < positions.len() ==> 0 <= #[trigger] positions[k] < whole.len()
            && whole[positions[k]] == part[k]
    &&& forall|k: int, l: int|
        0 <= k < l < positions.len() ==> #[trigger] positions[k] < #[trigger] positions[l]
}

/// `part` is what is left of `whole` when some entries are taken out: the
/// entries that stay keep their order.
pub open spec fn is_subsequence<T>(part: Seq<T>, whole: Seq<T>) -> bool {
    exists|positions: Seq<int>| picks(positions, part, whole)
}

/// Taking a path out of a list leaves the other entries where they were,
/// relative to each other. The result says where each one stood.
pub proof fn lemma_without_path_picks(recent: Seq<PathBuf>, path: PathBuf) -> (positions: Seq<int>)
    ensures
        picks(positions, without_path(recent, path), recent),
    decreases recent.len(),
{
    reveal(Seq::filter);
    if recent.len() == 0 {
        Seq::empty()
    } else {
        let earlier = lemma_without_path_picks(recent.drop_last(), path);
        if same_path(recent.last(), path) {
            earlier
        } else {
            earlier.push(recent.len() - 1)
        }
    }
}

/// The list never grows beyond `max` entries.
pub proof fn lemma_recent_is_bounded(recent: Seq<PathBuf>, path: PathBuf, max: nat)
    ensures
        recent_after(recent, path, max).len() <= max,
        recent_after(recent, path, max).len() <= recent.len() + 1,
{
    recent.lemma_filter_len(|entry: PathBuf| !same_path(entry, path));
}

/// The path that was opened last stands first, unless no entry is kept at
/// all.
pub proof fn lemma_recent_starts_with_path(recent: Seq<PathBuf>, path: PathBuf, max: nat)
    ensures
        max == 0 ==> recent_after(recent, path, max).len() == 0,
        max > 0 ==> recent_after(recent, path, max).len() > 0,
        max > 0 ==> recent_after(recent, path, max)[0] == path,
{
}

/// The path that was opened stands in the list once: no entry behind the
/// first is the same path.
pub proof fn lemma_recent_holds_path_once(recent: Seq<PathBuf>, path: PathBuf, max: nat)
    ensures
        forall|i: int|
            1 <= i < recent_after(recent, path, max).len() ==> !same_path(
                #[trigger] recent_after(recent, path, max)[i],
                path,
            ),
{
    let after = recent_after(recent, path, max);
    assert forall|i: int| 1 <= i < after.len() implies !same_path(#[trigger] after[i], path) by {
        // after[i] is entry i - 1 of what was kept, and every kept entry differs from `path`
        recent.lemma_filter_pred(|entry: PathBuf| !same_path(entry, path), i - 1);
    }
}

/// Behind the first entry stand entries of the old list, in the order they
/// had there.
pub proof fn lemma_recent_keeps_order(recent: Seq<PathBuf>, path: PathBuf, max: nat)
    ensures
        ({
            let after = recent_after(recent, path, max);
            after.len() > 0 ==> is_subsequence(after.subrange(1, after.len() as int), recent)
        }),
{
    let after = recent_after(recent, path, max);
    if after.len() > 0 {
        let rest = after.subrange(1, after.len() as int);
        let positions = lemma_without_path_picks(recent, path);
        // `rest` is the front of what was kept, so the first positions find it
        assert(rest == without_path(recent, path).take(rest.len() as int));
        assert(picks(positions.take(rest.len() as int), rest, recent));
    }
}

/// A list without repeated paths stays without them.
pub proof fn lemma_recent_stays_without_repeats(recent: Seq<PathBuf>, path: PathBuf, max: nat)
    requires
        no_repeats(recent),
    ensures
        no_repeats(recent_after(recent, path, max)),
{
    let after = recent_after(recent, path, max);
    let kept = without_path(recent, path);
    let positions = lemma_without_path_picks(recent, path);
    assert forall|i: int, j: int| 0 <= i < j < after.len() implies !same_path(
        #[trigger] after[j],
        #[trigger] after[i],
    ) by {
        if i == 0 {
            // after[0] is `path`, and every kept entry differs from it
            recent.lemma_filter_pred(|entry: PathBuf| !same_path(entry, path), j - 1);
        } else {
            // both are kept entries, and they stood in this order in `recent`
            assert(kept[i - 1] == recent[positions[i - 1]]);
            assert(kept[j - 1] == recent[positions[j - 1]]);
        }
    }
}

/// Takes every entry that is the same path as `path` out of `recent`.
fn remove_path(recent: &mut Vec<PathBuf>, path: &PathBuf)
    ensures
        final(recent)@ == without_path(old(recent)@, *path),
{
    let ghost before = recent@;
    let mut at: usize = 0;
    // Of `before`, the first `seen` entries have been looked at: those that
    // stay are the first `at` entries of `recent`, the rest follows unread.
    while at < recent.len()
        invariant
            at <= recent@.len() <= before.len(),
            recent@.take(at as int) == without_path(
                before.take(before.len() - recent@.len() + at),
                *path,
            ),
            recent@.skip(at as int) == before.skip(before.len() - recent@.len() + at),
        decreases recent@.len() - at,
    {
        proof {
            let seen = before.len() - recent@.len() + at;
            assert(recent@[at as int] == recent@.skip(at as int)[0]);
            assert(before.take(seen + 1) == before.take(seen).push(before[seen]));
            assert(before.skip(seen + 1) == before.skip(seen).skip(1));
            before.take(seen).lemma_filter_push(
                before[seen],
                |entry: PathBuf| !same_path(entry, *path),
            );
        }
        if paths_equal(&recent[at], path) {
            let _ = recent.remove(at);
        } else {
            at = at + 1;
        }
    }
    assert(before.take(before.len() as int) == before);
}

impl Default for AppSettings {
    fn default() -> (settings: Self)
        ensures
            settings.is_default(),
    {
        AppSettings {
            last_directory: None,
            recent_playlists: Vec::new(),
            max_recent: DEFAULT_MAX_RECENT,
            window_geometry: None,
        }
    }
}

impl AppSettings {
    /// The settings of a first start: nothing remembered, room for ten
    /// recent playlists.
    pub open spec fn is_default(&self) -> bool {
        &&& self.last_directory is None
        &&& self.recent_playlists@ == Seq::<PathBuf>::empty()
        &&& self.max_recent == DEFAULT_MAX_RECENT
        &&& self.window_geometry is None
    }

    /// Puts `path` in front of the recent playlists, takes out the entries
    /// that are the same path, and drops what exceeds `max_recent`.
    pub fn add_recent(&mut self, path: PathBuf)
        ensures
            final(self).recent_playlists@ == recent_after(
                old(self).recent_playlists@,
                path,
                old(self).max_recent as nat,
            ),
            final(self).last_directory == old(self).last_directory,
            final(self).max_recent == old(self).max_recent,
            final(self).window_geometry == old(self).window_geometry,
    {
        remove_path(&mut self.recent_playlists, &path);
        self.recent_playlists.insert(0, path);
        assert(self.recent_playlists@ == seq![path] + without_path(
            old(self).recent_playlists@,
            path,
        ));
        self.recent_playlists.truncate(self.max_recent);
    }

    /// The settings file below the configuration directory `dir`.
    pub open spec fn settings_file_in(dir: PathBuf) -> PathBuf {
        joined_path(joined_path(dir, "slidegrid"@), "settings.json"@)
    }

    /// The settings file for a user whose configuration directory is `dir`;
    /// `NoConfigDir` for a user without one.
    pub fn config_path_in(dir: Option<PathBuf>) -> (path: Result<PathBuf, SettingsError>)
        ensures
            match dir {
                Some(dir) => path matches Ok(file) && file == Self::settings_file_in(dir),
                None => path matches Err(SettingsError::NoConfigDir),
            },
    {
        match dir {
            Some(dir) => {
                let folder = join_path(&dir, "slidegrid");
                Ok(join_path(&folder, "settings.json"))
            },
            None => Err(SettingsError::NoConfigDir),
        }
    }

    /// The settings file of the current user. Where the platform names no
    /// configuration directory the error is `NoConfigDir`; `config_path_in`
    /// says which file belongs to which directory.
    pub fn config_path() -> (path: Result<PathBuf, SettingsError>)
        ensures
            match path {
                Ok(file) => exists|dir: PathBuf| file == Self::settings_file_in(dir),
                Err(error) => error is NoConfigDir,
            },
    {
        Self::config_path_in(user_config_dir())
    }

    /// Loads the settings from the default location. A user without a
    /// configuration directory gets `NoConfigDir`, any other the outcome of
    /// `load_from`; `load_in` says which outcome belongs to which directory.
    pub fn load() -> (loaded: Result<Self, SettingsError>)
        ensures
            match loaded {
                Ok(settings) => settings.is_default(),
                Err(error) => error is NoConfigDir,
            },
    {
        Self::load_in(user_config_dir())
    }

    /// Loads the settings of a user whose configuration directory is `dir`:
    /// the outcome of `load_from` on the settings file below `dir`, and
    /// `NoConfigDir` for a user without a configuration directory.
    pub fn load_in(dir: Option<PathBuf>) -> (loaded: Result<Self, SettingsError>)
        ensures
            match dir {
                Some(_) => loaded matches Ok(settings) && settings.is_default(),
                None => loaded matches Err(SettingsError::NoConfigDir),
            },
    {
        match Self::config_path_in(dir) {
            Ok(path) => Self::load_from(&path),
            Err(error) => Err(error),
        }
    }

    /// Loads the settings from `path`. No settings format is read yet:
    /// every path yields the default settings.
    pub fn load_from(_path: &PathBuf) -> (loaded: Result<Self, SettingsError>)
        ensures
            loaded matches Ok(settings) && settings.is_default(),
    {
        Ok(Self::default())
    }

    /// Saves the settings to the default location. A user without a
    /// configuration directory gets `NoConfigDir`, any other the outcome of
    /// `save_to`.
    pub fn save(&self) -> (saved: Result<(), SettingsError>)
        ensures
            saved matches Err(error) && (error is NoConfigDir || error is NotImplemented),
    {
        match Self::config_path() {
            Ok(path) => self.save_to(&path),
            Err(error) => Err(error),
        }
    }

    /// Saves the settings to `path`. No settings format is written yet:
    /// every call is refused.
    pub fn save_to(&self, _path: &PathBuf) -> (saved: Result<(), SettingsError>)
        ensures
            saved matches Err(SettingsError::NotImplemented),
    {
        Err(SettingsError::NotImplemented)
    }
}

/// Why the settings could not be read or written.
#[derive(Debug)]
pub enum SettingsError {
    IoError(std::io::Error),
    ParseError(String),
    NoConfigDir,
    NotImplemented,
}

impl SettingsError {
    /// The error in words.
    pub fn message(&self) -> (text: String)
        ensures
            match self {
                SettingsError::IoError(error) => is_io_error_message(*error, text@),
                SettingsError::ParseError(detail) => text@ == "Parse error: "@ + detail@,
                SettingsError::NoConfigDir => text@ == "Could not find config directory"@,
                SettingsError::NotImplemented => text@ == "Not implemented"@,
            },
    {
        match self {
            SettingsError::IoError(error) => describe_io_error(error),
            SettingsError::ParseError(detail) => {
                let mut text = String::from_str("Parse error: ");
                text.append(detail.as_str());
                text
            },
            SettingsError::NoConfigDir => String::from_str("Could not find config directory"),
            SettingsError::NotImplemented => String::from_str("Not implemented"),
        }
    }
}

} // verus!
