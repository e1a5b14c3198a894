//! The services behind the window: playback, playlists and settings.

use vstd::prelude::*;
use vstd::string::*;

pub mod playback;
pub mod playlist;
pub mod settings;

verus! {

/// Whether `text` is the message of the I/O failure `error`: the label
/// `I/O error: `, followed by the words in which `error` describes itself.
pub open spec fn is_io_error_message(error: std::io::Error, text: Seq<char>) -> bool {
    exists|detail: String|
        #[trigger] to_string_from_display_ensures::<std::io::Error>(&error, detail)
            && text == "I/O error: "@ + detail@
}

/// The message of an I/O failure that describes itself as `detail`.
pub fn io_error_message(detail: &str) -> (text: String)
    ensures
        text@ == "I/O error: "@ + detail@,
{
    let mut text = String::from_str("I/O error: ");
    text.append(detail);
    text
}

/// The message of the I/O failure `error`. The words after the label are
/// those of the standard library and the platform.
pub fn describe_io_error(error: &std::io::Error) -> (text: String)
    ensures
        is_io_error_message(*error, text@),
{
    let detail = error.to_string();
    io_error_message(detail.as_str())
}

} // verus!
