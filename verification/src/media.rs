//! What a file is served as: its content type, told from the extension of
//! its path, and the name it is offered under.

use crate::statement::opt_text_of;
use crate::text::same_text;
use vstd::prelude::*;

verus! {

/// The content type of a file whose kind is not known.
pub const OCTET_STREAM: &'static str = "application/octet-stream";

/// The lower-case form of a text, as `str::to_lowercase` gives it.
pub uninterp spec fn lowercased(text: Seq<char>) -> Seq<char>;

/// The lower-case form of `text`, through `str::to_lowercase`.
#[verifier::external_body]
fn to_lowercase(text: &str) -> (lower: String)
    ensures
        lower@ == lowercased(text@),
{
    text.to_lowercase()
}

/// The extension of the file that `path` names, through
/// `std::path::Path::extension`, where the path has one that is valid
/// Unicode. How a path is taken apart depends on the platform, so nothing
/// is promised of the result.
#[verifier::external_body]
fn extension_of(path: &str) -> (extension: Option<String>) {
    Some(std::path::Path::new(path).extension()?.to_str()?.to_string())
}

/// The name of the file that `path` names, through
/// `std::path::Path::file_name`, where the path has one that is valid
/// Unicode. How a path is taken apart depends on the platform, so nothing
/// is promised of the result.
#[verifier::external_body]
fn file_name_of(path: &str) -> (name: Option<String>) {
    Some(std::path::Path::new(path).file_name()?.to_str()?.to_string())
}

/// The content type of an audio file with the lower-case extension
/// `extension`.
pub open spec fn audio_type(extension: Seq<char>) -> Seq<char> {
    if extension == "mp3"@ {
        "audio/mpeg"@
    } else if extension == "flac"@ {
        "audio/flac"@
    } else if extension == "wav"@ {
        "audio/wav"@
    } else if extension == "ogg"@ {
        "audio/ogg"@
    } else if extension == "m4a"@ {
        "audio/mp4"@
    } else {
        OCTET_STREAM@
    }
}

/// The content type of an audio file with the extension `extension`, in
/// whatever case it is written; of a file without extension, that of a file
/// of unknown kind.
pub open spec fn mime_type(extension: Option<Seq<char>>) -> Seq<char> {
    match extension {
        Some(e) => audio_type(lowercased(e)),
        None => OCTET_STREAM@,
    }
}

/// The content type of an audio file with the lower-case extension
/// `extension`.
pub fn audio_type_of(extension: &str) -> (mime: &'static str)
    ensures
        mime@ == audio_type(extension@),
{
    if same_text(extension, "mp3") {
        "audio/mpeg"
    } else if same_text(extension, "flac") {
        "audio/flac"
    } else if same_text(extension, "wav") {
        "audio/wav"
    } else if same_text(extension, "ogg") {
        "audio/ogg"
    } else if same_text(extension, "m4a") {
        "audio/mp4"
    } else {
        OCTET_STREAM
    }
}

/// The content type of an audio file with the extension `extension`, in
/// whatever case it is written.
pub fn mime_type_of(extension: Option<&str>) -> (mime: &'static str)
    ensures
        mime@ == mime_type(
            match extension {
                Some(e) => Some(e@),
                None => None,
            },
        ),
{
    match extension {
        Some(e) => {
            let lower = to_lowercase(e);
            audio_type_of(lower.as_str())
        },
        None => OCTET_STREAM,
    }
}

/// The content type that the audio file at `path` is served as, told from
/// the extension of the path.
pub fn path_to_mime_type(path: &str) -> (mime: &'static str)
    ensures
        exists|extension: Option<Seq<char>>| mime@ == mime_type(extension),
{
    let extension = extension_of(path);
    match &extension {
        Some(e) => {
            let mime = mime_type_of(Some(e.as_str()));
            assert(mime@ == mime_type(Some(e@)));
            mime
        },
        None => {
            let mime = mime_type_of(None);
            assert(mime@ == mime_type(None));
            mime
        },
    }
}

/// The content type of a download with the extension `extension`, which is
/// compared as it is written.
pub open spec fn download_type(extension: Option<Seq<char>>) -> Seq<char> {
    match extension {
        Some(e) => if e == "txt"@ {
            "text/plain"@
        } else if e == "pdf"@ {
            "application/pdf"@
        } else if e == "jpg"@ || e == "jpeg"@ {
            "image/jpeg"@
        } else if e == "png"@ {
            "image/png"@
        } else if e == "mp3"@ {
            "audio/mpeg"@
        } else {
            OCTET_STREAM@
        },
        None => OCTET_STREAM@,
    }
}

/// The content type of a download with the extension `extension`.
pub fn download_type_of(extension: Option<&str>) -> (mime: &'static str)
    ensures
        mime@ == download_type(
            match extension {
                Some(e) => Some(e@),
                None => None,
            },
        ),
{
    match extension {
        Some(e) => {
            if same_text(e, "txt") {
                "text/plain"
            } else if same_text(e, "pdf") {
                "application/pdf"
            } else if same_text(e, "jpg") || same_text(e, "jpeg") {
                "image/jpeg"
            } else if same_text(e, "png") {
                "image/png"
            } else if same_text(e, "mp3") {
                "audio/mpeg"
            } else {
                OCTET_STREAM
            }
        },
        None => OCTET_STREAM,
    }
}

/// Whether a file with the extension `extension` is taken in as a track
/// when a directory is read: a file without extension is, and so is one
/// whose extension is exactly `mp3`.
pub fn is_resource(extension: Option<&str>) -> (taken: bool)
    ensures
        taken == match extension {
            Some(e) => e@ == "mp3"@,
            None => true,
        },
{
    match extension {
        Some(e) => same_text(e, "mp3"),
        None => true,
    }
}

/// The name under which a download is offered when its path names no file.
pub const UNNAMED: &'static str = "unknown";

/// The name under which a download is offered: the name of the file where
/// the path names one, and [`UNNAMED`] otherwise.
pub open spec fn offered(found: Option<Seq<char>>) -> Seq<char> {
    match found {
        Some(name) => name,
        None => UNNAMED@,
    }
}

/// The name under which a download is offered, given the file name that
/// was found in its path.
pub fn offered_name(found: Option<String>) -> (name: String)
    ensures
        name@ == offered(opt_text_of(found)),
{
    match found {
        Some(name) => name,
        None => String::from_str(UNNAMED),
    }
}

/// The name and the content type under which the file at `path` is offered
/// for download: the name is [`offered`] of the file name of the path, the
/// content type is [`download_type`] of its extension.
pub fn download_headers(path: &str) -> (headers: (String, &'static str))
    ensures
        exists|found: Option<Seq<char>>| headers.0@ == offered(found),
        exists|extension: Option<Seq<char>>| headers.1@ == download_type(extension),
{
    let found = file_name_of(path);
    let ghost found_text = opt_text_of(found);
    let name = offered_name(found);
    assert(name@ == offered(found_text));
    let extension = extension_of(path);
    let mime = match &extension {
        Some(e) => {
            let mime = download_type_of(Some(e.as_str()));
            assert(mime@ == download_type(Some(e@)));
            mime
        },
        None => {
            let mime = download_type_of(None);
            assert(mime@ == download_type(None));
            mime
        },
    };
    (name, mime)
}

} // verus!
