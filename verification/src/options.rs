//! The options record and the medium classification derived from it.

use vstd::prelude::*;

verus! {

/// One invocation's parsed command-line options: the link to fetch and the
/// optional modifiers. Immutable once constructed; the two medium flags may
/// contradict each other, which the builder rejects.
pub struct Cli {
    /// The resource identifier handed to the downloader, not validated here.
    pub link: String,
    /// Request an audio-only download.
    pub audio_only: bool,
    /// Request a video-only download.
    pub video_only: bool,
    /// Request the fixed quality preset (16:9 aspect ratio, mp4 container).
    pub defaults: bool,
    /// Output base filename, without extension.
    pub name: Option<String>,
    /// Time-range bounds, start and end, passed through verbatim.
    pub section: Option<(String, String)>,
}

/// The medium classification derived from the two medium flags.
#[derive(Clone, Copy, Debug, PartialEq, Eq, Structural)]
pub enum MediumSelection {
    /// Neither medium flag set: the downloader's own default applies.
    Default,
    /// Only `audio_only` set.
    AudioOnly,
    /// Only `video_only` set.
    VideoOnly,
    /// Both medium flags set: a contradiction.
    Conflict,
}

impl Cli {
    /// What the medium classification of these options is.
    pub open spec fn spec_medium_selection(&self) -> MediumSelection {
        if self.audio_only && self.video_only {
            MediumSelection::Conflict
        } else if self.audio_only {
            MediumSelection::AudioOnly
        } else if self.video_only {
            MediumSelection::VideoOnly
        } else {
            MediumSelection::Default
        }
    }

    /// Classifies the medium selection from the two medium flags.
    pub fn medium_selection(&self) -> (m: MediumSelection)
        ensures
            m == self.spec_medium_selection(),
    {
        if self.audio_only && self.video_only {
            return MediumSelection::Conflict;
        }
        if self.audio_only {
            return MediumSelection::AudioOnly;
        }
        if self.video_only {
            return MediumSelection::VideoOnly;
        }
        MediumSelection::Default
    }
}

} // verus!
