//! The argument builder: maps an options record to the exact, ordered
//! argument vector for the external downloader, or to an error when the
//! medium flags contradict each other.

use vstd::prelude::*;

use crate::options::Cli;
use crate::options::MediumSelection;

verus! {

/// The builder's error: the options requested both audio-only and
/// video-only at once.
#[derive(Clone, Copy, Debug, PartialEq, Eq, Structural)]
pub enum BuildError {
    /// Both medium flags were set.
    ConflictingMediumSelection,
}

impl BuildError {
    /// The user-facing message for this error.
    pub fn message(&self) -> (r: String)
        ensures
            r@ == "You can only select one medium"@,
    {
        String::from_str("You can only select one medium")
    }
}

/// The view of each argument in turn: a sequence of character sequences.
pub open spec fn arg_views(s: Seq<String>) -> Seq<Seq<char>> {
    s.map_values(|a: String| a@)
}

/// The section directive's value: the literal pattern `*<start>-<end>`,
/// with both bounds taken verbatim.
pub open spec fn spec_section_directive(start: Seq<char>, end: Seq<char>) -> Seq<char> {
    "*"@ + start + "-"@ + end
}

/// The output directive's value: `<name>.%(ext)s`, keeping the downloader's
/// extension-substitution suffix literally.
pub open spec fn spec_output_template(name: Seq<char>) -> Seq<char> {
    name + ".%(ext)s"@
}

/// The medium-related arguments for these options. Empty for the default
/// medium without the preset; the conflicting case never reaches this far.
pub open spec fn spec_medium_args(c: Cli) -> Seq<Seq<char>> {
    match c.spec_medium_selection() {
        MediumSelection::AudioOnly => seq!["--extract-audio"@, "--audio-format"@, "wav"@],
        MediumSelection::VideoOnly => if c.defaults {
            seq!["--format"@, "bestvideo[aspect_ratio=1.78]"@, "--recode-video"@, "mp4"@]
        } else {
            seq!["--format"@, "bestvideo"@]
        },
        MediumSelection::Default => if c.defaults {
            seq![
                "--format"@,
                "bestvideo[aspect_ratio=1.78]+bestaudio"@,
                "--recode-video"@,
                "mp4"@,
            ]
        } else {
            Seq::empty()
        },
        MediumSelection::Conflict => Seq::empty(),
    }
}

/// The section-related arguments: the directive and its value, or nothing.
pub open spec fn spec_section_args(c: Cli) -> Seq<Seq<char>> {
    match c.section {
        Some(se) => seq!["--download-sections"@, spec_section_directive(se.0@, se.1@)],
        None => Seq::empty(),
    }
}

/// The output-related arguments: the directive and its value, or nothing.
pub open spec fn spec_output_args(c: Cli) -> Seq<Seq<char>> {
    match c.name {
        Some(n) => seq!["--output"@, spec_output_template(n@)],
        None => Seq::empty(),
    }
}

/// The whole argument vector, in its fixed order: the link first, then the
/// medium arguments, then the section arguments, then the output arguments.
pub open spec fn spec_args(c: Cli) -> Seq<Seq<char>> {
    seq![c.link@] + spec_medium_args(c) + spec_section_args(c) + spec_output_args(c)
}

/// Formats the section directive's value for the given bounds.
pub fn section_directive(start: &str, end: &str) -> (r: String)
    ensures
        r@ == spec_section_directive(start@, end@),
{
    let mut s = String::from_str("*");
    s.append(start);
    s.append("-");
    s.append(end);
    s
}

/// Formats the output directive's value for the given base name.
pub fn output_template(name: &str) -> (r: String)
    ensures
        r@ == spec_output_template(name@),
{
    let mut s = String::from_str(name);
    s.append(".%(ext)s");
    s
}

/// Builds the downloader's argument vector for the given options: exactly
/// `spec_args`, in its fixed order, unless both medium flags are set, in
/// which case no argument list is produced and the conflict is reported.
pub fn build_args(cli: &Cli) -> (r: Result<Vec<String>, BuildError>)
    ensures
        r is Err <==> (cli.audio_only && cli.video_only),
        r matches Err(e) ==> e == BuildError::ConflictingMediumSelection,
        r matches Ok(v) ==> arg_views(v@) == spec_args(*cli),
{
    let mut args: Vec<String> = Vec::new();
    args.push(cli.link.clone());
    match cli.medium_selection() {
        MediumSelection::Conflict => {
            return Err(BuildError::ConflictingMediumSelection);
        },
        MediumSelection::AudioOnly => {
            args.push(String::from_str("--extract-audio"));
            args.push(String::from_str("--audio-format"));
            args.push(String::from_str("wav"));
        },
        MediumSelection::VideoOnly => {
            if cli.defaults {
                args.push(String::from_str("--format"));
                args.push(String::from_str("bestvideo[aspect_ratio=1.78]"));
                args.push(String::from_str("--recode-video"));
                args.push(String::from_str("mp4"));
            } else {
                args.push(String::from_str("--format"));
                args.push(String::from_str("bestvideo"));
            }
        },
        MediumSelection::Default => {
            if cli.defaults {
                args.push(String::from_str("--format"));
                args.push(String::from_str("bestvideo[aspect_ratio=1.78]+bestaudio"));
                args.push(String::from_str("--recode-video"));
                args.push(String::from_str("mp4"));
            }
        },
    }
    match &cli.section {
        Some(se) => {
            args.push(String::from_str("--download-sections"));
            args.push(section_directive(se.0.as_str(), se.1.as_str()));
        },
        None => {},
    }
    match &cli.name {
        Some(n) => {
            args.push(String::from_str("--output"));
            args.push(output_template(n.as_str()));
        },
        None => {},
    }
    proof {
        assert(arg_views(args@) =~= spec_args(*cli));
    }
    Ok(args)
}

/// The builder is deterministic: `spec_args` pins the whole argument vector,
/// so any two results built from equal options agree element for element.
pub proof fn lemma_build_args_deterministic(c: Cli, r1: Seq<Seq<char>>, r2: Seq<Seq<char>>)
    requires
        r1 == spec_args(c),
        r2 == spec_args(c),
    ensures
        r1 == r2,
{
}

/// With exactly one medium flag set, the classification picks that medium's
/// branch, and the defaults flag never changes the audio-only arguments:
/// two options records that differ at most in `defaults` build the same
/// vector when audio-only is requested.
pub proof fn lemma_single_medium_branch(c1: Cli, c2: Cli)
    requires
        c1.audio_only != c1.video_only,
        c2.link == c1.link,
        c2.audio_only == c1.audio_only,
        c2.video_only == c1.video_only,
        c2.name == c1.name,
        c2.section == c1.section,
    ensures
        c1.audio_only ==> c1.spec_medium_selection() == MediumSelection::AudioOnly,
        c1.video_only ==> c1.spec_medium_selection() == MediumSelection::VideoOnly,
        c1.audio_only ==> spec_args(c1) == spec_args(c2),
{
}

} // verus!
