//! The version that a tool reports about itself, read from the first line
//! of its output, and the features that are there from some version on.

use crate::native_commands::Command;
use crate::text::{chars_of, find_word, nth_word, parse_u32, read_u32, scan, span, CharClass};
use vstd::prelude::*;
use vstd::string::*;

verus! {

/// The position, counted from zero, of the version among the words of the
/// first line: `<tool> version <major>.<minor> ...`.
pub const VERSION_WORD: usize = 2;

/// The version of a tool, as far as features are gated on it.
#[derive(Clone, Copy, Debug, PartialEq, Eq, Structural)]
pub struct ToolVersion {
    pub major: u32,
    pub minor: u32,
}

/// Why no version could be read from a tool's output.
#[derive(Clone, Copy, Debug, PartialEq, Eq, Structural)]
pub enum VersionParseError {
    /// The output is empty: it has no first line.
    NoOutput,
    /// The first line has no word at the version's position.
    NoVersionWord,
    /// The text before the first `.` of the version is no number.
    BadMajor,
    /// The version holds no `.`, so it has no second component.
    NoMinor,
    /// The text after the first `.`, up to the next one, is no number.
    BadMinor,
}

impl ToolVersion {
    /// Whether this version is `major.minor` or a later one.
    pub open spec fn is_at_least(self, major: u32, minor: u32) -> bool {
        self.major > major || (self.major == major && self.minor >= minor)
    }

    /// Whether this version is `major.minor` or a later one.
    pub fn at_least(&self, major: u32, minor: u32) -> (b: bool)
        ensures
            b == self.is_at_least(major, minor),
    {
        self.major > major || (self.major == major && self.minor >= minor)
    }

    /// Reads the version from the output of a tool's version flag.
    pub fn parse(output: &str) -> (version: Result<ToolVersion, VersionParseError>)
        ensures
            version == parse_version(output@),
    {
        let v = chars_of(output);
        if v.len() == 0 {
            return Err(VersionParseError::NoOutput);
        }
        let line_end = scan(&v, 0, v.len(), CharClass::Except('\n'));
        proof {
            assert(v@.subrange(0, v.len() as int) =~= v@);
            assert(v@.subrange(0, line_end as int) =~= v@.take(line_end as int));
        }
        let (start, end) = match find_word(&v, 0, line_end, VERSION_WORD) {
            Some(bounds) => bounds,
            None => { return Err(VersionParseError::NoVersionWord); },
        };
        let ghost word = v@.subrange(start as int, end as int);
        let major_end = scan(&v, start, end, CharClass::Except('.'));
        proof {
            assert(word.take(major_end - start) =~= v@.subrange(start as int, major_end as int));
        }
        let major = match read_u32(&v, start, major_end) {
            Some(major) => major,
            None => { return Err(VersionParseError::BadMajor); },
        };
        if major_end == end {
            return Err(VersionParseError::NoMinor);
        }
        let minor_end = scan(&v, major_end + 1, end, CharClass::Except('.'));
        proof {
            let rest = word.skip(major_end - start + 1);
            assert(rest =~= v@.subrange(major_end + 1, end as int));
            assert(rest.take(minor_end - (major_end + 1)) =~= v@.subrange(
                major_end + 1,
                minor_end as int,
            ));
        }
        match read_u32(&v, major_end + 1, minor_end) {
            Some(minor) => Ok(ToolVersion { major, minor }),
            None => Err(VersionParseError::BadMinor),
        }
    }
}

/// The first line of `output`, without the line feed that ends it; `None`
/// if `output` is empty. A carriage return before the line feed stays: it is
/// whitespace, and no word holds it.
pub open spec fn first_line(output: Seq<char>) -> Option<Seq<char>> {
    if output.len() == 0 {
        None
    } else {
        Some(output.take(span(output, CharClass::Except('\n')) as int))
    }
}

/// The version that the word `word` writes: the number before its first
/// `.`, and the number between that `.` and the next one or the end.
pub open spec fn parse_components(word: Seq<char>) -> Result<ToolVersion, VersionParseError> {
    let major_len = span(word, CharClass::Except('.'));
    match parse_u32(word.take(major_len as int)) {
        None => Err(VersionParseError::BadMajor),
        Some(major) => if major_len == word.len() {
            Err(VersionParseError::NoMinor)
        } else {
            let rest = word.skip(major_len as int + 1);
            match parse_u32(rest.take(span(rest, CharClass::Except('.')) as int)) {
                None => Err(VersionParseError::BadMinor),
                Some(minor) => Ok(ToolVersion { major, minor }),
            }
        },
    }
}

/// The version that `output` reports: the components of the word at
/// position [`VERSION_WORD`] of its first line.
pub open spec fn parse_version(output: Seq<char>) -> Result<ToolVersion, VersionParseError> {
    match first_line(output) {
        None => Err(VersionParseError::NoOutput),
        Some(line) => match nth_word(line, VERSION_WORD as nat) {
            None => Err(VersionParseError::NoVersionWord),
            Some(word) => parse_components(word),
        },
    }
}

/// What to take for the answer of a version probe when its output holds no
/// version that can be read.
#[derive(Clone, Copy, Debug, PartialEq, Eq, Structural)]
pub enum OnMalformedVersion {
    /// Fail.
    Fail,
    /// Go on as with an old tool: without the feature.
    Disable,
    /// Go on as with a new tool: with the feature.
    Enable,
}

/// Whether a tool has a feature that is there from the version `required`
/// on, judged from the standard output `stdout` of its version probe. The
/// feature is there if the major number is greater than the required one,
/// or the same with a minor number that is not smaller. A probe that
/// captured no output at all says that the feature is not there; output
/// without a readable version is settled by `policy`.
pub open spec fn feature_enabled(
    stdout: Option<Seq<char>>,
    required: ToolVersion,
    policy: OnMalformedVersion,
) -> Result<bool, VersionParseError> {
    match stdout {
        None => Ok(false),
        Some(text) => match parse_version(text) {
            Ok(version) => Ok(version.is_at_least(required.major, required.minor)),
            Err(reason) => match policy {
                OnMalformedVersion::Fail => Err(reason),
                OnMalformedVersion::Disable => Ok(false),
                OnMalformedVersion::Enable => Ok(true),
            },
        },
    }
}

/// Whether the tool whose finished version probe is `probe` has a feature
/// that is there from the version `required` on.
///
/// The exit status of the probe is not looked at: only what it wrote to
/// standard output counts.
pub fn probe_feature(probe: &Command, required: ToolVersion, policy: OnMalformedVersion) -> (answer:
    Result<bool, VersionParseError>)
    ensures
        answer == feature_enabled(probe@.stdout, required, policy),
{
    match probe.get_stdout() {
        None => Ok(false),
        Some(text) => match ToolVersion::parse(text.as_str()) {
            Ok(version) => Ok(version.at_least(required.major, required.minor)),
            Err(reason) => match policy {
                OnMalformedVersion::Fail => Err(reason),
                OnMalformedVersion::Disable => Ok(false),
                OnMalformedVersion::Enable => Ok(true),
            },
        },
    }
}

} // verus!
