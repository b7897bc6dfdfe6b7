//! The file reference that names the manifest to play: a remote URL or a
//! local path.
//!
//! Classification is total: a string that parses as a URL is `Url`, any
//! other string is kept verbatim as a `Path`. Each variant derives an
//! optional display name, used to seed the output file's base name.

use vstd::prelude::*;
use vstd::string::StrSliceExecFns;
use vstd::string::StringExecFns;

use crate::text::{after_last, before_first, head_until, tail_from_last};
use crate::text::find_last;

verus! {

/// Whether `url::Url::parse` accepts the string.
pub uninterp spec fn url_accepted(s: Seq<char>) -> bool;

/// The canonical serialization that `url::Url::as_str` gives for the
/// URL parsed from the string.
pub uninterp spec fn url_rendered(s: Seq<char>) -> Seq<char>;

/// The path segments that `url::Url::path_segments` gives for the URL
/// parsed from the string; `None` for URLs that cannot be a base.
pub uninterp spec fn url_path_segments(s: Seq<char>) -> Option<Seq<Seq<char>>>;

/// The parts of a parsed URL that this crate reads: its canonical
/// serialization, and its path segments when it has a path.
#[derive(Debug, Clone, PartialEq)]
pub struct UrlParts {
    pub rendered: String,
    pub segments: Option<Vec<String>>,
}

/// Relies on `url::Url::parse` for whether the string is a syntactically
/// valid URL, on `url::Url::as_str` for the canonical serialization of the
/// parsed URL, and on `url::Url::path_segments` for its path split at `/`
/// (absent for cannot-be-a-base URLs). All three are functions of the input
/// string alone.
#[verifier::external_body]
fn parse_url(s: &str) -> (r: Option<UrlParts>)
    ensures
        r is Some <==> url_accepted(s@),
        match r {
            Some(p) => {
                &&& p.rendered@ == url_rendered(s@)
                &&& p.segments.deep_view() == url_path_segments(s@)
            },
            None => true,
        },
{
    match url::Url::parse(s) {
        Ok(u) => {
            let segments = u.path_segments().map(|parts| parts.map(str::to_string).collect());
            Some(UrlParts { rendered: u.as_str().to_string(), segments })
        },
        Err(_) => None,
    }
}

/// A reference to the manifest file: a remote URL or a local path.
#[derive(Debug, Clone, PartialEq)]
pub enum File {
    Url(UrlParts),
    Path(String),
}

/// The display name derived from a URL's path segments: the last segment,
/// with everything from its first `.` on stripped; absent when there are
/// no segments or the last segment is empty.
pub open spec fn spec_remote_name(segments: Option<Seq<Seq<char>>>) -> Option<Seq<char>> {
    match segments {
        Some(segs) => {
            if segs.len() == 0 || segs.last().len() == 0 {
                None
            } else {
                Some(before_first(segs.last(), '.'))
            }
        },
        None => None,
    }
}

/// The file stem of a non-empty file name: the part before the last `.`,
/// except that a `.` in the leading position never counts as an extension
/// separator.
pub open spec fn spec_stem(name: Seq<char>) -> Seq<char>
    recommends
        name.len() > 0,
{
    match name.skip(1).index_of_last('.') {
        Some(i) => name.take(i + 1),
        None => name,
    }
}

/// Whether the path ends with something its file name does not include:
/// a `/` separator, or a current-directory `.` component.
pub open spec fn spec_trims_away(s: Seq<char>) -> bool {
    s.len() > 0 && (s.last() == '/' || (s.len() == 1 && s.last() == '.') || (s.len() >= 2
        && s.last() == '.' && s[s.len() - 2] == '/'))
}

/// The path with its trailing `/` separators and `.` components removed,
/// so that it ends with the last component its file name comes from.
pub open spec fn spec_trim_path(s: Seq<char>) -> Seq<char>
    decreases s.len(),
{
    if spec_trims_away(s) {
        spec_trim_path(s.drop_last())
    } else {
        s
    }
}

/// The display name derived from a local path: the file stem of the last
/// path component, where trailing `/` separators and `.` components are
/// skipped; absent when no component remains or the last one is `..`.
/// Paths use `/` as the separator.
pub open spec fn spec_local_name(path: Seq<char>) -> Option<Seq<char>> {
    let name = after_last(spec_trim_path(path), '/');
    if name.len() == 0 || (name.len() == 2 && name[0] == '.' && name[1] == '.') {
        None
    } else {
        Some(spec_stem(name))
    }
}

/// Whether the last of the first `e` characters of the path ends a `/`
/// separator or a `.` component.
fn trims_away(s: &str, e: usize) -> (r: bool)
    requires
        e <= s@.len(),
    ensures
        r == spec_trims_away(s@.take(e as int)),
{
    if e == 0 {
        return false;
    }
    proof {
        assert(s@.take(e as int).last() == s@[e as int - 1]);
    }
    let c = s.get_char(e - 1);
    if c == '/' {
        return true;
    }
    if c == '.' {
        if e == 1 {
            return true;
        }
        proof {
            assert(s@.take(e as int)[e as int - 2] == s@[e as int - 2]);
        }
        return s.get_char(e - 2) == '/';
    }
    false
}

/// Cut the trailing `/` separators and `.` components off a path, as a
/// slice of it.
fn trim_path<'a>(s: &'a str) -> (r: &'a str)
    ensures
        r@ == spec_trim_path(s@),
{
    let n = s.unicode_len();
    proof {
        assert(s@.take(n as int) =~= s@);
    }
    let mut e = n;
    while trims_away(s, e)
        invariant
            e <= n,
            n == s@.len(),
            spec_trim_path(s@) == spec_trim_path(s@.take(e as int)),
        decreases e,
    {
        proof {
            assert(s@.take(e as int).drop_last() =~= s@.take(e as int - 1));
        }
        e -= 1;
    }
    s.substring_char(0, e)
}

impl File {
    /// The rendered form of the reference: the URL's canonical
    /// serialization, or the path verbatim.
    pub open spec fn spec_display(&self) -> Seq<char> {
        match self {
            File::Url(p) => p.rendered@,
            File::Path(path) => path@,
        }
    }

    /// The display name of the reference, when one can be derived.
    pub open spec fn spec_name(&self) -> Option<Seq<char>> {
        match self {
            File::Url(p) => spec_remote_name(p.segments.deep_view()),
            File::Path(path) => spec_local_name(path@),
        }
    }

    /// Classify a string as a remote URL or, when it does not parse as
    /// one, keep it verbatim as a local path. Total: no input is rejected.
    pub fn parse(s: &str) -> (r: File)
        ensures
            r is Url <==> url_accepted(s@),
            match r {
                File::Url(p) => {
                    &&& p.rendered@ == url_rendered(s@)
                    &&& p.segments.deep_view() == url_path_segments(s@)
                },
                File::Path(path) => path@ == s@,
            },
    {
        match parse_url(s) {
            Some(p) => File::Url(p),
            None => File::Path(String::from_str(s)),
        }
    }

    /// Render the reference for output.
    pub fn display(&self) -> (r: String)
        ensures
            r@ == self.spec_display(),
    {
        match self {
            File::Url(p) => p.rendered.clone(),
            File::Path(path) => path.clone(),
        }
    }

    /// The display name of the reference: for a URL, the last path segment
    /// with everything from its first `.` on stripped; for a path, its
    /// file stem.
    pub fn name<'a>(&'a self) -> (r: Option<&'a str>)
        ensures
            match r {
                Some(n) => self.spec_name() == Some(n@),
                None => self.spec_name() is None,
            },
    {
        match self {
            File::Url(p) => match &p.segments {
                Some(segs) => {
                    if segs.len() == 0 {
                        None
                    } else {
                        let last = segs[segs.len() - 1].as_str();
                        proof {
                            let dv = p.segments.deep_view();
                            assert(dv matches Some(ds) && ds.last() == last@);
                        }
                        if last.unicode_len() == 0 {
                            None
                        } else {
                            Some(head_until(last, '.'))
                        }
                    }
                },
                None => None,
            },
            File::Path(path) => {
                let trimmed = trim_path(path.as_str());
                let name = tail_from_last(trimmed, '/');
                let n = name.unicode_len();
                if n == 0 {
                    None
                } else if n == 2 && name.get_char(0) == '.' && name.get_char(1) == '.' {
                    None
                } else {
                    let rest = name.substring_char(1, n);
                    proof {
                        assert(rest@ =~= name@.skip(1));
                    }
                    match find_last(rest, '.') {
                        Some(i) => Some(name.substring_char(0, i + 1)),
                        None => Some(name),
                    }
                }
            },
        }
    }
}

} // verus!
