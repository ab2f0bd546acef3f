use vstd::prelude::*;
use vstd::string::StrSliceExecFns;
use vstd::string::StringExecFns;

use crate::runner::text::find_char;
use crate::runner::text::first_index;
use crate::runner::text::joined;
use crate::runner::text::lemma_first_index;
use crate::runner::text::split;
use crate::runner::text::to_chars;
use crate::runner::text::trim_bounds;
use crate::runner::text::trimmed;
use crate::runner::url::parsed_url;
use crate::runner::url::url_texts;
use crate::runner::url::urls_to_string;
use crate::runner::url::Url;

verus! {

/// Why a text is no target.
#[derive(Clone, Copy, Debug, PartialEq, Eq)]
pub enum ParseError {
    /// The text holds no `=` between the name and the URLs.
    MissingSeparator,
    /// Nothing stands before the first `=`: the target has no name.
    EmptyName,
    /// One of the URLs is no absolute URL.
    InvalidUrl,
}

/// A named group of URLs that are probed in turn and reported as one.
#[derive(Clone, PartialEq)]
pub struct Target {
    pub name: String,
    pub urls: Vec<Url>,
}

/// The mathematical value of a [`Target`]: its name and the texts of its
/// URLs, in order.
pub ghost struct TargetView {
    pub name: Seq<char>,
    pub urls: Seq<Seq<char>>,
}

impl View for Target {
    type V = TargetView;

    open spec fn view(&self) -> TargetView {
        TargetView { name: self.name@, urls: url_texts(self.urls@) }
    }
}

/// Whether `s` begins with `http`.
pub open spec fn has_http_prefix(s: Seq<char>) -> bool {
    s.len() >= 4 && s[0] == 'h' && s[1] == 't' && s[2] == 't' && s[3] == 'p'
}

/// The text `https://`.
pub open spec fn https_scheme() -> Seq<char> {
    seq!['h', 't', 't', 'p', 's', ':', '/', '/']
}

/// The text that is parsed as a URL for one piece of a target's list: the
/// piece without the whitespace around it, behind `https://` unless it
/// begins with `http` already.
pub open spec fn url_candidate(piece: Seq<char>) -> Seq<char> {
    let bare = trimmed(piece);
    if has_http_prefix(bare) {
        bare
    } else {
        https_scheme() + bare
    }
}

/// The texts that are parsed as URLs for a comma-separated list.
pub open spec fn url_candidates(list: Seq<char>) -> Seq<Seq<char>> {
    split(list, ',').map_values(|piece: Seq<char>| url_candidate(piece))
}

/// What `name=url1,url2,...` stands for: the name before the first `=`, and
/// the URLs that the pieces behind it parse to.
///
/// A text without `=` is no target (`MissingSeparator`); neither is one with
/// nothing before its first `=` (`EmptyName`), nor one with a piece that is
/// no URL (`InvalidUrl`). The errors are told in that order: a text without
/// a name is reported as such whatever its URLs are.
pub open spec fn parse_target(text: Seq<char>) -> Result<TargetView, ParseError> {
    let at = first_index(text, '=');
    let candidates = url_candidates(text.skip(at + 1));
    if !(0 <= at < text.len()) {
        Err(ParseError::MissingSeparator)
    } else if at == 0 {
        Err(ParseError::EmptyName)
    } else if exists|i: int| 0 <= i < candidates.len() && parsed_url(#[trigger] candidates[i]) is None {
        Err(ParseError::InvalidUrl)
    } else {
        Ok(
            TargetView {
                name: text.take(at),
                urls: candidates.map_values(|candidate: Seq<char>| parsed_url(candidate)->0),
            },
        )
    }
}

/// The text of a string literal in double quotes, as `{:?}` writes a `str`.
pub uninterp spec fn debug_quoted(text: Seq<char>) -> Seq<char>;

/// Writes `text` with the `Debug` formatting of `str`, which puts it in
/// double quotes and escapes what cannot stand between them. The formatting
/// reads nothing but `text`, so what comes back is the named value
/// [`debug_quoted`] of it.
#[verifier::external_body]
fn quote(text: &str) -> (quoted: String)
    ensures
        quoted@ == debug_quoted(text@),
{
    format!("{:?}", text)
}

/// The text that [`Target::describe`] writes for a target.
pub open spec fn description(target: TargetView) -> Seq<char> {
    "Target { name: "@ + target.name + ", urls: ["@ + debug_quoted(
        joined(target.urls, seq![',']),
    ) + "] }"@
}

impl Target {
    /// Creates a target of the given name and URLs.
    pub fn new(name: String, urls: Vec<Url>) -> (target: Target)
        ensures
            target.name == name,
            target.urls == urls,
    {
        Self { name, urls }
    }

    /// Reads a target from `name=url1,url2,...`.
    ///
    /// The name is what stands before the first `=`, and must not be empty.
    /// What stands behind the `=` is cut at each comma; each piece is
    /// trimmed, gets `https://` in front unless it begins with `http`, and
    /// must then be an absolute URL. A target that comes back has a name and
    /// at least one URL.
    pub fn parse(text: &str) -> (parsed: Result<Target, ParseError>)
        ensures
            match parsed {
                Ok(target) => parse_target(text@) == Ok::<TargetView, ParseError>(target@),
                Err(error) => parse_target(text@) == Err::<TargetView, ParseError>(error),
            },
            parsed is Ok ==> parsed->Ok_0.name@.len() > 0,
            parsed is Ok ==> parsed->Ok_0.urls@.len() > 0,
    {
        let chars = to_chars(text);
        let len = chars.len();
        let at = find_char(&chars, 0, len, '=');
        assert(text@.subrange(0, len as int) == text@);
        if at >= len {
            return Err(ParseError::MissingSeparator);
        }
        if at == 0 {
            return Err(ParseError::EmptyName);
        }
        let name = text.substring_char(0, at).to_owned();
        let ghost list = text@.skip(at + 1);
        let ghost candidates = url_candidates(list);
        let ghost mut pieces: Seq<Seq<char>> = Seq::empty();
        let mut urls: Vec<Url> = Vec::new();
        let mut pos: usize = at + 1;
        let mut finished = false;
        assert(text@.subrange(pos as int, len as int) == list);
        while !finished
            invariant
                0 < at < pos <= len == text@.len(),
                chars@ == text@,
                at == first_index(text@, '='),
                list == text@.skip(at + 1),
                candidates == url_candidates(list),
                !finished ==> split(list, ',') == pieces + split(
                    text@.subrange(pos as int, len as int),
                    ',',
                ),
                finished ==> split(list, ',') == pieces,
                finished ==> pieces.len() > 0,
                urls.len() == pieces.len(),
                forall|i: int|
                    0 <= i < urls.len() ==> parsed_url(url_candidate(#[trigger] pieces[i]))
                        == Some(urls[i]@),
            decreases len - pos + (if finished { 0int } else { 1int }),
        {
            let ghost window = text@.subrange(pos as int, len as int);
            let end = find_char(&chars, pos, len, ',');
            let (from, to) = trim_bounds(&chars, pos, end);
            let candidate = candidate_text(text, &chars, from, to);
            proof {
                lemma_first_index(window, ',');
                assert(window.take(end - pos) == text@.subrange(pos as int, end as int));
                if end < len {
                    assert(window.skip(end - pos + 1) == text@.subrange(end + 1, len as int));
                }
                assert(split(window, ',')[0] == text@.subrange(pos as int, end as int));
                assert(split(list, ',')[pieces.len() as int] == text@.subrange(
                    pos as int,
                    end as int,
                ));
                assert(candidate@ == candidates[pieces.len() as int]);
            }
            match Url::parse(candidate.as_str()) {
                Ok(url) => {
                    urls.push(url);
                },
                Err(_) => {
                    proof {
                        let failed = pieces.len() as int;
                        assert(split(window, ',').len() > 0);
                        assert(0 <= failed < candidates.len());
                        assert(parsed_url(candidates[failed]) is None);
                    }
                    return Err(ParseError::InvalidUrl);
                },
            }
            proof {
                pieces = pieces.push(text@.subrange(pos as int, end as int));
            }
            if end < len {
                pos = end + 1;
            } else {
                finished = true;
            }
        }
        let target = Target { name, urls };
        proof {
            assert(candidates.len() == urls.len());
            assert forall|i: int| 0 <= i < candidates.len() implies parsed_url(
                #[trigger] candidates[i],
            ) is Some by {
                assert(candidates[i] == url_candidate(pieces[i]));
            }
            assert(target@.urls =~= candidates.map_values(
                |candidate: Seq<char>| parsed_url(candidate)->0,
            )) by {
                assert forall|i: int| 0 <= i < urls.len() implies target@.urls[i] == parsed_url(
                    candidates[i],
                )->0 by {
                    assert(candidates[i] == url_candidate(pieces[i]));
                }
            }
        }
        Ok(target)
    }

    /// A copy of the target.
    pub fn duplicate(&self) -> (copy: Target)
        ensures
            copy@ == self@,
    {
        let mut urls: Vec<Url> = Vec::new();
        let mut i: usize = 0;
        while i < self.urls.len()
            invariant
                i <= self.urls.len(),
                urls.len() == i,
                forall|j: int| 0 <= j < i ==> (#[trigger] urls[j])@ == self.urls[j]@,
            decreases self.urls.len() - i,
        {
            urls.push(self.urls[i].duplicate());
            i = i + 1;
        }
        let copy = Target { name: self.name.clone(), urls };
        assert(copy@.urls =~= self@.urls);
        copy
    }

    /// Writes the target for a log line: its name, and its URLs in one
    /// quoted, comma-separated string.
    pub fn describe(&self) -> (line: String)
        ensures
            line@ == description(self@),
    {
        let urls = urls_to_string(&self.urls);
        let mut line = "Target { name: ".to_owned();
        line.append(self.name.as_str());
        line.append(", urls: [");
        line.append(quote(urls.as_str()).as_str());
        line.append("] }");
        line
    }
}

/// Builds the text that is parsed as a URL from the trimmed piece that the
/// characters `from..to` of `text` hold; `chars` are the characters of
/// `text`.
fn candidate_text(text: &str, chars: &Vec<char>, from: usize, to: usize) -> (candidate: String)
    requires
        chars@ == text@,
        from <= to <= text@.len(),
    ensures
        candidate@ == (if has_http_prefix(text@.subrange(from as int, to as int)) {
            text@.subrange(from as int, to as int)
        } else {
            https_scheme() + text@.subrange(from as int, to as int)
        }),
{
    let bare = text.substring_char(from, to);
    if to - from >= 4 && chars[from] == 'h' && chars[from + 1] == 't' && chars[from + 2] == 't'
        && chars[from + 3] == 'p' {
        bare.to_owned()
    } else {
        proof {
            reveal_strlit("https://");
            assert("https://"@ =~= https_scheme());
        }
        let mut candidate = "https://".to_owned();
        candidate.append(bare);
        candidate
    }
}

impl core::str::FromStr for Target {
    type Err = ParseError;

    /// Reads a target as [`Target::parse`] does.
    fn from_str(text: &str) -> (parsed: Result<Target, ParseError>)
        ensures
            match parsed {
                Ok(target) => parse_target(text@) == Ok::<TargetView, ParseError>(target@),
                Err(error) => parse_target(text@) == Err::<TargetView, ParseError>(error),
            },
            parsed is Ok ==> parsed->Ok_0.name@.len() > 0,
            parsed is Ok ==> parsed->Ok_0.urls@.len() > 0,
    {
        Target::parse(text)
    }
}

} // verus!
