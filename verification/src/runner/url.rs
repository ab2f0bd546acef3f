use vstd::prelude::*;
use vstd::string::StringExecFns;

use crate::runner::text::joined;

verus! {

/// What `url::Url::parse` makes of `input`: the serialization of the URL it
/// parses to, or `None` where it returns an error.
pub uninterp spec fn parsed_url(input: Seq<char>) -> Option<Seq<char>>;

/// Parses `input` with `url::Url::parse` and hands back the serialization
/// of the URL, that is the text that `Url::as_str` gives for it. The parser
/// reads nothing but `input`, so its outcome is the named value
/// [`parsed_url`] of it.
#[verifier::external_body]
fn parse_absolute(input: &str) -> (parsed: Option<String>)
    ensures
        match parsed {
            Some(text) => parsed_url(input@) == Some(text@),
            None => parsed_url(input@) is None,
        },
{
    url::Url::parse(input).ok().map(String::from)
}

/// An absolute URL, held as its serialization.
#[derive(Clone, Debug, PartialEq, Eq)]
pub struct Url {
    text: String,
}

/// Why a text is no URL.
#[derive(Clone, Copy, Debug, PartialEq, Eq)]
pub struct InvalidUrl;

impl View for Url {
    type V = Seq<char>;

    closed spec fn view(&self) -> Seq<char> {
        self.text@
    }
}

impl Url {
    /// Parses an absolute URL. The URL that comes back is in the parser's
    /// normal form: `https://example.com` becomes `https://example.com/`.
    pub fn parse(input: &str) -> (parsed: Result<Url, InvalidUrl>)
        ensures
            match parsed {
                Ok(url) => parsed_url(input@) == Some(url@),
                Err(_) => parsed_url(input@) is None,
            },
    {
        match parse_absolute(input) {
            Some(text) => Ok(Url { text }),
            None => Err(InvalidUrl),
        }
    }

    /// The URL as text.
    pub fn as_str(&self) -> (text: &str)
        ensures
            text@ == self@,
    {
        self.text.as_str()
    }

    /// A copy of the URL.
    pub fn duplicate(&self) -> (copy: Url)
        ensures
            copy@ == self@,
    {
        Url { text: self.text.clone() }
    }
}

/// The texts of `urls`, in order.
pub open spec fn url_texts(urls: Seq<Url>) -> Seq<Seq<char>> {
    urls.map_values(|url: Url| url@)
}

/// The views of `strings`, in order.
pub open spec fn string_views(strings: Seq<String>) -> Seq<Seq<char>> {
    strings.map_values(|string: String| string@)
}

/// Whether `strings` holds, place by place, what `to_string` gives for the
/// items of `items`.
pub open spec fn rendered<T: core::fmt::Display>(items: Seq<T>, strings: Seq<String>) -> bool {
    &&& strings.len() == items.len()
    &&& forall|i: int|
        0 <= i < items.len() ==> vstd::string::to_string_from_display_ensures::<T>(
            &#[trigger] items[i],
            strings[i],
        )
}

/// Writes each item of `vec` as a string.
pub fn vec_to_strings<T: core::fmt::Display>(vec: Vec<T>) -> (strings: Vec<String>)
    ensures
        rendered(vec@, strings@),
{
    let mut strings: Vec<String> = Vec::new();
    let mut i: usize = 0;
    while i < vec.len()
        invariant
            i <= vec.len(),
            rendered(vec@.take(i as int), strings@),
        decreases vec.len() - i,
    {
        let string = vec[i].to_string();
        strings.push(string);
        i = i + 1;
    }
    assert(vec@.take(vec.len() as int) == vec@);
    strings
}

/// Writes the items of `parts` one after another, with a comma between
/// neighbours.
pub fn join_with_commas(parts: &Vec<String>) -> (line: String)
    ensures
        line@ == joined(string_views(parts@), seq![',']),
{
    let mut line = String::new();
    let mut i: usize = 0;
    while i < parts.len()
        invariant
            i <= parts.len(),
            line@ == joined(string_views(parts@.take(i as int)), seq![',']),
        decreases parts.len() - i,
    {
        proof {
            reveal_strlit(",");
            let before = string_views(parts@.take(i as int));
            let after = string_views(parts@.take(i + 1));
            assert(after.drop_last() == before);
            assert(after.last() == parts@[i as int]@);
            assert(","@ == seq![',']);
        }
        if i > 0 {
            line.append(",");
        }
        line.append(parts[i].as_str());
        i = i + 1;
    }
    assert(parts@.take(parts.len() as int) == parts@);
    line
}

/// Writes each item of `vec` as a string, and those one after another with a
/// comma between neighbours.
pub fn vec_to_string<T: core::fmt::Display>(vec: Vec<T>) -> (line: String)
    ensures
        exists|strings: Seq<String>| #[trigger]
            rendered(vec@, strings) && line@ == joined(string_views(strings), seq![',']),
{
    let strings = vec_to_strings(vec);
    join_with_commas(&strings)
}

/// Writes `urls` one after another, with a comma between neighbours.
pub fn urls_to_string(urls: &Vec<Url>) -> (line: String)
    ensures
        line@ == joined(url_texts(urls@), seq![',']),
{
    let mut texts: Vec<String> = Vec::new();
    let mut i: usize = 0;
    while i < urls.len()
        invariant
            i <= urls.len(),
            texts.len() == i,
            forall|j: int| 0 <= j < i ==> (#[trigger] texts[j])@ == urls[j]@,
        decreases urls.len() - i,
    {
        texts.push(urls[i].as_str().to_owned());
        i = i + 1;
    }
    assert(string_views(texts@) =~= url_texts(urls@));
    join_with_commas(&texts)
}

} // verus!
