//! Module specifiers: absolute URLs that name documents.

use vstd::prelude::*;
use lsp_types::Url;
use crate::text::has_prefix;
use crate::text::starts_with;

verus! {

/// The serialization of the URL that `input` parses to, or `None` where
/// `input` is no absolute URL.
pub uninterp spec fn url_serialization(input: Seq<char>) -> Option<Seq<char>>;

/// Calls `Url::parse` and hands back the parsed URL's serialization. The
/// result is a function of the input text alone; nothing more is claimed.
#[verifier::external_body]
fn parse_url(input: &str) -> (serialization: Option<String>)
    ensures
        serialization.deep_view() == url_serialization(input@),
{
    match Url::parse(input) {
        Ok(url) => Some(String::from(url)),
        Err(_) => None,
    }
}

/// The relative reference that leads from the URL that `base` parses to, to
/// the one that `target` parses to; `None` where either text is no absolute
/// URL, or where the first cannot be a base for the second.
pub uninterp spec fn url_relative(base: Seq<char>, target: Seq<char>) -> Option<Seq<char>>;

/// Parses both texts with `Url::parse` and calls `Url::make_relative` on the
/// first with the second. The result is a function of the two texts alone;
/// nothing more is claimed.
#[verifier::external_body]
fn make_relative_url(base: &str, target: &str) -> (relative: Option<String>)
    ensures
        relative.deep_view() == url_relative(base@, target@),
{
    match (Url::parse(base), Url::parse(target)) {
        (Ok(base), Ok(target)) => base.make_relative(&target),
        _ => None,
    }
}

/// The path of the URL that `input` parses to; empty where `input` is no
/// absolute URL.
pub uninterp spec fn url_path(input: Seq<char>) -> Seq<char>;

/// Parses the text with `Url::parse` and calls `Url::path`. The result is a
/// function of the text alone; nothing more is claimed.
#[verifier::external_body]
fn path_of_url(input: &str) -> (path: String)
    ensures
        path@ == url_path(input@),
{
    match Url::parse(input) {
        Ok(url) => url.path().to_string(),
        Err(_) => String::new(),
    }
}

/// Whether `text` is a URL's serialization under `scheme`: a URL's
/// serialization begins with its scheme and a colon.
pub open spec fn has_scheme(text: Seq<char>, scheme: Seq<char>) -> bool {
    has_prefix(text, scheme + seq![':'])
}

/// An absolute URL that identifies a document, held as its serialization.
#[derive(Debug, PartialEq, Eq, Hash)]
pub struct ModuleSpecifier {
    text: String,
}

impl View for ModuleSpecifier {
    type V = Seq<char>;

    closed spec fn view(&self) -> Seq<char> {
        self.text@
    }
}

impl DeepView for ModuleSpecifier {
    type V = Seq<char>;

    open spec fn deep_view(&self) -> Seq<char> {
        self@
    }
}

impl Clone for ModuleSpecifier {
    fn clone(&self) -> (copy: Self)
        ensures
            copy@ == self@,
    {
        ModuleSpecifier { text: self.text.clone() }
    }
}

impl ModuleSpecifier {
    /// Parses `input` as an absolute URL.
    pub fn parse(input: &str) -> (parsed: Option<ModuleSpecifier>)
        ensures
            parsed.deep_view() == url_serialization(input@),
    {
        match parse_url(input) {
            Some(text) => Some(ModuleSpecifier { text }),
            None => None,
        }
    }

    /// The specifier's text.
    pub fn as_str(&self) -> (text: &str)
        ensures
            text@ == self@,
    {
        self.text.as_str()
    }

    /// Whether the specifier's scheme is `scheme`.
    pub fn has_scheme(&self, scheme: &str) -> (found: bool)
        ensures
            found == has_scheme(self@, scheme@),
    {
        let mut prefix = String::from_str(scheme);
        prefix.append(":");
        proof {
            reveal_strlit(":");
            assert(":"@ =~= seq![':']);
        }
        starts_with(self.text.as_str(), prefix.as_str())
    }

    /// The specifier's path.
    pub fn path(&self) -> (path: String)
        ensures
            path@ == url_path(self@),
    {
        path_of_url(self.text.as_str())
    }

    /// The relative reference that leads from this specifier to `target`,
    /// where there is one.
    pub fn make_relative(&self, target: &ModuleSpecifier) -> (relative: Option<String>)
        ensures
            relative.deep_view() == url_relative(self@, target@),
    {
        make_relative_url(self.text.as_str(), target.text.as_str())
    }

    /// Whether two specifiers name the same URL.
    pub fn same(&self, other: &ModuleSpecifier) -> (equal: bool)
        ensures
            equal == (self@ == other@),
    {
        self.text == other.text
    }
}

} // verus!
