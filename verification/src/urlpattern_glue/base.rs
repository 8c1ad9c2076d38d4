//! The plain records that the URL pattern glue exchanges with its caller.

use vstd::prelude::*;

verus! {

/// A string that may be absent.
#[derive(Debug, PartialEq, Eq)]
pub struct MaybeString {
    pub string: String,
    pub valid: bool,
}

impl View for MaybeString {
    type V = Option<Seq<char>>;

    /// The text, where there is one.
    open spec fn view(&self) -> Option<Seq<char>> {
        if self.valid {
            Some(self.string@)
        } else {
            None
        }
    }
}

impl MaybeString {
    /// A string that is there.
    pub fn new(string: &str) -> (maybe: MaybeString)
        ensures
            maybe@ == Some(string@),
            maybe.valid,
            maybe.string@ == string@,
    {
        MaybeString { string: string.to_owned(), valid: true }
    }

    /// The absent string.
    pub fn none() -> (maybe: MaybeString)
        ensures
            maybe@ is None,
            !maybe.valid,
            maybe.string@ == Seq::<char>::empty(),
    {
        MaybeString { string: String::new(), valid: false }
    }
}

/// The text of a string that may be absent.
pub open spec fn spec_text(string: Option<String>) -> Option<Seq<char>> {
    match string {
        Some(string) => Some(string@),
        None => None,
    }
}

/// The text of a borrowed string that may be absent.
pub open spec fn spec_str_text(string: Option<&str>) -> Option<Seq<char>> {
    match string {
        Some(string) => Some(string@),
        None => None,
    }
}

/// The parts of a URL, or of a pattern for URLs, each of which may be left
/// out, and the URL against which relative parts are resolved.
#[derive(Debug, PartialEq, Eq)]
pub struct PatternInit {
    pub protocol: Option<String>,
    pub username: Option<String>,
    pub password: Option<String>,
    pub hostname: Option<String>,
    pub port: Option<String>,
    pub pathname: Option<String>,
    pub search: Option<String>,
    pub hash: Option<String>,
    pub base_url: Option<String>,
}

/// A `PatternInit` as contracts see it.
pub struct PatternInitView {
    pub protocol: Option<Seq<char>>,
    pub username: Option<Seq<char>>,
    pub password: Option<Seq<char>>,
    pub hostname: Option<Seq<char>>,
    pub port: Option<Seq<char>>,
    pub pathname: Option<Seq<char>>,
    pub search: Option<Seq<char>>,
    pub hash: Option<Seq<char>>,
    pub base_url: Option<Seq<char>>,
}

impl View for PatternInit {
    type V = PatternInitView;

    open spec fn view(&self) -> PatternInitView {
        PatternInitView {
            protocol: spec_text(self.protocol),
            username: spec_text(self.username),
            password: spec_text(self.password),
            hostname: spec_text(self.hostname),
            port: spec_text(self.port),
            pathname: spec_text(self.pathname),
            search: spec_text(self.search),
            hash: spec_text(self.hash),
            base_url: spec_text(self.base_url),
        }
    }
}

impl PatternInit {
    /// The record in which every part is left out.
    pub open spec fn spec_none() -> PatternInitView {
        PatternInitView {
            protocol: None,
            username: None,
            password: None,
            hostname: None,
            port: None,
            pathname: None,
            search: None,
            hash: None,
            base_url: None,
        }
    }

    /// The record in which every part is left out.
    pub fn none() -> (init: PatternInit)
        ensures
            init@ == PatternInit::spec_none(),
    {
        PatternInit {
            protocol: None,
            username: None,
            password: None,
            hostname: None,
            port: None,
            pathname: None,
            search: None,
            hash: None,
            base_url: None,
        }
    }
}

/// The parts of a URL that a pattern is matched against.
#[derive(Debug, PartialEq, Eq)]
pub struct MatchInput {
    pub protocol: String,
    pub username: String,
    pub password: String,
    pub hostname: String,
    pub port: String,
    pub pathname: String,
    pub search: String,
    pub hash: String,
}

/// Whether the caller's input was a string or a record of parts.
#[derive(Debug, Clone, Copy, PartialEq, Eq, Structural)]
pub enum UrlPatternStringOrInitType {
    String,
    Init,
}

/// The caller's input as it was given: the string or the record, whichever
/// `string_or_init_type` says, and the base URL that came with it.
#[derive(Debug, PartialEq, Eq)]
pub struct UrlPatternInput {
    pub string_or_init_type: UrlPatternStringOrInitType,
    pub str: String,
    pub init: PatternInit,
    pub base: MaybeString,
}

/// What a match needs: the parts to match against, and the input they were
/// made from.
#[derive(Debug, PartialEq, Eq)]
pub struct UrlPatternMatchInputAndInputs {
    pub input: MatchInput,
    pub inputs: UrlPatternInput,
}

/// A string, or a record of parts: the two forms in which a URL, or a
/// pattern, is given.
#[derive(Debug, PartialEq, Eq)]
pub enum StringOrInit {
    String(String),
    Init(PatternInit),
}

/// A `StringOrInit` as contracts see it.
pub enum StringOrInitView {
    String(Seq<char>),
    Init(PatternInitView),
}

impl View for StringOrInit {
    type V = StringOrInitView;

    open spec fn view(&self) -> StringOrInitView {
        match *self {
            StringOrInit::String(string) => StringOrInitView::String(string@),
            StringOrInit::Init(init) => StringOrInitView::Init(init@),
        }
    }
}

} // verus!
