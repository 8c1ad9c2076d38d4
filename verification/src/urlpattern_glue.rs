//! Glue between the URL pattern library and a caller that works on plain
//! records: how an input to match is prepared, and how the captures of a
//! match are handed out.

pub mod base;

use crate::urlpattern_glue::base::{
    spec_str_text, MatchInput, MaybeString, PatternInit, StringOrInit, StringOrInitView,
    UrlPatternInput, UrlPatternMatchInputAndInputs, UrlPatternStringOrInitType,
};
use std::borrow::Cow;
use thin_vec::ThinVec;
use urlpattern::quirks;
use vstd::prelude::*;

verus! {

/// `urlpattern::UrlPatternMatchInput`: an input that the library has taken
/// in, either a parsed URL or a record of parts.
#[verifier::external_type_specification]
#[verifier::external_body]
pub struct ExUrlPatternMatchInput(urlpattern::UrlPatternMatchInput);

/// `url::Url`: a URL that has been parsed.
#[verifier::external_type_specification]
#[verifier::external_body]
pub struct ExUrl(url::Url);

/// `urlpattern::UrlPatternInit`: a record of parts whose base URL has been
/// parsed.
#[verifier::external_type_specification]
#[verifier::external_body]
pub struct ExUrlPatternInit(urlpattern::UrlPatternInit);

/// An input that the library has taken in. It is handed from the call that
/// makes it to the call that takes it apart.
pub enum TakenInput {
    /// A URL that was given as a string and has been parsed.
    Url(url::Url),
    /// A record of parts whose base URL has been parsed.
    Init(urlpattern::UrlPatternInit),
}

/// Tells the two forms of `urlpattern::UrlPatternMatchInput` apart.
#[verifier::external_body]
fn taken_from(input: urlpattern::UrlPatternMatchInput) -> (taken: TakenInput) {
    match input {
        urlpattern::UrlPatternMatchInput::Url(url) => TakenInput::Url(url),
        urlpattern::UrlPatternMatchInput::Init(init) => TakenInput::Init(init),
    }
}

/// `urlpattern::quirks::UrlPatternInit`: the library's own record of parts.
#[verifier::external_type_specification]
#[verifier::external_body]
pub struct ExQuirksUrlPatternInit(quirks::UrlPatternInit);

/// Copies a record of parts into the library's own record, part by part.
#[verifier::external_body]
fn init_to_quirks(init: PatternInit) -> (copied: quirks::UrlPatternInit) {
    quirks::UrlPatternInit {
        protocol: init.protocol,
        username: init.username,
        password: init.password,
        hostname: init.hostname,
        port: init.port,
        pathname: init.pathname,
        search: init.search,
        hash: init.hash,
        base_url: init.base_url,
    }
}

/// Copies the library's own record of parts into a record of parts, part by
/// part.
#[verifier::external_body]
fn init_from_quirks(init: quirks::UrlPatternInit) -> (copied: PatternInit) {
    PatternInit {
        protocol: init.protocol,
        username: init.username,
        password: init.password,
        hostname: init.hostname,
        port: init.port,
        pathname: init.pathname,
        search: init.search,
        hash: init.hash,
        base_url: init.base_url,
    }
}

/// How the library took an input in.
pub enum Processed {
    /// The input was refused.
    Refused,
    /// The input holds a URL that does not parse.
    Nothing,
    /// The input as the library holds it, the input as it was given, and the
    /// base URL that was given beside it.
    Found { matched: TakenInput, given: StringOrInit, base: Option<String> },
}

/// Whether `urlpattern::quirks::process_match_input` finds something in an
/// input with this base URL beside it: whether the URLs in them parse.
pub uninterp spec fn match_input_found(input: StringOrInitView, base_url: Option<Seq<char>>) -> bool;

/// `urlpattern::quirks::process_match_input`: takes in an input to match,
/// with the base URL given beside it.
///
/// The contract claims what the function's source shows. It refuses exactly
/// a record of parts that comes with a base URL beside it. Whether it finds
/// something depends on the input and the base URL alone. Where it finds
/// something, that is a parsed URL for a string and a record for a record,
/// and it hands back the input as it was given and the base URL that was
/// given beside it.
#[verifier::external_body]
fn process_match_input(input: StringOrInit, base_url: Option<&str>) -> (processed: Processed)
    ensures
        (processed is Refused) == (input is Init && base_url is Some),
        (processed is Found) == match_input_found(input@, spec_str_text(base_url)),
        (processed matches Processed::Found { matched, .. } ==> (matched is Url) == (input
            is String)),
        (processed matches Processed::Found { given, .. } ==> given@ == input@),
        (processed matches Processed::Found { base, .. } ==> base::spec_text(base)
            == spec_str_text(base_url)),
{
    let input = match input {
        StringOrInit::String(url) => quirks::StringOrInit::String(Cow::Owned(url)),
        StringOrInit::Init(init) => quirks::StringOrInit::Init(init_to_quirks(init)),
    };
    match quirks::process_match_input(input, base_url) {
        Ok(Some((matched, (quirks::StringOrInit::String(url), base)))) => {
            Processed::Found { matched: taken_from(matched), given: StringOrInit::String(url.into_owned()), base }
        },
        Ok(Some((matched, (quirks::StringOrInit::Init(init), base)))) => {
            Processed::Found { matched: taken_from(matched), given: StringOrInit::Init(init_from_quirks(init)), base }
        },
        Ok(None) => Processed::Nothing,
        Err(_) => Processed::Refused,
    }
}

/// `urlpattern::quirks::parse_match_input`: takes an input apart into the
/// parts that a pattern is matched against. A parsed URL always has its
/// parts, as the function's source shows. Whether a record of parts makes a
/// URL is not claimed, and nothing is claimed of the parts.
#[verifier::external_body]
fn parse_match_input(input: TakenInput) -> (parsed: Option<MatchInput>)
    ensures
        input is Url ==> parsed is Some,
{
    let input = match input {
        TakenInput::Url(url) => urlpattern::UrlPatternMatchInput::Url(url),
        TakenInput::Init(init) => urlpattern::UrlPatternMatchInput::Init(init),
    };
    let parts = quirks::parse_match_input(input)?;
    Some(MatchInput {
        protocol: parts.protocol, username: parts.username, password: parts.password,
        hostname: parts.hostname, port: parts.port, pathname: parts.pathname,
        search: parts.search, hash: parts.hash,
    })
}

/// The base URL as it is reported back: the given one, or the absent string.
pub fn base_of(base: Option<String>) -> (maybe: MaybeString)
    ensures
        maybe@ == base::spec_text(base),
{
    match base {
        Some(base) => MaybeString { string: base, valid: true },
        None => MaybeString::none(),
    }
}

/// Puts together what a match on a string input needs: the parts, and the
/// string and base URL as they were given. Without parts there is nothing.
pub fn match_input_from_string(
    parsed: Option<MatchInput>,
    string: String,
    base: Option<String>,
) -> (res: Option<UrlPatternMatchInputAndInputs>)
    ensures
        parsed is None <==> res is None,
        res matches Some(found) ==> {
            &&& found.input == parsed.unwrap()
            &&& found.inputs.string_or_init_type == UrlPatternStringOrInitType::String
            &&& found.inputs.str == string
            &&& found.inputs.init@ == PatternInit::spec_none()
            &&& found.inputs.base@ == base::spec_text(base)
        },
{
    match parsed {
        Some(input) => Some(
            UrlPatternMatchInputAndInputs {
                input,
                inputs: UrlPatternInput {
                    string_or_init_type: UrlPatternStringOrInitType::String,
                    str: string,
                    init: PatternInit::none(),
                    base: base_of(base),
                },
            },
        ),
        None => None,
    }
}

/// Puts together what a match on a record of parts needs: the parts to match
/// against, and the record and base URL as they were given. Without parts
/// there is nothing.
pub fn match_input_from_init(
    parsed: Option<MatchInput>,
    init: PatternInit,
    base: Option<String>,
) -> (res: Option<UrlPatternMatchInputAndInputs>)
    ensures
        parsed is None <==> res is None,
        res matches Some(found) ==> {
            &&& found.input == parsed.unwrap()
            &&& found.inputs.string_or_init_type == UrlPatternStringOrInitType::Init
            &&& found.inputs.str@ == Seq::<char>::empty()
            &&& found.inputs.init == init
            &&& found.inputs.base@ == base::spec_text(base)
        },
{
    match parsed {
        Some(input) => Some(
            UrlPatternMatchInputAndInputs {
                input,
                inputs: UrlPatternInput {
                    string_or_init_type: UrlPatternStringOrInitType::Init,
                    str: String::new(),
                    init,
                    base: base_of(base),
                },
            },
        ),
        None => None,
    }
}

/// Prepares a URL given as a string, with an optional base URL, for a match.
///
/// Without a URL there is nothing to prepare. Otherwise there is something
/// exactly when the URL library finds a URL in the string and the base URL:
/// a URL or a base URL that does not parse gives nothing. What is prepared
/// reports the string and the base URL as they were given.
pub fn urlpattern_process_match_input_from_string(
    url_str: Option<&str>,
    base_url: Option<&str>,
) -> (res: Option<UrlPatternMatchInputAndInputs>)
    ensures
        res is Some <==> (url_str matches Some(url) && match_input_found(
            StringOrInitView::String(url@),
            spec_str_text(base_url),
        )),
        res matches Some(found) ==> {
            &&& found.inputs.string_or_init_type == UrlPatternStringOrInitType::String
            &&& Some(found.inputs.str@) == spec_str_text(url_str)
            &&& found.inputs.init@ == PatternInit::spec_none()
            &&& found.inputs.base@ == spec_str_text(base_url)
        },
{
    let url = match url_str {
        Some(url) => url,
        None => return None,
    };
    match process_match_input(StringOrInit::String(url.to_owned()), base_url) {
        Processed::Found { matched, given, base } => {
            let parsed = parse_match_input(matched);
            match given {
                StringOrInit::String(string) => match_input_from_string(parsed, string, base),
                StringOrInit::Init(_) => {
                    proof {
                        assert(false);
                    }
                    None
                },
            }
        },
        _ => None,
    }
}

/// Prepares a URL given as a record of parts for a match.
///
/// A base URL beside the record is refused: the record has a place for it.
/// A record in which the URL library finds nothing, because its base URL
/// does not parse, gives nothing, and so do parts that make no URL. What is
/// prepared reports the record as it was given, and no base URL beside it.
pub fn urlpattern_process_match_input_from_init(init: PatternInit, base_url: Option<&str>) -> (res:
    Option<UrlPatternMatchInputAndInputs>)
    ensures
        base_url is Some ==> res is None,
        !match_input_found(StringOrInitView::Init(init@), spec_str_text(base_url)) ==> res
            is None,
        res matches Some(found) ==> {
            &&& found.inputs.string_or_init_type == UrlPatternStringOrInitType::Init
            &&& found.inputs.str@ == Seq::<char>::empty()
            &&& found.inputs.init@ == init@
            &&& found.inputs.base@ is None
        },
{
    match process_match_input(StringOrInit::Init(init), base_url) {
        Processed::Found { matched, given, base } => {
            let parsed = parse_match_input(matched);
            match given {
                StringOrInit::Init(init) => match_input_from_init(parsed, init, base),
                StringOrInit::String(_) => {
                    proof {
                        assert(false);
                    }
                    None
                },
            }
        },
        _ => None,
    }
}

/// `thin_vec::ThinVec`: the vector in which captures are handed out.
#[verifier::external_type_specification]
#[verifier::external_body]
#[verifier::reject_recursive_types(T)]
pub struct ExThinVec<T>(ThinVec<T>);

/// What a vector of strings that may be absent holds, in order.
pub uninterp spec fn thin_vec_items(items: ThinVec<MaybeString>) -> Seq<MaybeString>;

/// So many items a vector can hold at the least. Beyond that, making room
/// for one more may ask for more memory than can be addressed.
pub const MAX_ITEMS: usize = 0x10_0000;

/// `ThinVec::push`: puts an item behind the others and leaves those as they
/// are. The call panics where the vector cannot grow, which a vector of no
/// more than `MAX_ITEMS` items always can.
#[verifier::external_body]
fn thin_vec_push(items: &mut ThinVec<MaybeString>, item: MaybeString)
    requires
        thin_vec_items(*old(items)).len() < MAX_ITEMS,
    ensures
        thin_vec_items(*final(items)) == thin_vec_items(*old(items)).push(item),
{
    items.push(item)
}

/// `ThinVec::len`: how many items the vector holds.
#[verifier::external_body]
fn thin_vec_len(items: &ThinVec<MaybeString>) -> (len: usize)
    ensures
        len == thin_vec_items(*items).len(),
{
    items.len()
}

/// Whether `item` hands out `capture`: the same text where the group took
/// part in the match; the absent string, with no text, where it did not.
pub open spec fn spec_hands_out(capture: Option<String>, item: MaybeString) -> bool {
    match capture {
        Some(text) => item.valid && item.string@ == text@,
        None => !item.valid && item.string@ == Seq::<char>::empty(),
    }
}

/// Hands out the captures of a match, if there was one, behind what `res`
/// holds already, one item for each group and in their order, and says
/// whether there was a match. Without a match `res` stays as it is.
pub fn urlpattern_component_matches(
    matches: Option<Vec<Option<String>>>,
    res: &mut ThinVec<MaybeString>,
) -> (matched: bool)
    requires
        matches matches Some(captures) ==> thin_vec_items(*old(res)).len() + captures@.len()
            <= MAX_ITEMS,
    ensures
        matched == matches is Some,
        matches is None ==> thin_vec_items(*final(res)) == thin_vec_items(*old(res)),
        matches matches Some(captures) ==> {
            let before = thin_vec_items(*old(res));
            let after = thin_vec_items(*final(res));
            &&& after.len() == before.len() + captures@.len()
            &&& after.subrange(0, before.len() as int) == before
            &&& forall|i: int|
                0 <= i < captures@.len() ==> spec_hands_out(
                    #[trigger] captures@[i],
                    after[before.len() + i],
                )
        },
{
    let captures = match matches {
        Some(captures) => captures,
        None => return false,
    };
    let ghost before = thin_vec_items(*res);
    let mut done: usize = 0;
    while done < captures.len()
        invariant
            done <= captures@.len(),
            before.len() + captures@.len() <= MAX_ITEMS,
            thin_vec_items(*res).len() == before.len() + done,
            thin_vec_items(*res).subrange(0, before.len() as int) == before,
            forall|i: int|
                0 <= i < done ==> spec_hands_out(
                    #[trigger] captures@[i],
                    thin_vec_items(*res)[before.len() + i],
                ),
        decreases captures@.len() - done,
    {
        let ghost earlier = thin_vec_items(*res);
        let item = match &captures[done] {
            Some(text) => MaybeString::new(text.as_str()),
            None => MaybeString::none(),
        };
        thin_vec_push(res, item);
        proof {
            let now = thin_vec_items(*res);
            assert(now.subrange(0, before.len() as int) =~= earlier.subrange(
                0,
                before.len() as int,
            ));
            assert forall|i: int| 0 <= i < done + 1 implies spec_hands_out(
                #[trigger] captures@[i],
                now[before.len() + i],
            ) by {
                if i < done {
                    assert(now[before.len() + i] == earlier[before.len() + i]);
                }
            }
        }
        done = done + 1;
    }
    true
}

/// Hands out the captures of a match as `urlpattern_component_matches` does,
/// where `res` has room for them, and says whether there was a match. Where
/// `res` has no room, it stays as it is and nothing is said.
pub fn try_urlpattern_component_matches(
    matches: Option<Vec<Option<String>>>,
    res: &mut ThinVec<MaybeString>,
) -> (matched: Option<bool>)
    ensures
        matched is Some <==> (matches matches Some(captures) ==> thin_vec_items(*old(res)).len()
            + captures@.len() <= MAX_ITEMS),
        matched is None ==> thin_vec_items(*final(res)) == thin_vec_items(*old(res)),
        matched matches Some(found) ==> {
            &&& found == matches is Some
            &&& matches is None ==> thin_vec_items(*final(res)) == thin_vec_items(*old(res))
            &&& matches matches Some(captures) ==> {
                let before = thin_vec_items(*old(res));
                let after = thin_vec_items(*final(res));
                &&& after.len() == before.len() + captures@.len()
                &&& after.subrange(0, before.len() as int) == before
                &&& forall|i: int|
                    0 <= i < captures@.len() ==> spec_hands_out(
                        #[trigger] captures@[i],
                        after[before.len() + i],
                    )
            }
        },
{
    let room = match &matches {
        Some(captures) => {
            let held = thin_vec_len(res);
            held <= MAX_ITEMS && captures.len() <= MAX_ITEMS - held
        },
        None => true,
    };
    if room {
        Some(urlpattern_component_matches(matches, res))
    } else {
        None
    }
}

} // verus!
