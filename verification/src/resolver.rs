//! Finding the archive URL of a build profile in the installer script.
//!
//! The script marks each archive with a line of the form
//! `#STAGE4_URL="<url>" ;<rest>"`. The lines are found with the `regex` crate;
//! which of them belongs to a profile, and when the lookup fails, is decided
//! here.

use vstd::prelude::*;

use crate::error::{ErrorKind, Stage4Error, Stage4ErrorView};
use crate::profile::Profile;

verus! {

/// The address of the installer script that lists the archives.
pub const STAGE4_SCRIPT_URL: &'static str =
    "https://raw.githubusercontent.com/asarubbo/gentoo-stage4/master/autoinstaller-scripts/stage4/stage4";

/// The pattern of an archive line, anchored at the start and the end of a
/// line. Its first group captures the URL.
pub const STAGE4_URL_PATTERN: &'static str = "^#STAGE4_URL=\"(.*)\"\\s;.*\"$";

/// The capture group of [`STAGE4_URL_PATTERN`] that holds the URL.
pub const STAGE4_URL_GROUP: usize = 1;

#[verifier::external_type_specification]
#[verifier::external_body]
pub struct ExRegexError(regex::Error);

/// The outcome of compiling a pattern with the `regex` crate and searching a
/// haystack with it. `None` where the crate rejects the pattern: it is no
/// valid regex, or its compiled form is over the builder's default size
/// limit. Otherwise, for each of the successive non-overlapping matches, in
/// the order of the haystack, the text of the capture group `group`, or
/// `None` where that group took no part in the match. `multi_line` says
/// whether `^` and `$` also match at line ends.
pub uninterp spec fn regex_group_texts(
    pattern: Seq<char>,
    multi_line: bool,
    group: int,
    haystack: Seq<char>,
) -> Option<Seq<Option<Seq<char>>>>;

/// Runs `regex::RegexBuilder::new(pattern).multi_line(multi_line).build()` and,
/// where the pattern compiles, `Regex::captures_iter` over `haystack`, reading
/// from each match `Captures::get(group)` and `Match::as_str`.
///
/// Trusted: the call fails exactly where [`regex_group_texts`] is `None` for
/// these arguments, and otherwise returns the texts that it names.
#[verifier::external_body]
fn group_texts(pattern: &str, multi_line: bool, group: usize, haystack: &str) -> (r: Result<
    Vec<Option<String>>,
    regex::Error,
>)
    ensures
        match r {
            Ok(texts) => regex_group_texts(pattern@, multi_line, group as int, haystack@) == Some(
                texts.deep_view(),
            ),
            Err(_) => regex_group_texts(pattern@, multi_line, group as int, haystack@) is None,
        },
{
    let re = regex::RegexBuilder::new(pattern).multi_line(multi_line).build()?;
    Ok(re.captures_iter(haystack).map(|c| c.get(group).map(|m| m.as_str().to_owned())).collect())
}

/// The URL captures of the archive lines of a script text, in the order of
/// the text; `None` where the regex engine rejects the line pattern.
pub open spec fn stage4_url_captures(body: Seq<char>) -> Option<Seq<Option<Seq<char>>>> {
    regex_group_texts(STAGE4_URL_PATTERN@, true, STAGE4_URL_GROUP as int, body)
}

/// The URL of a profile, given the URL captures of the archive lines.
///
/// The profile's position selects the capture. The lookup fails with
/// `UrlNotFound` where there are too few captures to reach that position, and
/// with `MalformedCapture` where the capture there is missing or empty.
pub open spec fn url_of_profile(profile: Profile, captures: Seq<Option<Seq<char>>>) -> Result<
    Seq<char>,
    Stage4ErrorView,
> {
    let index = profile.spec_match_index() as int;
    if captures.len() <= index {
        Err(Stage4ErrorView::UrlNotFound)
    } else {
        match captures[index] {
            Some(url) => if url.len() > 0 {
                Ok(url)
            } else {
                Err(Stage4ErrorView::MalformedCapture)
            },
            None => Err(Stage4ErrorView::MalformedCapture),
        }
    }
}

/// The mathematical value of a resolution result.
pub open spec fn resolution_view(r: Result<String, Stage4Error>) -> Result<
    Seq<char>,
    Stage4ErrorView,
> {
    match r {
        Ok(url) => Ok(url@),
        Err(e) => Err(e@),
    }
}

/// Picks the URL of `profile` from the URL captures of the archive lines.
pub fn select_stage4_url(profile: Profile, captures: &Vec<Option<String>>) -> (r: Result<
    String,
    Stage4Error,
>)
    ensures
        resolution_view(r) == url_of_profile(profile, captures.deep_view()),
        captures.len() <= profile.spec_match_index() ==> r matches Err(Stage4Error::UrlNotFound),
        r matches Ok(url) ==> url@.len() > 0,
{
    let index = profile.match_index();
    if captures.len() <= index {
        return Err(Stage4Error::UrlNotFound);
    }
    match &captures[index] {
        Some(url) => {
            if url.as_str().is_empty() {
                Err(Stage4Error::MalformedCapture)
            } else {
                Ok(url.clone())
            }
        },
        None => Err(Stage4Error::MalformedCapture),
    }
}

/// The URL of a profile in a script text: the lookup among the archive lines
/// of the text, or `Pattern` where the regex engine rejects the line pattern.
pub open spec fn spec_stage4_url(profile: Profile, body: Seq<char>) -> Result<
    Seq<char>,
    Stage4ErrorView,
> {
    match stage4_url_captures(body) {
        Some(captures) => url_of_profile(profile, captures),
        None => Err(Stage4ErrorView::Pattern),
    }
}

/// Resolves the archive URL of `profile` from the text of the installer
/// script.
///
/// The result is the URL that [`url_of_profile`] gives for the archive lines
/// of `body`. It is `Pattern` only where the regex engine rejects the line
/// pattern. A URL that is returned is never empty, and every failure is of
/// the lookup class.
pub fn get_stage4_url(profile: Profile, body: &str) -> (r: Result<String, Stage4Error>)
    ensures
        resolution_view(r) == spec_stage4_url(profile, body@),
        r matches Ok(url) ==> url@.len() > 0,
        r matches Err(e) ==> e@.kind() == ErrorKind::Lookup,
{
    match group_texts(STAGE4_URL_PATTERN, true, STAGE4_URL_GROUP, body) {
        Ok(captures) => select_stage4_url(profile, &captures),
        Err(_) => Err(Stage4Error::Pattern),
    }
}

/// The mapping from profile to archive line is by position: where the first
/// two archive lines both captured a URL, the hardened profile resolves to
/// the first and the standard profile to the second.
pub proof fn lemma_profiles_resolve_by_position(
    captures: Seq<Option<Seq<char>>>,
    first: Seq<char>,
    second: Seq<char>,
)
    requires
        captures.len() >= 2,
        captures[0] == Some(first),
        captures[1] == Some(second),
        first.len() > 0,
        second.len() > 0,
    ensures
        url_of_profile(Profile::Hardened, captures) == Ok::<Seq<char>, Stage4ErrorView>(first),
        url_of_profile(Profile::Standard, captures) == Ok::<Seq<char>, Stage4ErrorView>(second),
{
}

/// A script with fewer archive lines than the profile's position needs gives
/// a lookup failure, whatever the lines hold.
pub proof fn lemma_too_few_lines_not_found(profile: Profile, captures: Seq<Option<Seq<char>>>)
    requires
        captures.len() <= profile.spec_match_index(),
    ensures
        url_of_profile(profile, captures) == Err::<Seq<char>, Stage4ErrorView>(
            Stage4ErrorView::UrlNotFound,
        ),
        Stage4ErrorView::UrlNotFound.kind() == ErrorKind::Lookup,
{
}

/// A lookup never yields an empty URL, and every failure of a lookup is of
/// the lookup class.
pub proof fn lemma_lookup_yields_url_or_lookup_failure(
    profile: Profile,
    captures: Seq<Option<Seq<char>>>,
)
    ensures
        match url_of_profile(profile, captures) {
            Ok(url) => url.len() > 0 && captures[profile.spec_match_index() as int] == Some(url),
            Err(e) => e.kind() == ErrorKind::Lookup,
        },
{
}

/// Where the engine accepts the line pattern and the first two archive lines
/// of a script both captured a URL, the script resolves to the first for the
/// hardened profile and to the second for the standard profile.
pub proof fn lemma_script_resolves_by_position(
    body: Seq<char>,
    captures: Seq<Option<Seq<char>>>,
    first: Seq<char>,
    second: Seq<char>,
)
    requires
        stage4_url_captures(body) == Some(captures),
        captures.len() >= 2,
        captures[0] == Some(first),
        captures[1] == Some(second),
        first.len() > 0,
        second.len() > 0,
    ensures
        spec_stage4_url(Profile::Hardened, body) == Ok::<Seq<char>, Stage4ErrorView>(first),
        spec_stage4_url(Profile::Standard, body) == Ok::<Seq<char>, Stage4ErrorView>(second),
{
}

} // verus!
