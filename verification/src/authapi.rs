//! Where the auth service is found.
use vstd::prelude::*;
use vstd::string::*;

use crate::text::{
    is_blank, is_white_space, law_trim_blank, law_trim_end_char, law_trim_end_char_keeps_the_rest,
    law_trim_keeps_the_middle, lemma_trim_start_keeps_last, lemma_trim_start_push, trim, trim_end,
    trim_end_char, trim_end_matches, trim_start,
};

verus! {

/// The auth service that is used where the environment names none.
pub const PROD_AUTHAPI_BASE_URL: &'static str = "https://auth.openai.com/api/accounts";

/// The environment variable that names the auth service.
pub const CODEX_AUTHAPI_BASE_URL_ENV_VAR: &'static str = "CODEX_AUTHAPI_BASE_URL";

/// The environment variable that named the auth service before
/// [`CODEX_AUTHAPI_BASE_URL_ENV_VAR`] did.
pub const LEGACY_CODEX_AGENT_IDENTITY_AUTHAPI_BASE_URL_ENV_VAR: &'static str =
    "CODEX_AGENT_IDENTITY_AUTHAPI_BASE_URL";

/// A variable's value as a base URL: without the white space around it and without the slashes
/// that it then ends with.
pub open spec fn base_url_of(value: Seq<char>) -> Seq<char> {
    trim_end_char(trim_end(trim_start(value)), '/')
}

/// The base URL that a variable gives: none where it is unset, or where nothing is left of it.
pub open spec fn non_empty_base_url(value: Option<Seq<char>>) -> Option<Seq<char>> {
    match value {
        Some(value) if base_url_of(value).len() > 0 => Some(base_url_of(value)),
        _ => None,
    }
}

/// The base URL that the values of the two variables give.
pub open spec fn chosen_base_url(current: Option<Seq<char>>, legacy: Option<Seq<char>>) -> Seq<char> {
    match (non_empty_base_url(current), non_empty_base_url(legacy)) {
        (Some(base_url), _) => base_url,
        (None, Some(base_url)) => base_url,
        (None, None) => PROD_AUTHAPI_BASE_URL@,
    }
}

/// The base URL of the auth service.
///
/// `current` and `legacy` are the values of [`CODEX_AUTHAPI_BASE_URL_ENV_VAR`] and
/// [`LEGACY_CODEX_AGENT_IDENTITY_AUTHAPI_BASE_URL_ENV_VAR`], where they are set.
pub fn authapi_base_url(current: Option<String>, legacy: Option<String>) -> (base_url: String)
    ensures
        base_url@ == chosen_base_url(current.deep_view(), legacy.deep_view()),
{
    match read_non_empty_env_var(current) {
        Some(base_url) => base_url,
        None => match read_non_empty_env_var(legacy) {
            Some(base_url) => base_url,
            None => PROD_AUTHAPI_BASE_URL.to_owned(),
        },
    }
}

/// The base URL that the value of an environment variable gives.
pub fn read_non_empty_env_var(value: Option<String>) -> (base_url: Option<String>)
    ensures
        base_url.deep_view() == non_empty_base_url(value.deep_view()),
{
    match value {
        Some(value) => {
            let base_url = trim_end_matches(trim(value.as_str()), '/').to_owned();
            if base_url.as_str().is_empty() {
                None
            } else {
                Some(base_url)
            }
        },
        None => None,
    }
}

/// The base URL is never empty and never ends with a slash.
pub proof fn law_base_url_is_bare(current: Option<Seq<char>>, legacy: Option<Seq<char>>)
    ensures
        chosen_base_url(current, legacy).len() > 0,
        chosen_base_url(current, legacy).last() != '/',
{
    reveal_strlit("https://auth.openai.com/api/accounts");
    if let Some(value) = current {
        law_trim_end_char(trim_end(trim_start(value)), '/');
    }
    if let Some(value) = legacy {
        law_trim_end_char(trim_end(trim_start(value)), '/');
    }
}

/// The current variable comes before the legacy one, and that before the default.
pub proof fn law_order_of_variables(current: Seq<char>, legacy: Option<Seq<char>>)
    ensures
        base_url_of(current).len() > 0 ==> chosen_base_url(Some(current), legacy) == base_url_of(
            current,
        ),
        chosen_base_url(None, Some(current)) == chosen_base_url(Some(current), None),
        chosen_base_url(None, None) == PROD_AUTHAPI_BASE_URL@,
{
}

/// A variable that holds nothing but white space counts as unset.
pub proof fn law_blank_counts_as_unset(value: Seq<char>, other: Option<Seq<char>>)
    requires
        forall|i: int| 0 <= i < value.len() ==> is_white_space(#[trigger] value[i]),
    ensures
        chosen_base_url(Some(value), other) == chosen_base_url(None, other),
        chosen_base_url(other, Some(value)) == chosen_base_url(other, None),
{
    law_trim_blank(value);
}

/// A slash after a base URL makes no difference, unless it keeps white space before it from being
/// dropped.
pub proof fn law_trailing_slash_is_ignored(value: Seq<char>)
    requires
        trim_start(value).len() > 0 ==> !is_white_space(value.last()),
    ensures
        base_url_of(value.push('/')) == base_url_of(value),
{
    lemma_trim_start_push(value, '/');
    assert(trim_start(value).push('/').drop_last() =~= trim_start(value));
    if trim_start(value).len() > 0 {
        lemma_trim_start_keeps_last(value);
    }
}

/// A variable's value is white space, a base URL, slashes and white space again, and the base URL is
/// used as it stands there, character for character, before any later variable. Where the base URL
/// is missing, the variable counts as unset.
pub proof fn law_the_named_base_url_is_used(
    before: Seq<char>,
    base_url: Seq<char>,
    slashes: Seq<char>,
    after: Seq<char>,
    other: Option<Seq<char>>,
)
    requires
        is_blank(before),
        is_blank(after),
        forall|i: int| 0 <= i < slashes.len() ==> #[trigger] slashes[i] == '/',
        base_url.len() > 0 ==> !is_white_space(base_url.first()) && base_url.last() != '/',
        slashes.len() == 0 && base_url.len() > 0 ==> !is_white_space(base_url.last()),
    ensures
        ({
            let value = before + (base_url + slashes) + after;
            if base_url.len() > 0 {
                &&& chosen_base_url(Some(value), other) == base_url
                &&& chosen_base_url(None, Some(value)) == base_url
            } else {
                &&& chosen_base_url(Some(value), other) == chosen_base_url(None, other)
                &&& chosen_base_url(other, Some(value)) == chosen_base_url(other, None)
            }
        }),
{
    let middle = base_url + slashes;
    if slashes.len() > 0 {
        assert(slashes[0] == '/' && slashes[slashes.len() - 1] == '/');
        assert(middle.last() == '/');
    } else {
        assert(middle =~= base_url);
    }
    if base_url.len() > 0 {
        assert(middle.first() == base_url.first());
    } else {
        assert(middle =~= slashes);
    }
    law_trim_keeps_the_middle(before, middle, after);
    law_trim_end_char_keeps_the_rest(base_url, slashes, '/');
}

/// Where no variable is set, the production service is asked.
pub proof fn law_production_is_the_default()
    ensures
        chosen_base_url(None, None) == "https://auth.openai.com/api/accounts"@,
{
}

} // verus!
