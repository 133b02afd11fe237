//! Locales: which translations are tried for a request, and in what order.

use crate::text::contains_text;
use crate::text::find_first;
use crate::text::str_equal;
use crate::text::texts;
use fluent::FluentArgs;
use fluent::FluentResource;
use intl_memoizer::concurrent::IntlLangMemoizer;
use vstd::prelude::*;
use vstd::string::*;

pub mod commands;
pub mod tts;

verus! {

/// How far the search for a translation reaches beyond the locale asked for.
#[derive(Clone, Copy, Debug, PartialEq, Eq, Structural)]
pub enum LocaleMatchingMode {
    /// The locale as given, then the fallback.
    Exact,
    /// The locale as given, then its language (what stands before the first
    /// delimiter), then the fallback.
    Cascading { delimiter: char },
}

/// The order in which locales are tried.
#[derive(Clone, Debug)]
pub struct LocaleSearchPolicy {
    pub fallback: String,
    pub mode: LocaleMatchingMode,
}

/// The language of `locale`: what stands before the first `delimiter`, if
/// there is one.
pub open spec fn language_of(locale: Seq<char>, delimiter: char) -> Option<Seq<char>> {
    match locale.index_of_first(delimiter) {
        Some(index) => Some(locale.subrange(0, index)),
        None => None,
    }
}

/// The locales tried before the fallback.
pub open spec fn own_candidates(mode: LocaleMatchingMode, locale: Seq<char>) -> Seq<Seq<char>> {
    match mode {
        LocaleMatchingMode::Exact => seq![locale],
        LocaleMatchingMode::Cascading { delimiter } => match language_of(locale, delimiter) {
            Some(language) => seq![locale, language],
            None => seq![locale],
        },
    }
}

/// The locales tried for `locale`, in order: those of [`own_candidates`],
/// then the fallback unless it is already among them.
pub open spec fn candidates_spec(fallback: Seq<char>, mode: LocaleMatchingMode, locale: Seq<char>) -> Seq<
    Seq<char>,
> {
    let own = own_candidates(mode, locale);
    if own.contains(fallback) {
        own
    } else {
        own.push(fallback)
    }
}

impl LocaleSearchPolicy {
    /// A policy that tries the locale, its language, and then `fallback`.
    pub fn new_cascading(fallback: String, delimiter: char) -> (policy: Self)
        ensures
            policy.fallback == fallback,
            policy.mode == (LocaleMatchingMode::Cascading { delimiter }),
    {
        Self { fallback, mode: LocaleMatchingMode::Cascading { delimiter } }
    }

    /// A policy that tries the locale and then `fallback`.
    pub fn new_exact(fallback: String) -> (policy: Self)
        ensures
            policy.fallback == fallback,
            policy.mode == LocaleMatchingMode::Exact,
    {
        Self { fallback, mode: LocaleMatchingMode::Exact }
    }

    /// The policy for what the bot says: the locale of the voice, its
    /// language before the first `-`, then `fallback`.
    pub fn for_speech(fallback: String) -> (policy: Self)
        ensures
            policy.fallback == fallback,
            policy.mode == (LocaleMatchingMode::Cascading { delimiter: '-' }),
    {
        Self::new_cascading(fallback, '-')
    }

    /// The policy for what the chat platform shows: its locale as it is,
    /// then `fallback`.
    pub fn for_chat(fallback: String) -> (policy: Self)
        ensures
            policy.fallback == fallback,
            policy.mode == LocaleMatchingMode::Exact,
    {
        Self::new_exact(fallback)
    }

    /// The locales to try for `locale`, in order; see [`candidates_spec`].
    pub fn generate_candidates(&self, locale: &str) -> (candidates: Vec<String>)
        ensures
            texts(candidates@) == candidates_spec(self.fallback@, self.mode, locale@),
    {
        let mut candidates: Vec<String> = Vec::new();
        candidates.push(locale.to_owned());
        match self.mode {
            LocaleMatchingMode::Cascading { delimiter } => {
                match find_first(locale, delimiter) {
                    Some(index) => {
                        proof {
                            locale@.index_of_first_ensures(delimiter);
                        }
                        candidates.push(locale.substring_char(0, index).to_owned());
                    },
                    None => {},
                }
            },
            LocaleMatchingMode::Exact => {},
        }
        assert(texts(candidates@) =~= own_candidates(self.mode, locale@));
        if !contains_text(&candidates, self.fallback.as_str()) {
            candidates.push(self.fallback.clone());
            assert(texts(candidates@) =~= own_candidates(self.mode, locale@).push(self.fallback@));
        }
        candidates
    }
}

/// `fluent::bundle::FluentBundle`: the messages of one locale.
#[verifier::external_type_specification]
#[verifier::external_body]
#[verifier::reject_recursive_types(R)]
#[verifier::reject_recursive_types(M)]
pub struct ExFluentBundle<R, M>(fluent::bundle::FluentBundle<R, M>);

/// `fluent::FluentResource`: a parsed file of messages.
#[verifier::external_type_specification]
#[verifier::external_body]
pub struct ExFluentResource(FluentResource);

/// `intl_memoizer::concurrent::IntlLangMemoizer`: a bundle's formatters.
#[verifier::external_type_specification]
#[verifier::external_body]
pub struct ExIntlLangMemoizer(IntlLangMemoizer);

/// `fluent::FluentArgs`: the values that a message is formatted with.
#[verifier::external_type_specification]
#[verifier::external_body]
pub struct ExFluentArgs<'args>(FluentArgs<'args>);

/// A bundle that may be shared between threads.
pub type Bundle = fluent::bundle::FluentBundle<FluentResource, IntlLangMemoizer>;

/// What a bundle can be asked for: each message id that has a value, with
/// `None`, and each attribute of a message, with its name.
pub uninterp spec fn bundle_keys(bundle: fluent::bundle::FluentBundle<FluentResource, IntlLangMemoizer>) -> Set<
    (Seq<char>, Option<Seq<char>>),
>;

/// The text that a bundle gives for a message's value, or for one of its
/// attributes, when it is formatted without arguments. This is a property
/// of the bundle for bundles whose functions, if they have any, depend on
/// nothing but their arguments.
pub uninterp spec fn bundle_text(
    bundle: fluent::bundle::FluentBundle<FluentResource, IntlLangMemoizer>,
    id: Seq<char>,
    attribute: Option<Seq<char>>,
) -> Seq<char>;

/// `FluentBundle::get_message`, `FluentMessage::value`, then
/// `FluentBundle::format_pattern`: the value of message `id`, formatted with
/// `args`; `None` where the bundle has no such message, or the message no
/// value. What comes out with arguments is left open.
#[verifier::external_body]
pub(crate) fn format_value(bundle: &Bundle, id: &str, args: Option<&FluentArgs>) -> (formatted: Option<String>)
    ensures
        formatted is Some <==> bundle_keys(*bundle).contains((id@, None)),
        formatted matches Some(text) ==> args is None ==> text@ == bundle_text(*bundle, id@, None),
{
    let pattern = bundle.get_message(id)?.value()?;
    Some(bundle.format_pattern(pattern, args, &mut vec![]).into_owned())
}

/// `FluentBundle::get_message`, `FluentMessage::get_attribute`, then
/// `FluentBundle::format_pattern`: attribute `attribute` of message `id`,
/// formatted with `args`; `None` where the bundle has no such message, or
/// the message no such attribute. What comes out with arguments is left
/// open.
#[verifier::external_body]
fn format_attribute(bundle: &Bundle, id: &str, attribute: &str, args: Option<&FluentArgs>) -> (formatted:
    Option<String>)
    ensures
        formatted is Some <==> bundle_keys(*bundle).contains((id@, Some(attribute@))),
        formatted matches Some(text) ==> args is None ==> text@ == bundle_text(
            *bundle,
            id@,
            Some(attribute@),
        ),
{
    let message = bundle.get_message(id)?;
    let pattern = message.get_attribute(attribute)?.value();
    Some(bundle.format_pattern(pattern, args, &mut vec![]).into_owned())
}

/// The ids of the messages of a bundle, with or without a value.
pub uninterp spec fn bundle_messages(bundle: fluent::bundle::FluentBundle<FluentResource, IntlLangMemoizer>) -> Set<
    Seq<char>,
>;

/// `FluentBundle::has_message`: whether the bundle has a message `id`.
#[verifier::external_body]
pub(crate) fn has_message(bundle: &Bundle, id: &str) -> (present: bool)
    ensures
        present == bundle_messages(*bundle).contains(id@),
{
    bundle.has_message(id)
}

/// What is asked of a bundle: a message's value, or one of its attributes.
pub open spec fn key_of(id: Seq<char>, attribute: Option<&str>) -> (Seq<char>, Option<Seq<char>>) {
    match attribute {
        Some(name) => (id, Some(name@)),
        None => (id, None),
    }
}

/// The bundle entered last under `name`.
pub open spec fn bundle_of(bundles: Seq<(String, Bundle)>, name: Seq<char>) -> Option<Bundle>
    decreases bundles.len(),
{
    if bundles.len() == 0 {
        None
    } else if bundles.last().0@ == name {
        Some(bundles.last().1)
    } else {
        bundle_of(bundles.drop_last(), name)
    }
}

/// Whether the bundle of locale `candidate` has what is asked for.
pub open spec fn answers(
    bundles: Seq<(String, Bundle)>,
    candidate: Seq<char>,
    key: (Seq<char>, Option<Seq<char>>),
) -> bool {
    match bundle_of(bundles, candidate) {
        Some(bundle) => bundle_keys(bundle).contains(key),
        None => false,
    }
}

/// The first of `candidates` whose bundle has what is asked for.
pub open spec fn first_answer(
    bundles: Seq<(String, Bundle)>,
    candidates: Seq<Seq<char>>,
    key: (Seq<char>, Option<Seq<char>>),
) -> Option<Seq<char>>
    decreases candidates.len(),
{
    if candidates.len() == 0 {
        None
    } else if answers(bundles, candidates.first(), key) {
        Some(candidates.first())
    } else {
        first_answer(bundles, candidates.drop_first(), key)
    }
}

/// Why a text could not be had.
#[derive(Debug, Clone)]
pub enum LocaleError {
    /// No bundle is entered under the fallback locale.
    FallbackNotFound(String),
    /// No locale that was tried has the message.
    MessageNotFound(String),
}

/// The bundle entered last under `name`, if there is one.
pub fn find_bundle<'a>(bundles: &'a Vec<(String, Bundle)>, name: &str) -> (found: Option<
    &'a Bundle,
>)
    ensures
        match bundle_of(bundles@, name@) {
            Some(bundle) => found matches Some(it) && *it == bundle,
            None => found is None,
        },
{
    let mut remaining: usize = bundles.len();
    assert(bundles@.subrange(0, remaining as int) =~= bundles@);
    while remaining > 0
        invariant
            remaining <= bundles@.len(),
            bundle_of(bundles@, name@) == bundle_of(bundles@.subrange(0, remaining as int), name@),
        decreases remaining,
    {
        let ghost prefix = bundles@.subrange(0, remaining as int);
        remaining = remaining - 1;
        assert(prefix.last() == bundles@[remaining as int]);
        assert(prefix.drop_last() =~= bundles@.subrange(0, remaining as int));
        if str_equal(bundles[remaining].0.as_str(), name) {
            return Some(&bundles[remaining].1);
        }
    }
    assert(bundles@.subrange(0, 0).len() == 0);
    None
}

/// The translations of the installation, by locale.
///
/// Where a locale was entered twice, the later bundle counts.
pub struct Locales {
    search_policy: LocaleSearchPolicy,
    bundles: Vec<(String, Bundle)>,
}

impl Locales {
    /// The order in which locales are tried.
    pub closed spec fn policy(self) -> LocaleSearchPolicy {
        self.search_policy
    }

    /// The bundles, each under its locale, in the order in which they were
    /// given.
    pub closed spec fn bundles(self) -> Seq<(String, Bundle)> {
        self.bundles@
    }

    /// The locale whose bundle answers a request for `key` made in `locale`.
    pub open spec fn answering(self, locale: Seq<char>, key: (Seq<char>, Option<Seq<char>>)) -> Option<
        Seq<char>,
    > {
        first_answer(self.bundles(), candidates_spec(self.policy().fallback@, self.policy().mode, locale), key)
    }

    /// Puts `bundles` under `search_policy`. Refused where no bundle is
    /// entered under the policy's fallback locale.
    pub fn new_with_bundles(search_policy: LocaleSearchPolicy, bundles: Vec<(String, Bundle)>) -> (made:
        Result<Self, LocaleError>)
        ensures
            match bundle_of(bundles@, search_policy.fallback@) {
                Some(_) => made matches Ok(locales) && locales.policy() == search_policy && locales.bundles()
                    == bundles@,
                None => made matches Err(LocaleError::FallbackNotFound(name)) && name@
                    == search_policy.fallback@,
            },
    {
        if find_bundle(&bundles, search_policy.fallback.as_str()).is_none() {
            return Err(LocaleError::FallbackNotFound(search_policy.fallback.clone()));
        }
        Ok(Self { search_policy, bundles })
    }

    /// What `bundle` gives for message `id`: its value, or the attribute
    /// named by `attr`.
    pub fn format(bundle: &Bundle, id: &str, attr: Option<&str>, args: Option<&FluentArgs>) -> (formatted:
        Option<String>)
        ensures
            formatted is Some <==> bundle_keys(*bundle).contains(key_of(id@, attr)),
            formatted matches Some(text) ==> args is None ==> text@ == bundle_text(
                *bundle,
                key_of(id@, attr).0,
                key_of(id@, attr).1,
            ),
    {
        match attr {
            Some(attribute) => format_attribute(bundle, id, attribute, args),
            None => format_value(bundle, id, args),
        }
    }

    /// The text of message `id`, or of its attribute `attr`, for `locale`.
    ///
    /// The locales of the policy are tried in order; the first whose bundle
    /// has what is asked for gives the text. A locale without a bundle, a
    /// bundle without the message, and a message without the value or the
    /// attribute are passed over alike.
    pub fn resolve(&self, locale: &str, id: &str, attr: Option<&str>, args: Option<&FluentArgs>) -> (resolved:
        Result<String, LocaleError>)
        ensures
            match self.answering(locale@, key_of(id@, attr)) {
                Some(candidate) => resolved matches Ok(text) && (args is None ==> text@ == bundle_text(
                    bundle_of(self.bundles(), candidate)->0,
                    key_of(id@, attr).0,
                    key_of(id@, attr).1,
                )),
                None => resolved matches Err(LocaleError::MessageNotFound(missing)) && missing@ == id@,
            },
    {
        let candidates = self.search_policy.generate_candidates(locale);
        let ghost all = texts(candidates@);
        let ghost key = key_of(id@, attr);
        let mut index: usize = 0;
        assert(all.subrange(0, all.len() as int) =~= all);
        while index < candidates.len()
            invariant
                index <= candidates@.len(),
                all == texts(candidates@),
                all == candidates_spec(self.search_policy.fallback@, self.search_policy.mode, locale@),
                key == key_of(id@, attr),
                first_answer(self.bundles@, all, key) == first_answer(
                    self.bundles@,
                    all.subrange(index as int, all.len() as int),
                    key,
                ),
            decreases candidates@.len() - index,
        {
            let ghost rest = all.subrange(index as int, all.len() as int);
            assert(rest.first() == candidates@[index as int]@);
            assert(rest.drop_first() =~= all.subrange(index as int + 1, all.len() as int));
            assert(rest.len() > 0);
            match find_bundle(&self.bundles, candidates[index].as_str()) {
                Some(bundle) => {
                    match Self::format(bundle, id, attr, args) {
                        Some(text) => {
                            assert(answers(self.bundles@, rest.first(), key));
                            assert(first_answer(self.bundles@, rest, key) == Some(rest.first()));
                            return Ok(text);
                        },
                        None => {},
                    }
                },
                None => {},
            }
            index = index + 1;
        }
        assert(all.subrange(all.len() as int, all.len() as int).len() == 0);
        Err(LocaleError::MessageNotFound(id.to_owned()))
    }
}

} // verus!
