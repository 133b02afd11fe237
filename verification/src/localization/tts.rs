//! The texts that the bot itself says, by locale.

use crate::localization::bundle_keys;
use crate::localization::bundle_messages;
use crate::localization::bundle_of;
use crate::localization::bundle_text;
use crate::localization::candidates_spec;
use crate::localization::find_bundle;
use crate::localization::format_value;
use crate::localization::has_message;
use crate::localization::Bundle;
use crate::localization::LocaleMatchingMode;
use crate::localization::LocaleSearchPolicy;
use crate::text::texts;
use fluent::FluentArgs;
use vstd::prelude::*;
use vstd::string::*;

verus! {

/// Why a text could not be had.
#[derive(Debug, Clone)]
pub enum TtsLocaleError {
    /// No bundle is entered under the fallback locale.
    FallbackNotFound(String),
    /// The first locale that has the message has it without a value.
    MessageWithoutValue(String),
    /// No locale that was tried has the message.
    MessageNotFound(String),
}

/// The locales tried for `locale`: the locale, its language (what stands
/// before the first `-`), then `fallback`.
pub open spec fn cascade(fallback: Seq<char>, locale: Seq<char>) -> Seq<Seq<char>> {
    candidates_spec(fallback, LocaleMatchingMode::Cascading { delimiter: '-' }, locale)
}

/// The first of `candidates` whose bundle has a message `id`.
pub open spec fn first_with_message(bundles: Seq<(String, Bundle)>, candidates: Seq<Seq<char>>, id: Seq<char>) -> Option<
    Bundle,
>
    decreases candidates.len(),
{
    if candidates.len() == 0 {
        None
    } else {
        match bundle_of(bundles, candidates.first()) {
            Some(bundle) => if bundle_messages(bundle).contains(id) {
                Some(bundle)
            } else {
                first_with_message(bundles, candidates.drop_first(), id)
            },
            None => first_with_message(bundles, candidates.drop_first(), id),
        }
    }
}

/// The texts of the bot, by locale.
///
/// Where a locale was entered twice, the later bundle counts.
pub struct Locales {
    fallback: String,
    bundles: Vec<(String, Bundle)>,
}

impl Locales {
    /// The locale tried last.
    pub closed spec fn fallback(self) -> Seq<char> {
        self.fallback@
    }

    /// The bundles, each under its locale, in the order in which they were
    /// given.
    pub closed spec fn bundles(self) -> Seq<(String, Bundle)> {
        self.bundles@
    }

    /// Puts `bundles` behind `fallback`. Refused where no bundle is entered
    /// under `fallback`.
    pub fn new_with_bundles(fallback: String, bundles: Vec<(String, Bundle)>) -> (made: Result<
        Self,
        TtsLocaleError,
    >)
        ensures
            match bundle_of(bundles@, fallback@) {
                Some(_) => made matches Ok(locales) && locales.fallback() == fallback@ && locales.bundles()
                    == bundles@,
                None => made matches Err(TtsLocaleError::FallbackNotFound(name)) && name@ == fallback@,
            },
    {
        if find_bundle(&bundles, fallback.as_str()).is_none() {
            return Err(TtsLocaleError::FallbackNotFound(fallback.clone()));
        }
        Ok(Self { fallback, bundles })
    }

    /// The text of message `id` for `locale`.
    ///
    /// The locales of [`cascade`] are tried in order. The first whose
    /// bundle has the message decides: its value is the text, and a message
    /// without a value is an error, not a reason to try the next locale.
    pub fn resolve(&self, locale: &str, id: &str, args: Option<&FluentArgs>) -> (resolved: Result<
        String,
        TtsLocaleError,
    >)
        ensures
            match first_with_message(self.bundles(), cascade(self.fallback(), locale@), id@) {
                Some(bundle) => if bundle_keys(bundle).contains((id@, None)) {
                    resolved matches Ok(text) && (args is None ==> text@ == bundle_text(bundle, id@, None))
                } else {
                    resolved matches Err(TtsLocaleError::MessageWithoutValue(named)) && named@ == id@
                },
                None => resolved matches Err(TtsLocaleError::MessageNotFound(missing)) && missing@ == id@,
            },
    {
        let policy = LocaleSearchPolicy::new_cascading(self.fallback.clone(), '-');
        let candidates = policy.generate_candidates(locale);
        let ghost all = texts(candidates@);
        let mut index: usize = 0;
        assert(all.subrange(0, all.len() as int) =~= all);
        while index < candidates.len()
            invariant
                index <= candidates@.len(),
                all == texts(candidates@),
                all == cascade(self.fallback@, locale@),
                first_with_message(self.bundles@, all, id@) == first_with_message(
                    self.bundles@,
                    all.subrange(index as int, all.len() as int),
                    id@,
                ),
            decreases candidates@.len() - index,
        {
            let ghost rest = all.subrange(index as int, all.len() as int);
            assert(rest.first() == candidates@[index as int]@);
            assert(rest.drop_first() =~= all.subrange(index as int + 1, all.len() as int));
            assert(rest.len() > 0);
            match find_bundle(&self.bundles, candidates[index].as_str()) {
                Some(bundle) => {
                    if has_message(bundle, id) {
                        assert(first_with_message(self.bundles@, rest, id@) == Some(*bundle));
                        return match format_value(bundle, id, args) {
                            Some(text) => Ok(text),
                            None => Err(TtsLocaleError::MessageWithoutValue(id.to_owned())),
                        };
                    }
                },
                None => {},
            }
            index = index + 1;
        }
        assert(all.subrange(all.len() as int, all.len() as int).len() == 0);
        Err(TtsLocaleError::MessageNotFound(id.to_owned()))
    }
}

} // verus!
