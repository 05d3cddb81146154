//! Localization dictionaries: a simple association of locale keys with
//! localized text.

use vstd::prelude::*;

verus! {

/// The dictionary denoted by a list of `(locale, text)` pairs: a later pair
/// for a locale overrides an earlier one.
pub open spec fn locale_map(entries: Seq<(String, String)>) -> Map<Seq<char>, Seq<char>>
    decreases entries.len(),
{
    if entries.len() == 0 {
        Map::empty()
    } else {
        locale_map(entries.drop_last()).insert(entries.last().0@, entries.last().1@)
    }
}

/// A localization dictionary for an option name or description, viewed as a
/// map from locale keys to localized text.
#[derive(Debug, PartialEq, Eq)]
pub struct Localizations {
    entries: Vec<(String, String)>,
}

impl View for Localizations {
    type V = Map<Seq<char>, Seq<char>>;

    closed spec fn view(&self) -> Map<Seq<char>, Seq<char>> {
        locale_map(self.entries@)
    }
}

/// Build a localization dictionary from `(locale, text)` pairs. A later
/// pair for a locale key overrides an earlier one.
pub fn convert_localizations(item: Vec<(String, String)>) -> (r: Localizations)
    ensures
        r@ == locale_map(item@),
{
    Localizations { entries: item }
}

impl Localizations {
    /// The `(locale, text)` pairs the dictionary was built from, in order.
    pub fn pairs(&self) -> (r: &Vec<(String, String)>)
        ensures
            locale_map(r@) == self@,
    {
        &self.entries
    }

    /// Look up the localized text stored for a locale key.
    pub fn get(&self, key: &String) -> (r: Option<&String>)
        ensures
            match r {
                Some(v) => self@.contains_key(key@) && self@[key@] == v@,
                None => !self@.contains_key(key@),
            },
    {
        let ghost all = self.entries@;
        let n: usize = self.entries.len();
        let mut j: usize = n;
        proof {
            assert(all.take(n as int) =~= all);
        }
        while j > 0
            invariant
                j <= n,
                n == self.entries.len(),
                all == self.entries@,
                locale_map(all).contains_key(key@) == locale_map(all.take(j as int)).contains_key(
                    key@,
                ),
                locale_map(all).contains_key(key@) ==> locale_map(all.take(j as int))[key@]
                    == locale_map(all)[key@],
            decreases j,
        {
            proof {
                assert(all.take(j as int).drop_last() =~= all.take(j as int - 1));
                assert(all.take(j as int).last() == all[j as int - 1]);
            }
            if self.entries[j - 1].0 == *key {
                return Some(&self.entries[j - 1].1);
            }
            j = j - 1;
        }
        proof {
            assert(all.take(0) =~= Seq::<(String, String)>::empty());
        }
        None
    }
}

} // verus!
