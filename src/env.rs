//! Credentials read from configuration entries.
//!
//! An entry names `DD_API_KEY` or `DD_APPLICATION_KEY`; other names are
//! ignored, and a later entry for a name overrides an earlier one. Entries
//! come as name and value pairs, as `name=value` texts, or as one text of
//! comma-separated `name=value` entries.

use vstd::prelude::*;

use crate::text::{
    chars_of, find_char, find_from, lemma_find_from_bounds, same_text, split, split_acc,
    text_range, trim_chars, trimmed,
};

verus! {

/// The API credentials.
#[derive(Clone, Debug)]
pub struct EnvConfig {
    /// The `DD_API_KEY` entry
    pub api_key: Option<String>,
    /// The `DD_APPLICATION_KEY` entry
    pub application_key: Option<String>,
}

pub open spec fn opt_text(o: Option<String>) -> Option<Seq<char>> {
    match o {
        Some(s) => Some(s@),
        None => None,
    }
}

/// The API key and the application key, as texts.
pub type Credentials = (Option<Seq<char>>, Option<Seq<char>>);

impl View for EnvConfig {
    type V = Credentials;

    open spec fn view(&self) -> Credentials {
        (opt_text(self.api_key), opt_text(self.application_key))
    }
}

/// The credentials after the entry `name` = `value`.
pub open spec fn with_pair(c: Credentials, name: Seq<char>, value: Seq<char>) -> Credentials {
    if name == "DD_API_KEY"@ {
        (Some(value), c.1)
    } else if name == "DD_APPLICATION_KEY"@ {
        (c.0, Some(value))
    } else {
        c
    }
}

/// The credentials after each pair in turn.
pub open spec fn with_pairs(c: Credentials, pairs: Seq<(Seq<char>, Seq<char>)>) -> Credentials
    decreases pairs.len(),
{
    if pairs.len() == 0 {
        c
    } else {
        with_pairs(with_pair(c, pairs[0].0, pairs[0].1), pairs.drop_first())
    }
}

/// The name of a `name=value` entry: the trimmed entry up to the first `=`.
pub open spec fn entry_name(e: Seq<char>) -> Seq<char> {
    let t = trimmed(e);
    t.subrange(0, find_from(t, '=', 0))
}

/// The value of a `name=value` entry: what stands between the first `=`
/// and the next one, or empty if there is no `=`.
pub open spec fn entry_value(e: Seq<char>) -> Seq<char> {
    let t = trimmed(e);
    let k = find_from(t, '=', 0);
    if k < t.len() {
        t.subrange(k + 1, find_from(t, '=', k + 1))
    } else {
        Seq::empty()
    }
}

/// The credentials after each `name=value` entry in turn.
pub open spec fn with_entries(c: Credentials, entries: Seq<Seq<char>>) -> Credentials
    decreases entries.len(),
{
    if entries.len() == 0 {
        c
    } else {
        with_entries(
            with_pair(c, entry_name(entries[0]), entry_value(entries[0])),
            entries.drop_first(),
        )
    }
}

pub open spec fn no_credentials() -> Credentials {
    (None, None)
}

pub open spec fn pairs_text(pairs: Seq<(String, String)>) -> Seq<(Seq<char>, Seq<char>)> {
    pairs.map_values(|p: (String, String)| (p.0@, p.1@))
}

pub open spec fn entries_text(entries: Seq<String>) -> Seq<Seq<char>> {
    entries.map_values(|s: String| s@)
}

/// Splits a `name=value` entry into its name and value.
fn parse_entry(e: &Vec<char>) -> (r: (String, String))
    ensures
        r.0@ == entry_name(e@),
        r.1@ == entry_value(e@),
{
    let t = trim_chars(e);
    let k = find_char(&t, '=', 0);
    proof {
        lemma_find_from_bounds(t@, '=', 0);
    }
    let name = text_range(&t, 0, k);
    let value = if k < t.len() {
        let j = find_char(&t, '=', k + 1);
        proof {
            lemma_find_from_bounds(t@, '=', k + 1);
        }
        text_range(&t, k + 1, j)
    } else {
        String::new()
    };
    (name, value)
}

impl EnvConfig {
    /// No credentials.
    pub fn empty() -> (r: EnvConfig)
        ensures
            r@ == no_credentials(),
    {
        EnvConfig { api_key: None, application_key: None }
    }

    /// The credentials of the given pairs, or none.
    pub fn new(keys: Option<Vec<(String, String)>>) -> (r: EnvConfig)
        ensures
            keys matches Some(k) ==> r@ == with_pairs(no_credentials(), pairs_text(k@)),
            keys is None ==> r@ == no_credentials(),
    {
        match keys {
            Some(k) => EnvConfig::from_pairs(k),
            None => EnvConfig::empty(),
        }
    }

    /// Takes in the entry `name` = `value`.
    fn set(&mut self, name: &str, value: String)
        ensures
            final(self)@ == with_pair(old(self)@, name@, value@),
    {
        if same_text(name, "DD_API_KEY") {
            self.api_key = Some(value);
        } else if same_text(name, "DD_APPLICATION_KEY") {
            self.application_key = Some(value);
        }
    }

    /// The credentials of a list of name and value pairs.
    pub fn from_pairs(pairs: Vec<(String, String)>) -> (r: EnvConfig)
        ensures
            r@ == with_pairs(no_credentials(), pairs_text(pairs@)),
    {
        let ghost all = pairs_text(pairs@);
        let mut cfg = EnvConfig::empty();
        let mut i: usize = 0;
        proof {
            assert(all.subrange(0, all.len() as int) =~= all);
        }
        while i < pairs.len()
            invariant
                i <= pairs@.len(),
                all == pairs_text(pairs@),
                all.len() == pairs@.len(),
                with_pairs(no_credentials(), all) == with_pairs(
                    cfg@,
                    all.subrange(i as int, all.len() as int),
                ),
            decreases pairs@.len() - i,
        {
            proof {
                let rest = all.subrange(i as int, all.len() as int);
                assert(rest.drop_first() =~= all.subrange(i + 1, all.len() as int));
                assert(rest[0] == (pairs@[i as int].0@, pairs@[i as int].1@));
            }
            let value = pairs[i].1.clone();
            cfg.set(pairs[i].0.as_str(), value);
            i = i + 1;
        }
        proof {
            assert(all.subrange(i as int, all.len() as int) =~= Seq::<(Seq<char>, Seq<char>)>::empty());
        }
        cfg
    }

    /// The credentials of a list of `name=value` entries.
    pub fn from_entries(entries: Vec<String>) -> (r: EnvConfig)
        ensures
            r@ == with_entries(no_credentials(), entries_text(entries@)),
    {
        let ghost all = entries_text(entries@);
        let mut cfg = EnvConfig::empty();
        let mut i: usize = 0;
        proof {
            assert(all.subrange(0, all.len() as int) =~= all);
        }
        while i < entries.len()
            invariant
                i <= entries@.len(),
                all == entries_text(entries@),
                all.len() == entries@.len(),
                with_entries(no_credentials(), all) == with_entries(
                    cfg@,
                    all.subrange(i as int, all.len() as int),
                ),
            decreases entries@.len() - i,
        {
            proof {
                let rest = all.subrange(i as int, all.len() as int);
                assert(rest.drop_first() =~= all.subrange(i + 1, all.len() as int));
                assert(rest[0] == entries@[i as int]@);
            }
            let chars = chars_of(entries[i].as_str());
            let (name, value) = parse_entry(&chars);
            cfg.set(name.as_str(), value);
            i = i + 1;
        }
        proof {
            assert(all.subrange(i as int, all.len() as int) =~= Seq::<Seq<char>>::empty());
        }
        cfg
    }

    /// The credentials of one text of comma-separated `name=value` entries.
    pub fn from_text(text: &str) -> (r: EnvConfig)
        ensures
            r@ == with_entries(no_credentials(), split(text@, ',')),
    {
        let s = chars_of(text);
        let mut cfg = EnvConfig::empty();
        let mut cur: Vec<char> = Vec::new();
        let mut i: usize = 0;
        proof {
            assert(s@.subrange(0, s@.len() as int) =~= s@);
        }
        while i < s.len()
            invariant
                i <= s@.len(),
                s@ == text@,
                with_entries(no_credentials(), split(text@, ',')) == with_entries(
                    cfg@,
                    split_acc(s@.subrange(i as int, s@.len() as int), ',', cur@),
                ),
            decreases s@.len() - i,
        {
            let c = s[i];
            let ghost rest = s@.subrange(i as int, s@.len() as int);
            proof {
                assert(rest.drop_first() =~= s@.subrange(i + 1, s@.len() as int));
            }
            if c == ',' {
                proof {
                    let tail = split_acc(rest.drop_first(), ',', Seq::empty());
                    assert((seq![cur@] + tail).drop_first() =~= tail);
                }
                let (name, value) = parse_entry(&cur);
                cfg.set(name.as_str(), value);
                cur = Vec::new();
            } else {
                cur.push(c);
            }
            i = i + 1;
        }
        proof {
            assert(s@.subrange(i as int, s@.len() as int) =~= Seq::<char>::empty());
            assert(seq![cur@].drop_first() =~= Seq::<Seq<char>>::empty());
        }
        let ghost before = cfg@;
        let (name, value) = parse_entry(&cur);
        cfg.set(name.as_str(), value);
        proof {
            let last = seq![cur@];
            assert(split_acc(Seq::<char>::empty(), ',', cur@) == last);
            assert(with_entries(cfg@, last.drop_first()) == cfg@);
            assert(with_entries(before, last) == cfg@);
        }
        cfg
    }
}

} // verus!
