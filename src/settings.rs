//! Key layout of user settings in the flat settings store.
//!
//! A setting `key` of section `section` lives under the store key
//! `settings.<section>.<key>`; a section is addressed by the prefix
//! `settings.<section>.`.

use vstd::prelude::*;
use crate::text::{has_prefix, strip_prefix, texts};

verus! {

pub open spec fn section_prefix_spec(section: Seq<char>) -> Seq<char> {
    "settings."@ + section + "."@
}

pub open spec fn store_key_spec(section: Seq<char>, key: Seq<char>) -> Seq<char> {
    section_prefix_spec(section) + key
}

/// Whether a store key belongs to `section`.
pub open spec fn in_section(section: Seq<char>) -> spec_fn(Seq<char>) -> bool {
    |stored: Seq<char>| has_prefix(stored, section_prefix_spec(section))
}

/// The prefix shared by every store key of `section`.
pub fn section_prefix(section: &str) -> (r: String)
    ensures
        r@ == section_prefix_spec(section@),
{
    let mut r = String::from_str("settings.");
    r.append(section);
    r.append(".");
    r
}

/// The store key of setting `key` in `section`.
pub fn store_key(section: &str, key: &str) -> (r: String)
    ensures
        r@ == store_key_spec(section@, key@),
{
    let mut r = section_prefix(section);
    r.append(key);
    r
}

/// The setting key that a store key names within `section`, if it belongs
/// to that section.
pub fn section_entry_key(stored: &str, section: &str) -> (r: Option<String>)
    ensures
        r is Some <==> in_section(section@)(stored@),
        r is Some ==> store_key_spec(section@, r->0@) == stored@,
{
    let prefix = section_prefix(section);
    match strip_prefix(stored, prefix.as_str()) {
        Some(rest) => {
            let ghost p = section_prefix_spec(section@);
            assert(stored@ =~= p + rest@) by {
                assert(stored@.subrange(0, p.len() as int) == p);
            }
            Some(rest.to_owned())
        },
        None => None,
    }
}

/// The store keys of `section`, in their order in `keys`.
pub fn keys_in_section(keys: &Vec<String>, section: &str) -> (r: Vec<String>)
    ensures
        texts(r@) == texts(keys@).filter(in_section(section@)),
{
    let prefix = section_prefix(section);
    let mut r: Vec<String> = Vec::new();
    let mut i: usize = 0;
    while i < keys.len()
        invariant
            i <= keys.len(),
            prefix@ == section_prefix_spec(section@),
            texts(r@) == texts(keys@).subrange(0, i as int).filter(in_section(section@)),
        decreases keys.len() - i,
    {
        let k = &keys[i];
        let belongs = strip_prefix(k.as_str(), prefix.as_str()).is_some();
        proof {
            let done = texts(keys@).subrange(0, i as int);
            let next = texts(keys@).subrange(0, i as int + 1);
            assert(next.drop_last() =~= done);
            assert(next.last() == k@);
            reveal(Seq::filter);
        }
        if belongs {
            r.push(k.clone());
            proof {
                assert(texts(r@) =~= texts(r@).drop_last().push(k@));
            }
        }
        i = i + 1;
    }
    assert(texts(keys@).subrange(0, keys.len() as int) =~= texts(keys@));
    r
}

} // verus!
