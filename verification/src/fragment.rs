//! Configuration fragments: ordered lists of dotted leaf keys with their
//! values, one list per configuration source. Sources are merged key by key,
//! a later source overriding an earlier one at the leaf level only.

use vstd::prelude::*;

use crate::text::str_eq;

verus! {

/// One leaf value of a configuration fragment.
#[derive(Debug)]
pub enum ConfigValue {
    Text(String),
    Number(i64),
    Flag(bool),
}

/// The mathematical value of a [`ConfigValue`].
#[verifier::ext_equal]
pub enum ValueModel {
    Text(Seq<char>),
    Number(int),
    Flag(bool),
}

impl View for ConfigValue {
    type V = ValueModel;

    open spec fn view(&self) -> ValueModel {
        match self {
            ConfigValue::Text(s) => ValueModel::Text(s@),
            ConfigValue::Number(n) => ValueModel::Number(*n as int),
            ConfigValue::Flag(b) => ValueModel::Flag(*b),
        }
    }
}

/// One binding of a dotted leaf key, such as `database.port`, to a value.
pub struct ConfigEntry {
    pub key: String,
    pub value: ConfigValue,
}

/// The mathematical value of a [`ConfigEntry`].
#[verifier::ext_equal]
pub struct EntryModel {
    pub key: Seq<char>,
    pub value: ValueModel,
}

impl View for ConfigEntry {
    type V = EntryModel;

    open spec fn view(&self) -> EntryModel {
        EntryModel { key: self.key@, value: self.value@ }
    }
}

/// One configuration source prior to merging: a file's leaf keys, or the
/// overrides drawn from environment variables. Within one fragment a later
/// entry overrides an earlier entry with the same key.
pub struct Fragment {
    pub entries: Vec<ConfigEntry>,
}

impl View for Fragment {
    type V = Seq<EntryModel>;

    open spec fn view(&self) -> Seq<EntryModel> {
        self.entries@.map_values(|e: ConfigEntry| e@)
    }
}

/// The value a fragment binds to a key: that of the last entry with the key,
/// or nothing.
pub open spec fn frag_lookup(frag: Seq<EntryModel>, key: Seq<char>) -> Option<ValueModel>
    decreases frag.len(),
{
    if frag.len() == 0 {
        None
    } else if frag.last().key == key {
        Some(frag.last().value)
    } else {
        frag_lookup(frag.drop_last(), key)
    }
}

/// The value an ordered list of fragments resolves a key to: that of the
/// last fragment binding the key. Later fragments take precedence, and only
/// at the level of single leaf keys: a key a later fragment does not mention
/// keeps the value an earlier one gave it.
pub open spec fn resolve_in(frags: Seq<Seq<EntryModel>>, key: Seq<char>) -> Option<ValueModel>
    decreases frags.len(),
{
    if frags.len() == 0 {
        None
    } else {
        match frag_lookup(frags.last(), key) {
            Some(v) => Some(v),
            None => resolve_in(frags.drop_last(), key),
        }
    }
}

/// The fragment list as mathematical values.
pub open spec fn sources_view(sources: Seq<Fragment>) -> Seq<Seq<EntryModel>> {
    sources.map_values(|f: Fragment| f@)
}

impl Fragment {
    /// Looks the key up in this fragment alone.
    pub fn get(&self, key: &str) -> (r: Option<&ConfigValue>)
        ensures
            match r {
                Some(v) => frag_lookup(self@, key@) == Some(v@),
                None => frag_lookup(self@, key@) is None,
            },
    {
        let n = self.entries.len();
        proof {
            assert(self@.subrange(0, n as int) =~= self@);
        }
        let mut i: usize = n;
        while i > 0
            invariant
                i <= n == self.entries.len(),
                frag_lookup(self@, key@) == frag_lookup(self@.subrange(0, i as int), key@),
            decreases i,
    {
            i = i - 1;
            proof {
                assert(self@.subrange(0, i + 1).last() == self@[i as int]);
                assert(self@.subrange(0, i + 1).drop_last() =~= self@.subrange(0, i as int));
            }
            if str_eq(self.entries[i].key.as_str(), key) {
                return Some(&self.entries[i].value);
            }
        }
        proof {
            assert(frag_lookup(self@.subrange(0, 0), key@) is None);
        }
        None
    }
}

/// Resolves a key across an ordered list of sources, the later sources
/// taking precedence.
pub fn resolve<'a>(sources: &'a Vec<Fragment>, key: &str) -> (r: Option<&'a ConfigValue>)
    ensures
        match r {
            Some(v) => resolve_in(sources_view(sources@), key@) == Some(v@),
            None => resolve_in(sources_view(sources@), key@) is None,
        },
{
    let n = sources.len();
    proof {
        assert(sources_view(sources@).subrange(0, n as int) =~= sources_view(sources@));
    }
    let mut i: usize = n;
    while i > 0
        invariant
            i <= n == sources.len(),
            resolve_in(sources_view(sources@), key@) == resolve_in(
                sources_view(sources@).subrange(0, i as int),
                key@,
            ),
        decreases i,
    {
        i = i - 1;
        proof {
            assert(sources_view(sources@).subrange(0, i + 1).last() == sources@[i as int]@);
            assert(sources_view(sources@).subrange(0, i + 1).drop_last() =~= sources_view(
                sources@,
            ).subrange(0, i as int));
        }
        let found = sources[i].get(key);
        if let Some(v) = found {
            return Some(v);
        }
    }
    proof {
        assert(resolve_in(sources_view(sources@).subrange(0, 0), key@) is None);
    }
    None
}

/// Precedence across the three sources of the loader: an override from the
/// environment variables wins over the environment file, which wins over the
/// base file; a source that does not mention the key leaves the earlier
/// sources' value in force.
pub proof fn lemma_precedence(
    base: Seq<EntryModel>,
    env_file: Seq<EntryModel>,
    overrides: Seq<EntryModel>,
    key: Seq<char>,
)
    ensures
        frag_lookup(overrides, key) is Some ==> resolve_in(seq![base, env_file, overrides], key)
            == frag_lookup(overrides, key),
        frag_lookup(overrides, key) is None && frag_lookup(env_file, key) is Some ==> resolve_in(
            seq![base, env_file, overrides],
            key,
        ) == frag_lookup(env_file, key),
        frag_lookup(overrides, key) is None && frag_lookup(env_file, key) is None ==> resolve_in(
            seq![base, env_file, overrides],
            key,
        ) == frag_lookup(base, key),
{
    let frags = seq![base, env_file, overrides];
    let two = seq![base, env_file];
    let one = seq![base];
    let zero = Seq::<Seq<EntryModel>>::empty();
    assert(frags.last() == overrides);
    assert(frags.drop_last() =~= two);
    assert(two.last() == env_file);
    assert(two.drop_last() =~= one);
    assert(one.last() == base);
    assert(one.drop_last() =~= zero);
    assert(resolve_in(zero, key) is None);
    assert(resolve_in(one, key) == frag_lookup(base, key));
    assert(frag_lookup(env_file, key) is None ==> resolve_in(two, key) == frag_lookup(base, key));
    assert(frag_lookup(env_file, key) is Some ==> resolve_in(two, key) == frag_lookup(
        env_file,
        key,
    ));
}

} // verus!
