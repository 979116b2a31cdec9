//! Saved parameter values.

use vstd::prelude::*;

use crate::text::same_text;

verus! {

/// A saved value: the label of the command, the name of the parameter, and the value.
#[derive(Debug)]
pub struct ConfigEntry {
    pub label: String,
    pub name: String,
    pub value: String,
}

/// Saved values, keyed by the label of the command and the name of the parameter.
#[derive(Debug)]
pub struct AppConfig {
    pub entries: Vec<ConfigEntry>,
}

/// The key of an entry.
pub open spec fn entry_key(entry: ConfigEntry) -> (Seq<char>, Seq<char>) {
    (entry.label@, entry.name@)
}

/// The values of a list of entries by their keys.
pub open spec fn entry_map(entries: Seq<ConfigEntry>) -> Map<(Seq<char>, Seq<char>), Seq<char>>
    decreases entries.len(),
{
    if entries.len() == 0 {
        Map::empty()
    } else {
        entry_map(entries.drop_last()).insert(entry_key(entries.last()), entries.last().value@)
    }
}

/// Whether no key occurs twice.
pub open spec fn distinct_keys(entries: Seq<ConfigEntry>) -> bool {
    forall|i: int, j: int|
        0 <= i < j < entries.len() ==> entry_key(#[trigger] entries[i]) != entry_key(
            #[trigger] entries[j],
        )
}

impl View for AppConfig {
    type V = Map<(Seq<char>, Seq<char>), Seq<char>>;

    open spec fn view(&self) -> Map<(Seq<char>, Seq<char>), Seq<char>> {
        entry_map(self.entries@)
    }
}

/// With distinct keys, the values by key are those of the entries and no others.
proof fn lemma_entry_map(entries: Seq<ConfigEntry>)
    requires
        distinct_keys(entries),
    ensures
        forall|i: int|
            0 <= i < entries.len() ==> entry_map(entries).contains_key(
                entry_key(#[trigger] entries[i]),
            ) && entry_map(entries)[entry_key(entries[i])] == entries[i].value@,
        forall|key: (Seq<char>, Seq<char>)| #[trigger]
            entry_map(entries).contains_key(key) ==> exists|i: int|
                0 <= i < entries.len() && entry_key(#[trigger] entries[i]) == key,
    decreases entries.len(),
{
    if entries.len() > 0 {
        let before = entries.drop_last();
        assert(distinct_keys(before)) by {
            assert forall|i: int, j: int| 0 <= i < j < before.len() implies entry_key(
                #[trigger] before[i],
            ) != entry_key(#[trigger] before[j]) by {
                assert(before[i] == entries[i] && before[j] == entries[j]);
            }
        }
        lemma_entry_map(before);
        let last = entries[entries.len() - 1];
        assert forall|i: int| 0 <= i < entries.len() implies entry_map(entries).contains_key(
            entry_key(#[trigger] entries[i]),
        ) && entry_map(entries)[entry_key(entries[i])] == entries[i].value@ by {
            if i < before.len() {
                assert(before[i] == entries[i]);
                assert(entry_key(entries[i]) != entry_key(last));
            }
        }
        assert forall|key: (Seq<char>, Seq<char>)| #[trigger]
            entry_map(entries).contains_key(key) implies exists|i: int|
            0 <= i < entries.len() && entry_key(#[trigger] entries[i]) == key by {
            if key == entry_key(last) {
                assert(entry_key(entries[entries.len() - 1]) == key);
            } else {
                assert(entry_map(before).contains_key(key));
                let i = choose|i: int|
                    0 <= i < before.len() && entry_key(#[trigger] before[i]) == key;
                assert(entry_key(entries[i]) == key);
            }
        }
    }
}

impl AppConfig {
    /// No value is saved twice.
    pub open spec fn valid(self) -> bool {
        distinct_keys(self.entries@)
    }

    /// A configuration without saved values.
    pub fn new() -> (config: AppConfig)
        ensures
            config.valid(),
            config@ == Map::<(Seq<char>, Seq<char>), Seq<char>>::empty(),
    {
        AppConfig { entries: Vec::new() }
    }

    /// Where a value is kept.
    fn find(&self, label: &str, name: &str) -> (at: Option<usize>)
        ensures
            match at {
                Some(i) => i < self.entries@.len() && entry_key(self.entries@[i as int]) == (
                    label@,
                    name@,
                ),
                None => forall|i: int|
                    0 <= i < self.entries@.len() ==> entry_key(#[trigger] self.entries@[i]) != (
                        label@,
                        name@,
                    ),
            },
    {
        let mut i: usize = 0;
        while i < self.entries.len()
            invariant
                i <= self.entries@.len(),
                forall|k: int|
                    0 <= k < i ==> entry_key(#[trigger] self.entries@[k]) != (label@, name@),
            decreases self.entries@.len() - i,
        {
            if same_text(self.entries[i].label.as_str(), label) && same_text(
                self.entries[i].name.as_str(),
                name,
            ) {
                return Some(i);
            }
            i = i + 1;
        }
        None
    }

    /// The saved value of a parameter, if there is one.
    pub fn get_param(&self, label: &str, name: &str) -> (value: Option<&String>)
        requires
            self.valid(),
        ensures
            match value {
                Some(v) => self@.contains_key((label@, name@)) && v@ == self@[(label@, name@)],
                None => !self@.contains_key((label@, name@)),
            },
    {
        proof {
            lemma_entry_map(self.entries@);
        }
        match self.find(label, name) {
            Some(i) => Some(&self.entries[i].value),
            None => None,
        }
    }

    /// Saves the value of a parameter.
    pub fn set_param(&mut self, label: &str, name: &str, value: &str)
        requires
            old(self).valid(),
        ensures
            final(self).valid(),
            final(self)@ == old(self)@.insert((label@, name@), value@),
    {
        let ghost before = self.entries@;
        let entry = ConfigEntry {
            label: label.to_owned(),
            name: name.to_owned(),
            value: value.to_owned(),
        };
        match self.find(label, name) {
            Some(i) => {
                self.entries.set(i, entry);
                proof {
                    lemma_entry_map(before);
                    let after = self.entries@;
                    assert(after == before.update(i as int, entry));
                    assert forall|a: int, b: int| 0 <= a < b < after.len() implies entry_key(
                        #[trigger] after[a],
                    ) != entry_key(#[trigger] after[b]) by {
                        assert(entry_key(before[a]) != entry_key(before[b]));
                        assert(entry_key(before[a]) == entry_key(after[a]));
                        assert(entry_key(before[b]) == entry_key(after[b]));
                    }
                    lemma_entry_map(after);
                    let key = (label@, name@);
                    assert forall|k: (Seq<char>, Seq<char>)|
                        entry_map(after).contains_key(k) == #[trigger] entry_map(before).insert(
                            key,
                            value@,
                        ).contains_key(k) by {
                        if entry_map(after).contains_key(k) {
                            let n = choose|n: int|
                                0 <= n < after.len() && entry_key(#[trigger] after[n]) == k;
                            assert(entry_key(before[n]) == k);
                        }
                        if entry_map(before).contains_key(k) {
                            let n = choose|n: int|
                                0 <= n < before.len() && entry_key(#[trigger] before[n]) == k;
                            assert(entry_key(after[n]) == k);
                        }
                        assert(entry_key(after[i as int]) == key);
                    }
                    assert forall|k: (Seq<char>, Seq<char>)| #[trigger]
                        entry_map(after).contains_key(k) implies entry_map(after)[k] == entry_map(
                        before,
                    ).insert(key, value@)[k] by {
                        let n = choose|n: int|
                            0 <= n < after.len() && entry_key(#[trigger] after[n]) == k;
                        assert(entry_key(before[n]) == k);
                        assert(entry_key(after[i as int]) == key);
                        if n != i {
                            assert(before[n] == after[n]);
                            if k == key {
                                if n < i {
                                    assert(entry_key(before[n]) != entry_key(before[i as int]));
                                } else {
                                    assert(entry_key(before[i as int]) != entry_key(before[n]));
                                }
                            }
                        }
                    }
                    assert(entry_map(after) =~= entry_map(before).insert(key, value@));
                }
            },
            None => {
                self.entries.push(entry);
                proof {
                    assert(self.entries@.drop_last() =~= before);
                }
            },
        }
    }
}

/// A saved value is read back, and saving it leaves every other value as it was.
pub proof fn law_config_read_back(
    config: Map<(Seq<char>, Seq<char>), Seq<char>>,
    key: (Seq<char>, Seq<char>),
    value: Seq<char>,
    other: (Seq<char>, Seq<char>),
)
    requires
        other != key,
    ensures
        config.insert(key, value).contains_key(key),
        config.insert(key, value)[key] == value,
        config.insert(key, value).contains_key(other) == config.contains_key(other),
        config.contains_key(other) ==> config.insert(key, value)[other] == config[other],
{
}

} // verus!
