//! Settings: one value per key.

use vstd::prelude::*;
use vstd::string::*;
use crate::storage::keys::{
    distinct, key_index, lemma_key_index, lemma_key_index_absent, lemma_key_index_found,
};
use crate::text::str_eq;

verus! {

/// One setting: a key and its value.
#[derive(Debug)]
pub struct Setting {
    pub key: String,
    pub value: String,
}

/// What a list of settings holds: pairs of key and value.
pub open spec fn settings_view(rows: Seq<Setting>) -> Seq<(Seq<char>, Seq<char>)> {
    Seq::new(rows.len(), |i: int| (rows[i].key@, rows[i].value@))
}

/// The keys that have a value, in the order of the rows.
pub open spec fn setting_keys(rows: Seq<(Seq<char>, Seq<char>)>) -> Seq<Seq<char>> {
    Seq::new(rows.len(), |i: int| rows[i].0)
}

/// The value of `key`, if it has one.
pub open spec fn setting_value(rows: Seq<(Seq<char>, Seq<char>)>, key: Seq<char>) -> Option<
    Seq<char>,
> {
    match key_index(setting_keys(rows), key) {
        Some(i) => Some(rows[i].1),
        None => None,
    }
}

/// The settings after `key` has been given `value`.
pub open spec fn settings_set(
    rows: Seq<(Seq<char>, Seq<char>)>,
    key: Seq<char>,
    value: Seq<char>,
) -> Seq<(Seq<char>, Seq<char>)> {
    match key_index(setting_keys(rows), key) {
        Some(i) => rows.update(i, (key, value)),
        None => rows.push((key, value)),
    }
}

/// The settings after `key` has lost its value.
pub open spec fn settings_delete(rows: Seq<(Seq<char>, Seq<char>)>, key: Seq<char>) -> Seq<
    (Seq<char>, Seq<char>),
> {
    match key_index(setting_keys(rows), key) {
        Some(i) => rows.remove(i),
        None => rows,
    }
}

/// The settings. No key has two values.
pub struct SettingsRepo {
    rows: Vec<Setting>,
}

impl View for SettingsRepo {
    type V = Seq<(Seq<char>, Seq<char>)>;

    closed spec fn view(&self) -> Seq<(Seq<char>, Seq<char>)> {
        settings_view(self.rows@)
    }
}

impl SettingsRepo {
    /// What always holds of the settings: no key has two values.
    #[verifier::type_invariant]
    pub open spec fn wf(&self) -> bool {
        distinct(setting_keys(self@))
    }

    /// No settings.
    pub fn new() -> (r: Self)
        ensures
            r@ == Seq::<(Seq<char>, Seq<char>)>::empty(),
    {
        let r = SettingsRepo { rows: Vec::new() };
        assert(r@ =~= Seq::<(Seq<char>, Seq<char>)>::empty());
        r
    }

    /// Where the row of `key` stands.
    fn find(&self, key: &str) -> (r: Option<usize>)
        ensures
            match r {
                Some(i) => key_index(setting_keys(self@), key@) == Some(i as int) && i
                    < self.rows@.len(),
                None => key_index(setting_keys(self@), key@) is None,
            },
    {
        let mut i: usize = 0;
        while i < self.rows.len()
            invariant
                i <= self.rows@.len(),
                forall|j: int| 0 <= j < i ==> setting_keys(self@)[j] != key@,
            decreases self.rows@.len() - i,
        {
            if str_eq(self.rows[i].key.as_str(), key) {
                proof {
                    lemma_key_index_found(setting_keys(self@), key@, i as int);
                }
                return Some(i);
            }
            i = i + 1;
        }
        proof {
            lemma_key_index_absent(setting_keys(self@), key@);
        }
        None
    }

    /// The value of `key`, if it has one.
    pub fn get(&self, key: &str) -> (r: Option<String>)
        ensures
            match r {
                Some(value) => setting_value(self@, key@) == Some(value@),
                None => setting_value(self@, key@) is None,
            },
    {
        match self.find(key) {
            Some(i) => Some(self.rows[i].value.clone()),
            None => None,
        }
    }

    /// Gives `key` the value `value`, whether or not it had one.
    pub fn set(&mut self, key: &str, value: &str)
        ensures
            final(self)@ == settings_set(old(self)@, key@, value@),
            setting_value(final(self)@, key@) == Some(value@),
    {
        proof {
            use_type_invariant(&*self);
            lemma_key_index(setting_keys(self@), key@);
        }
        let ghost before = self@;
        let row = Setting { key: String::from_str(key), value: String::from_str(value) };
        let found = self.find(key);
        let mut rows: Vec<Setting> = Vec::new();
        std::mem::swap(&mut self.rows, &mut rows);
        match found {
            Some(i) => {
                rows.set(i, row);
                proof {
                    assert(settings_view(rows@) =~= before.update(i as int, (key@, value@)));
                    assert(setting_keys(settings_view(rows@)) =~= setting_keys(before));
                }
            },
            None => {
                rows.push(row);
                proof {
                    assert(settings_view(rows@) =~= before.push((key@, value@)));
                    assert(setting_keys(settings_view(rows@)) =~= setting_keys(before).push(key@));
                    lemma_key_index_found(
                        setting_keys(settings_view(rows@)),
                        key@,
                        before.len() as int,
                    );
                }
            },
        }
        self.rows = rows;
    }

    /// Takes the value of `key` away. Says whether it had one.
    pub fn delete(&mut self, key: &str) -> (r: bool)
        ensures
            final(self)@ == settings_delete(old(self)@, key@),
            r == (setting_value(old(self)@, key@) is Some),
            setting_value(final(self)@, key@) is None,
    {
        proof {
            use_type_invariant(&*self);
            lemma_key_index(setting_keys(self@), key@);
        }
        let ghost before = self@;
        match self.find(key) {
            Some(i) => {
                let mut rows: Vec<Setting> = Vec::new();
                std::mem::swap(&mut self.rows, &mut rows);
                let _ = rows.remove(i);
                proof {
                    assert(settings_view(rows@) =~= before.remove(i as int));
                    assert(setting_keys(settings_view(rows@)) =~= setting_keys(before).remove(
                        i as int,
                    ));
                    lemma_key_index_absent(setting_keys(settings_view(rows@)), key@);
                }
                self.rows = rows;
                true
            },
            None => false,
        }
    }
}

} // verus!
