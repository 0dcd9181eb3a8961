//! The configuration document and the flat field maps read from it.

use vstd::prelude::*;

use crate::path_filter::names;
use crate::entries::{
    entries_map, keys_distinct, keys_of, lemma_entry_keys, lemma_entries_map_dom, lemma_entries_map_finite,
    lemma_entries_map_index, lemma_entries_map_push, lemma_entries_map_update, position_of,
};

verus! {

/// One value of a configuration table.
#[derive(Debug, Clone, PartialEq, Eq)]
pub enum ConfigValue {
    Text(String),
    Integer(i64),
    Boolean(bool),
    TextList(Vec<String>),
    /// A value of any other kind (a float, a date, a nested table, a mixed
    /// array), held as its TOML text so that it is written back unchanged.
    Other(String),
}

/// The mathematical form of a `ConfigValue`.
pub enum ValueModel {
    Text(Seq<char>),
    Integer(i64),
    Boolean(bool),
    TextList(Seq<Seq<char>>),
    Other(Seq<char>),
}

impl View for ConfigValue {
    type V = ValueModel;

    open spec fn view(&self) -> ValueModel {
        match self {
            ConfigValue::Text(s) => ValueModel::Text(s@),
            ConfigValue::Integer(n) => ValueModel::Integer(*n),
            ConfigValue::Boolean(b) => ValueModel::Boolean(*b),
            ConfigValue::TextList(v) => ValueModel::TextList(names(v@)),
            ConfigValue::Other(s) => ValueModel::Other(s@),
        }
    }
}

/// Why a required field could not be read.
#[derive(Debug, Clone, PartialEq, Eq)]
pub enum ConfigError {
    /// No layer supplied the field.
    RequiredFieldMissing(String),
    /// The field is there but of the wrong kind or out of range.
    InvalidField(String),
}

/// The mathematical form of a `ConfigError`.
pub enum FieldFault {
    Missing(Seq<char>),
    Invalid(Seq<char>),
}

impl View for ConfigError {
    type V = FieldFault;

    open spec fn view(&self) -> FieldFault {
        match self {
            ConfigError::RequiredFieldMissing(k) => FieldFault::Missing(k@),
            ConfigError::InvalidField(k) => FieldFault::Invalid(k@),
        }
    }
}

pub open spec fn text_lookup(m: Map<Seq<char>, ValueModel>, key: Seq<char>) -> Result<
    Seq<char>,
    FieldFault,
> {
    if !m.contains_key(key) {
        Err(FieldFault::Missing(key))
    } else {
        match m[key] {
            ValueModel::Text(t) => Ok(t),
            _ => Err(FieldFault::Invalid(key)),
        }
    }
}

pub open spec fn integer_lookup(m: Map<Seq<char>, ValueModel>, key: Seq<char>) -> Result<
    i64,
    FieldFault,
> {
    if !m.contains_key(key) {
        Err(FieldFault::Missing(key))
    } else {
        match m[key] {
            ValueModel::Integer(n) => Ok(n),
            _ => Err(FieldFault::Invalid(key)),
        }
    }
}

pub open spec fn text_list_lookup(m: Map<Seq<char>, ValueModel>, key: Seq<char>) -> Result<
    Seq<Seq<char>>,
    FieldFault,
> {
    if !m.contains_key(key) {
        Err(FieldFault::Missing(key))
    } else {
        match m[key] {
            ValueModel::TextList(v) => Ok(v),
            _ => Err(FieldFault::Invalid(key)),
        }
    }
}

/// An optional text field: absent gives `None`.
pub open spec fn optional_text_lookup(m: Map<Seq<char>, ValueModel>, key: Seq<char>) -> Result<
    Option<Seq<char>>,
    FieldFault,
> {
    if !m.contains_key(key) {
        Ok(None)
    } else {
        match m[key] {
            ValueModel::Text(t) => Ok(Some(t)),
            _ => Err(FieldFault::Invalid(key)),
        }
    }
}

/// A switch: absent means off.
pub open spec fn flag_lookup(m: Map<Seq<char>, ValueModel>, key: Seq<char>) -> Result<
    bool,
    FieldFault,
> {
    if !m.contains_key(key) {
        Ok(false)
    } else {
        match m[key] {
            ValueModel::Boolean(b) => Ok(b),
            _ => Err(FieldFault::Invalid(key)),
        }
    }
}

/// Copies a list of strings.
pub fn copy_texts(v: &Vec<String>) -> (r: Vec<String>)
    ensures
        r@ == v@,
{
    let mut out: Vec<String> = Vec::new();
    let mut i: usize = 0;
    while i < v.len()
        invariant
            i <= v@.len(),
            out@ == v@.subrange(0, i as int),
        decreases v.len() - i,
    {
        out.push(v[i].clone());
        i = i + 1;
        assert(out@ =~= v@.subrange(0, i as int));
    }
    assert(out@ =~= v@);
    out
}

impl ConfigValue {
    /// An equal copy of the value.
    pub fn duplicate(&self) -> (r: ConfigValue)
        ensures
            r@ == self@,
    {
        match self {
            ConfigValue::Text(s) => ConfigValue::Text(s.clone()),
            ConfigValue::Integer(n) => ConfigValue::Integer(*n),
            ConfigValue::Boolean(b) => ConfigValue::Boolean(*b),
            ConfigValue::TextList(v) => ConfigValue::TextList(copy_texts(v)),
            ConfigValue::Other(s) => ConfigValue::Other(s.clone()),
        }
    }
}

/// A flat table of fields: distinct keys, each with one value.
#[derive(Debug)]
pub struct FieldMap {
    entries: Vec<(String, ConfigValue)>,
}

impl View for FieldMap {
    type V = Map<Seq<char>, ValueModel>;

    closed spec fn view(&self) -> Map<Seq<char>, ValueModel> {
        entries_map(self.entries@)
    }
}

impl FieldMap {
    #[verifier::type_invariant]
    spec fn distinct(&self) -> bool {
        keys_distinct(self.entries@)
    }

    /// The empty table.
    pub fn new() -> (r: FieldMap)
        ensures
            r@ == Map::<Seq<char>, ValueModel>::empty(),
    {
        FieldMap { entries: Vec::new() }
    }

    /// How many fields the table holds.
    pub fn count(&self) -> (r: usize)
        ensures
            self@.dom().finite(),
            r == self@.dom().len(),
    {
        proof {
            use_type_invariant(self);
            lemma_entries_map_finite(self.entries@);
        }
        self.entries.len()
    }

    /// The keys of the table, each once.
    pub fn keys(&self) -> (r: Vec<String>)
        ensures
            names(r@).no_duplicates(),
            names(r@).to_set() == self@.dom(),
    {
        proof {
            use_type_invariant(self);
            lemma_entry_keys(self.entries@);
        }
        keys_of(&self.entries)
    }

    /// The value stored under `key`.
    pub fn get(&self, key: &str) -> (r: Option<&ConfigValue>)
        ensures
            match r {
                Some(v) => self@.contains_key(key@) && self@[key@] == v@,
                None => !self@.contains_key(key@),
            },
    {
        proof {
            use_type_invariant(self);
            lemma_entries_map_dom(self.entries@, key@);
        }
        match position_of(&self.entries, key) {
            Some(i) => {
                proof {
                    lemma_entries_map_index(self.entries@, i as int);
                }
                Some(&self.entries[i].1)
            },
            None => None,
        }
    }

    /// Sets `key` to `value`, replacing an earlier value.
    pub fn insert(&mut self, key: String, value: ConfigValue)
        ensures
            final(self)@ == old(self)@.insert(key@, value@),
    {
        proof {
            use_type_invariant(&*self);
            lemma_entries_map_dom(self.entries@, key@);
        }
        let mut entries: Vec<(String, ConfigValue)> = Vec::new();
        std::mem::swap(&mut entries, &mut self.entries);
        match position_of(&entries, key.as_str()) {
            Some(i) => {
                proof {
                    lemma_entries_map_update(entries@, i as int, (key, value));
                }
                entries.set(i, (key, value));
            },
            None => {
                proof {
                    lemma_entries_map_push(entries@, (key, value));
                }
                entries.push((key, value));
            },
        }
        *self = FieldMap { entries };
    }

    /// An equal copy of the table.
    pub fn duplicate(&self) -> (r: FieldMap)
        ensures
            r@ == self@,
    {
        let mut r = FieldMap::new();
        r.extend(self);
        assert(r@ =~= self@);
        r
    }

    /// Lays every field of `other` over this table: on a shared key the
    /// value of `other` wins, and keys of neither stay absent.
    pub fn extend(&mut self, other: &FieldMap)
        ensures
            final(self)@ == old(self)@.union_prefer_right(other@),
    {
        proof {
            use_type_invariant(other);
        }
        let ghost start = self@;
        let mut i: usize = 0;
        assert(start.union_prefer_right(entries_map(other.entries@.subrange(0, 0))) =~= start);
        while i < other.entries.len()
            invariant
                i <= other.entries@.len(),
                self@ == start.union_prefer_right(
                    entries_map(other.entries@.subrange(0, i as int)),
                ),
            decreases other.entries.len() - i,
        {
            let e = &other.entries[i];
            self.insert(e.0.clone(), e.1.duplicate());
            proof {
                let s = other.entries@.subrange(0, i + 1);
                assert(s.drop_last() =~= other.entries@.subrange(0, i as int));
            }
            i = i + 1;
            assert(self@ =~= start.union_prefer_right(
                entries_map(other.entries@.subrange(0, i as int)),
            ));
        }
        assert(other.entries@.subrange(0, i as int) =~= other.entries@);
    }

    /// A required text field.
    pub fn text(&self, key: &str) -> (r: Result<String, ConfigError>)
        ensures
            match r {
                Ok(s) => text_lookup(self@, key@) == Ok::<Seq<char>, FieldFault>(s@),
                Err(e) => text_lookup(self@, key@) == Err::<Seq<char>, FieldFault>(e@),
            },
    {
        match self.get(key) {
            None => Err(ConfigError::RequiredFieldMissing(key.to_string())),
            Some(ConfigValue::Text(s)) => Ok(s.clone()),
            Some(_) => Err(ConfigError::InvalidField(key.to_string())),
        }
    }

    /// A required integer field.
    pub fn integer(&self, key: &str) -> (r: Result<i64, ConfigError>)
        ensures
            match r {
                Ok(n) => integer_lookup(self@, key@) == Ok::<i64, FieldFault>(n),
                Err(e) => integer_lookup(self@, key@) == Err::<i64, FieldFault>(e@),
            },
    {
        match self.get(key) {
            None => Err(ConfigError::RequiredFieldMissing(key.to_string())),
            Some(ConfigValue::Integer(n)) => Ok(*n),
            Some(_) => Err(ConfigError::InvalidField(key.to_string())),
        }
    }

    /// A required list of texts.
    pub fn text_list(&self, key: &str) -> (r: Result<Vec<String>, ConfigError>)
        ensures
            match r {
                Ok(v) => text_list_lookup(self@, key@) == Ok::<Seq<Seq<char>>, FieldFault>(
                    names(v@),
                ),
                Err(e) => text_list_lookup(self@, key@) == Err::<Seq<Seq<char>>, FieldFault>(e@),
            },
    {
        match self.get(key) {
            None => Err(ConfigError::RequiredFieldMissing(key.to_string())),
            Some(ConfigValue::TextList(v)) => Ok(copy_texts(v)),
            Some(_) => Err(ConfigError::InvalidField(key.to_string())),
        }
    }

    /// A text field that may be absent.
    pub fn optional_text(&self, key: &str) -> (r: Result<Option<String>, ConfigError>)
        ensures
            match r {
                Ok(Some(s)) => optional_text_lookup(self@, key@) == Ok::<
                    Option<Seq<char>>,
                    FieldFault,
                >(Some(s@)),
                Ok(None) => optional_text_lookup(self@, key@) == Ok::<
                    Option<Seq<char>>,
                    FieldFault,
                >(None),
                Err(e) => optional_text_lookup(self@, key@) == Err::<Option<Seq<char>>, FieldFault>(
                    e@,
                ),
            },
    {
        match self.get(key) {
            None => Ok(None),
            Some(ConfigValue::Text(s)) => Ok(Some(s.clone())),
            Some(_) => Err(ConfigError::InvalidField(key.to_string())),
        }
    }

    /// A switch field; absent means off.
    pub fn flag(&self, key: &str) -> (r: Result<bool, ConfigError>)
        ensures
            match r {
                Ok(b) => flag_lookup(self@, key@) == Ok::<bool, FieldFault>(b),
                Err(e) => flag_lookup(self@, key@) == Err::<bool, FieldFault>(e@),
            },
    {
        match self.get(key) {
            None => Ok(false),
            Some(ConfigValue::Boolean(b)) => Ok(*b),
            Some(_) => Err(ConfigError::InvalidField(key.to_string())),
        }
    }
}

/// One top-level item of the configuration document.
#[derive(Debug)]
pub enum ConfigEntry {
    /// A named table such as `[global]`.
    Table(FieldMap),
    /// A plain value outside any table.
    Value(ConfigValue),
}

/// The mathematical form of a `ConfigEntry`.
pub enum EntryModel {
    Table(Map<Seq<char>, ValueModel>),
    Value(ValueModel),
}

impl View for ConfigEntry {
    type V = EntryModel;

    open spec fn view(&self) -> EntryModel {
        match self {
            ConfigEntry::Table(t) => EntryModel::Table(t@),
            ConfigEntry::Value(v) => EntryModel::Value(v@),
        }
    }
}

/// The table named `name`: absent counts as empty; a plain value there is
/// an invalid field.
pub open spec fn table_lookup(d: Map<Seq<char>, EntryModel>, name: Seq<char>) -> Result<
    Map<Seq<char>, ValueModel>,
    FieldFault,
> {
    if !d.contains_key(name) {
        Ok(Map::empty())
    } else {
        match d[name] {
            EntryModel::Table(t) => Ok(t),
            EntryModel::Value(_) => Err(FieldFault::Invalid(name)),
        }
    }
}

/// The whole configuration document: named tables and top-level values.
#[derive(Debug)]
pub struct ConfigDocument {
    entries: Vec<(String, ConfigEntry)>,
}

impl View for ConfigDocument {
    type V = Map<Seq<char>, EntryModel>;

    closed spec fn view(&self) -> Map<Seq<char>, EntryModel> {
        entries_map(self.entries@)
    }
}

impl ConfigDocument {
    #[verifier::type_invariant]
    spec fn distinct(&self) -> bool {
        keys_distinct(self.entries@)
    }

    /// The empty document.
    pub fn new() -> (r: ConfigDocument)
        ensures
            r@ == Map::<Seq<char>, EntryModel>::empty(),
    {
        ConfigDocument { entries: Vec::new() }
    }

    /// How many top-level items the document holds.
    pub fn count(&self) -> (r: usize)
        ensures
            self@.dom().finite(),
            r == self@.dom().len(),
    {
        proof {
            use_type_invariant(self);
            lemma_entries_map_finite(self.entries@);
        }
        self.entries.len()
    }

    /// The names of the top-level items, each once.
    pub fn keys(&self) -> (r: Vec<String>)
        ensures
            names(r@).no_duplicates(),
            names(r@).to_set() == self@.dom(),
    {
        proof {
            use_type_invariant(self);
            lemma_entry_keys(self.entries@);
        }
        keys_of(&self.entries)
    }

    /// The item named `name`.
    pub fn get(&self, name: &str) -> (r: Option<&ConfigEntry>)
        ensures
            match r {
                Some(e) => self@.contains_key(name@) && self@[name@] == e@,
                None => !self@.contains_key(name@),
            },
    {
        proof {
            use_type_invariant(self);
            lemma_entries_map_dom(self.entries@, name@);
        }
        match position_of(&self.entries, name) {
            Some(i) => {
                proof {
                    lemma_entries_map_index(self.entries@, i as int);
                }
                Some(&self.entries[i].1)
            },
            None => None,
        }
    }

    /// Sets the top-level item `name`, replacing an earlier one.
    pub fn insert(&mut self, name: String, entry: ConfigEntry)
        ensures
            final(self)@ == old(self)@.insert(name@, entry@),
    {
        proof {
            use_type_invariant(&*self);
            lemma_entries_map_dom(self.entries@, name@);
        }
        let mut entries: Vec<(String, ConfigEntry)> = Vec::new();
        std::mem::swap(&mut entries, &mut self.entries);
        match position_of(&entries, name.as_str()) {
            Some(i) => {
                proof {
                    lemma_entries_map_update(entries@, i as int, (name, entry));
                }
                entries.set(i, (name, entry));
            },
            None => {
                proof {
                    lemma_entries_map_push(entries@, (name, entry));
                }
                entries.push((name, entry));
            },
        }
        *self = ConfigDocument { entries };
    }

    /// A copy of the table `name`; an absent table reads as empty.
    pub fn table(&self, name: &str) -> (r: Result<FieldMap, ConfigError>)
        ensures
            match r {
                Ok(t) => table_lookup(self@, name@) == Ok::<
                    Map<Seq<char>, ValueModel>,
                    FieldFault,
                >(t@),
                Err(e) => table_lookup(self@, name@) == Err::<
                    Map<Seq<char>, ValueModel>,
                    FieldFault,
                >(e@),
            },
    {
        proof {
            use_type_invariant(self);
            lemma_entries_map_dom(self.entries@, name@);
        }
        match position_of(&self.entries, name) {
            None => Ok(FieldMap::new()),
            Some(i) => {
                proof {
                    lemma_entries_map_index(self.entries@, i as int);
                }
                match &self.entries[i].1 {
                    ConfigEntry::Table(t) => Ok(t.duplicate()),
                    ConfigEntry::Value(_) => Err(ConfigError::InvalidField(name.to_string())),
                }
            },
        }
    }

    /// Sets `key` to `value` in the table `name`, creating the table when it
    /// is absent; fails when `name` holds a plain value.
    pub fn set_field(&mut self, name: &str, key: String, value: ConfigValue) -> (r: Result<
        (),
        ConfigError,
    >)
        ensures
            match table_lookup(old(self)@, name@) {
                Ok(t) => r is Ok && final(self)@ == old(self)@.insert(
                    name@,
                    EntryModel::Table(t.insert(key@, value@)),
                ),
                Err(f) => r matches Err(e) && e@ == f && final(self)@ == old(self)@,
            },
    {
        match self.table(name) {
            Err(e) => Err(e),
            Ok(t) => {
                let mut t = t;
                t.insert(key, value);
                self.insert(name.to_string(), ConfigEntry::Table(t));
                Ok(())
            },
        }
    }
}

} // verus!
