//! Configuration documents: the tree a document is handed over as, and the
//! reading of its tables.
//!
//! Whoever reads the text of a document hands it over as a [`Setting`]. A
//! scalar comes with what it stands for where a text, a count or a truth
//! value is expected; which of them a setting takes, which keys a table may
//! hold and what a missing setting defaults to is decided here.

use crate::text::{texts, texts_of};
use vstd::prelude::*;

verus! {

/// A configuration document, or a part of one.
#[derive(Debug, PartialEq, Eq)]
pub enum Setting {
    /// Nothing: a key without a value.
    Nil,
    /// A scalar: a text, a number or a truth value.
    Scalar {
        /// The scalar where a text is expected.
        text: String,
        /// The scalar where a count is expected, if it can stand for one.
        count: Option<u64>,
        /// The scalar where a truth value is expected, if it can stand for
        /// one.
        truth: Option<bool>,
    },
    /// Keys with their values, in the order of the document.
    Table(Vec<(String, Setting)>),
    Array(Vec<Setting>),
}

impl Setting {
    /// The setting where a text is expected: a scalar is its text. A table,
    /// an array and nothing are no text.
    pub open spec fn as_text(self) -> Option<Seq<char>> {
        match self {
            Setting::Scalar { text, count, truth } => Some(text@),
            _ => None,
        }
    }

    /// The setting where a count is expected: the count a scalar stands
    /// for, if it stands for one.
    pub open spec fn as_count(self) -> Option<nat> {
        match self {
            Setting::Scalar { text, count: Some(n), truth } => Some(n as nat),
            _ => None,
        }
    }

    /// The setting where a truth value is expected: the truth value a
    /// scalar stands for, if it stands for one.
    pub open spec fn as_truth(self) -> Option<bool> {
        match self {
            Setting::Scalar { text, count, truth } => truth,
            _ => None,
        }
    }

    /// The setting where a list of texts is expected: an array whose items
    /// are all texts.
    pub open spec fn as_text_list(self) -> Option<Seq<Seq<char>>> {
        match self {
            Setting::Array(items) => if forall|i: int|
                0 <= i < items@.len() ==> (#[trigger] items@[i]).as_text() is Some {
                Some(Seq::new(items@.len(), |i: int| items@[i].as_text()->0))
            } else {
                None
            },
            _ => None,
        }
    }

    /// Reads the setting as a text.
    pub fn text(&self) -> (text: Option<String>)
        ensures
            match self.as_text() {
                Some(expected) => text matches Some(found) && found@ == expected,
                None => text is None,
            },
    {
        match self {
            Setting::Scalar { text, count, truth } => Some(text.clone()),
            _ => None,
        }
    }

    /// Reads the setting as a count.
    pub fn count(&self) -> (count: Option<u64>)
        ensures
            match self.as_count() {
                Some(expected) => count == Some(expected as u64),
                None => count is None,
            },
    {
        match self {
            Setting::Scalar { text, count, truth } => *count,
            _ => None,
        }
    }

    /// Reads the setting as a truth value.
    pub fn truth(&self) -> (truth: Option<bool>)
        ensures
            truth == self.as_truth(),
    {
        match self {
            Setting::Scalar { text, count, truth } => *truth,
            _ => None,
        }
    }

    /// Reads the setting as a list of texts.
    pub fn text_list(&self) -> (list: Option<Vec<String>>)
        ensures
            match self.as_text_list() {
                Some(expected) => list matches Some(found) && found@.len() == expected.len()
                    && forall|i: int|
                    0 <= i < expected.len() ==> (#[trigger] found@[i])@ == expected[i],
                None => list is None,
            },
    {
        match self {
            Setting::Array(items) => {
                let mut list: Vec<String> = Vec::new();
                let mut i: usize = 0;
                while i < items.len()
                    invariant
                        i <= items.len(),
                        *self == Setting::Array(*items),
                        list@.len() == i,
                        forall|j: int| 0 <= j < i ==> (#[trigger] items@[j]).as_text() is Some,
                        forall|j: int|
                            0 <= j < i ==> (#[trigger] list@[j])@ == items@[j].as_text()->0,
                    decreases items.len() - i,
                {
                    match items[i].text() {
                        Some(text) => {
                            list.push(text);
                        },
                        None => {
                            assert(items@[i as int].as_text() is None);
                            return None;
                        },
                    }
                    i += 1;
                }
                Some(list)
            },
            _ => None,
        }
    }
}

/// Why a document is not a configuration.
#[derive(Debug, Clone, PartialEq, Eq)]
pub enum SettingsError {
    /// The document is not a table of settings.
    InvalidRoot,
    /// A table holds a key that names no setting.
    UnknownField { field: String },
    /// A table holds a key twice.
    DuplicateField { field: String },
    /// A setting that must be given is not.
    MissingField { field: String },
    /// The value of a setting is not of the kind the setting takes.
    InvalidValue { field: String },
}

/// What is wrong with a document, with names as character sequences.
pub enum Fault {
    InvalidRoot,
    UnknownField { field: Seq<char> },
    DuplicateField { field: Seq<char> },
    MissingField { field: Seq<char> },
    InvalidValue { field: Seq<char> },
}

impl View for SettingsError {
    type V = Fault;

    open spec fn view(&self) -> Fault {
        match self {
            SettingsError::InvalidRoot => Fault::InvalidRoot,
            SettingsError::UnknownField { field } => Fault::UnknownField { field: field@ },
            SettingsError::DuplicateField { field } => Fault::DuplicateField { field: field@ },
            SettingsError::MissingField { field } => Fault::MissingField { field: field@ },
            SettingsError::InvalidValue { field } => Fault::InvalidValue { field: field@ },
        }
    }
}

/// Whether `keys` holds `key`.
pub open spec fn is_key(keys: Seq<Seq<char>>, key: Seq<char>) -> bool {
    exists|k: int| 0 <= k < keys.len() && #[trigger] keys[k] == key
}

/// Whether an entry before position `i` has the key of entry `i`.
pub open spec fn repeats_key(entries: Seq<(String, Setting)>, i: int) -> bool {
    exists|j: int| 0 <= j < i && (#[trigger] entries[j]).0@ == entries[i].0@
}

/// What is wrong with the keys of `entries[from..]`, where only `allowed`
/// name a setting: the first key that names none, or that stood before.
pub open spec fn key_fault(entries: Seq<(String, Setting)>, allowed: Seq<Seq<char>>, from: int) -> Option<
    Fault,
>
    decreases entries.len() - from,
{
    if from < 0 || from >= entries.len() {
        None
    } else if !is_key(allowed, entries[from].0@) {
        Some(Fault::UnknownField { field: entries[from].0@ })
    } else if repeats_key(entries, from) {
        Some(Fault::DuplicateField { field: entries[from].0@ })
    } else {
        key_fault(entries, allowed, from + 1)
    }
}

/// The value that `entries[from..]` give the key `key`: that of the first
/// entry that has it.
pub open spec fn value_of(entries: Seq<(String, Setting)>, key: Seq<char>, from: int) -> Option<
    Setting,
>
    decreases entries.len() - from,
{
    if from < 0 || from >= entries.len() {
        None
    } else if entries[from].0@ == key {
        Some(entries[from].1)
    } else {
        value_of(entries, key, from + 1)
    }
}

/// The value given to a setting, where nothing may stand for a setting
/// that is not given: `None` when the key is missing, or when
/// `nothing_is_absent` and its value is nothing.
pub open spec fn given(entries: Seq<(String, Setting)>, key: Seq<char>, nothing_is_absent: bool) -> Option<
    Setting,
> {
    match value_of(entries, key, 0) {
        Some(Setting::Nil) => if nothing_is_absent {
            None
        } else {
            Some(Setting::Nil)
        },
        other => other,
    }
}

/// The text given to the setting `key`, if any.
pub open spec fn text_setting(
    entries: Seq<(String, Setting)>,
    key: Seq<char>,
    nothing_is_absent: bool,
) -> Result<Option<Seq<char>>, Fault> {
    match given(entries, key, nothing_is_absent) {
        None => Ok(None),
        Some(value) => match value.as_text() {
            Some(text) => Ok(Some(text)),
            None => Err(Fault::InvalidValue { field: key }),
        },
    }
}

/// The list of texts given to the setting `key`, if any.
pub open spec fn list_setting(
    entries: Seq<(String, Setting)>,
    key: Seq<char>,
    nothing_is_absent: bool,
) -> Result<Option<Seq<Seq<char>>>, Fault> {
    match given(entries, key, nothing_is_absent) {
        None => Ok(None),
        Some(value) => match value.as_text_list() {
            Some(list) => Ok(Some(list)),
            None => Err(Fault::InvalidValue { field: key }),
        },
    }
}

/// The count given to the setting `key`, if any. A count that does not fit
/// the machine is no count.
pub open spec fn count_setting(entries: Seq<(String, Setting)>, key: Seq<char>) -> Result<
    Option<nat>,
    Fault,
> {
    match given(entries, key, false) {
        None => Ok(None),
        Some(value) => match value.as_count() {
            Some(count) => if count <= usize::MAX {
                Ok(Some(count))
            } else {
                Err(Fault::InvalidValue { field: key })
            },
            None => Err(Fault::InvalidValue { field: key }),
        },
    }
}

/// The truth value given to the setting `key`, if any.
pub open spec fn truth_setting(entries: Seq<(String, Setting)>, key: Seq<char>) -> Result<
    Option<bool>,
    Fault,
> {
    match given(entries, key, false) {
        None => Ok(None),
        Some(value) => match value.as_truth() {
            Some(truth) => Ok(Some(truth)),
            None => Err(Fault::InvalidValue { field: key }),
        },
    }
}

/// Whether the text `found` is the one that was `read`.
pub open spec fn is_text(read: Result<Option<Seq<char>>, Fault>, found: Option<String>) -> bool {
    match read {
        Ok(Some(text)) => found matches Some(s) && s@ == text,
        Ok(None) => found is None,
        Err(_) => false,
    }
}

/// Whether the list `found` is the one that was `read`.
pub open spec fn is_list(read: Result<Option<Seq<Seq<char>>>, Fault>, found: Option<Vec<String>>) -> bool {
    match read {
        Ok(Some(list)) => found matches Some(v) && texts_of(v@) == list,
        Ok(None) => found is None,
        Err(_) => false,
    }
}

/// The fault of a reading, if it has one.
pub open spec fn fault_in<T>(read: Result<T, Fault>) -> Option<Fault> {
    match read {
        Ok(_) => None,
        Err(fault) => Some(fault),
    }
}

/// The first fault of two, if either is one.
pub open spec fn or_fault(first: Option<Fault>, second: Option<Fault>) -> Option<Fault> {
    match first {
        Some(fault) => Some(fault),
        None => second,
    }
}

/// Whether `keys` holds `key`.
pub fn has_key(keys: &Vec<&str>, key: &str) -> (found: bool)
    ensures
        found == is_key(texts(keys@), key@),
{
    let mut k: usize = 0;
    while k < keys.len()
        invariant
            k <= keys.len(),
            forall|j: int| 0 <= j < k ==> texts(keys@)[j] != key@,
        decreases keys.len() - k,
    {
        if keys[k].eq(key) {
            assert(texts(keys@)[k as int] == key@);
            return true;
        }
        k += 1;
    }
    false
}

/// Checks that every key of `entries` is one of `allowed` and stands once.
pub fn check_keys(entries: &Vec<(String, Setting)>, allowed: &Vec<&str>) -> (checked: Result<
    (),
    SettingsError,
>)
    ensures
        match key_fault(entries@, texts(allowed@), 0) {
            Some(fault) => checked matches Err(error) && error@ == fault,
            None => checked is Ok,
        },
{
    let mut i: usize = 0;
    while i < entries.len()
        invariant
            i <= entries.len(),
            key_fault(entries@, texts(allowed@), 0) == key_fault(entries@, texts(allowed@), i as int),
        decreases entries.len() - i,
    {
        let key = entries[i].0.as_str();
        if !has_key(allowed, key) {
            return Err(SettingsError::UnknownField { field: key.to_owned() });
        }
        let mut j: usize = 0;
        while j < i
            invariant
                j <= i < entries.len(),
                key@ == entries@[i as int].0@,
                is_key(texts(allowed@), key@),
                key_fault(entries@, texts(allowed@), 0) == key_fault(
                    entries@,
                    texts(allowed@),
                    i as int,
                ),
                forall|k: int| 0 <= k < j ==> (#[trigger] entries@[k]).0@ != key@,
            decreases i - j,
        {
            if entries[j].0.as_str().eq(key) {
                assert(entries@[j as int].0@ == entries@[i as int].0@);
                assert(repeats_key(entries@, i as int));
                return Err(SettingsError::DuplicateField { field: key.to_owned() });
            }
            j += 1;
        }
        i += 1;
    }
    Ok(())
}

/// The value that `entries` give the setting `key`.
pub fn lookup<'a>(entries: &'a Vec<(String, Setting)>, key: &str, nothing_is_absent: bool) -> (value:
    Option<&'a Setting>)
    ensures
        match given(entries@, key@, nothing_is_absent) {
            Some(expected) => value matches Some(found) && *found == expected,
            None => value is None,
        },
{
    let mut i: usize = 0;
    while i < entries.len()
        invariant
            i <= entries.len(),
            value_of(entries@, key@, 0) == value_of(entries@, key@, i as int),
        decreases entries.len() - i,
    {
        if entries[i].0.as_str().eq(key) {
            let found = &entries[i].1;
            return match found {
                Setting::Nil => if nothing_is_absent {
                    None
                } else {
                    Some(found)
                },
                _ => Some(found),
            };
        }
        i += 1;
    }
    None
}

/// Reads the text given to the setting `key`.
pub fn read_text(entries: &Vec<(String, Setting)>, key: &str, nothing_is_absent: bool) -> (read:
    Result<Option<String>, SettingsError>)
    ensures
        match text_setting(entries@, key@, nothing_is_absent) {
            Ok(_) => read matches Ok(found) && is_text(
                text_setting(entries@, key@, nothing_is_absent),
                found,
            ),
            Err(fault) => read matches Err(error) && error@ == fault,
        },
{
    match lookup(entries, key, nothing_is_absent) {
        None => Ok(None),
        Some(value) => match value.text() {
            Some(text) => Ok(Some(text)),
            None => Err(SettingsError::InvalidValue { field: key.to_owned() }),
        },
    }
}

/// Reads the list of texts given to the setting `key`.
pub fn read_list(entries: &Vec<(String, Setting)>, key: &str, nothing_is_absent: bool) -> (read:
    Result<Option<Vec<String>>, SettingsError>)
    ensures
        match list_setting(entries@, key@, nothing_is_absent) {
            Ok(_) => read matches Ok(found) && is_list(
                list_setting(entries@, key@, nothing_is_absent),
                found,
            ),
            Err(fault) => read matches Err(error) && error@ == fault,
        },
{
    match lookup(entries, key, nothing_is_absent) {
        None => Ok(None),
        Some(value) => match value.text_list() {
            Some(list) => {
                assert(texts_of(list@) =~= value.as_text_list()->0);
                Ok(Some(list))
            },
            None => Err(SettingsError::InvalidValue { field: key.to_owned() }),
        },
    }
}

/// Reads the count given to the setting `key`.
pub fn read_count(entries: &Vec<(String, Setting)>, key: &str) -> (read: Result<
    Option<usize>,
    SettingsError,
>)
    ensures
        match count_setting(entries@, key@) {
            Ok(Some(count)) => read == Ok::<Option<usize>, SettingsError>(Some(count as usize)),
            Ok(None) => read == Ok::<Option<usize>, SettingsError>(None),
            Err(fault) => read matches Err(error) && error@ == fault,
        },
{
    match lookup(entries, key, false) {
        None => Ok(None),
        Some(value) => match value.count() {
            Some(count) => if count <= usize::MAX as u64 {
                Ok(Some(count as usize))
            } else {
                Err(SettingsError::InvalidValue { field: key.to_owned() })
            },
            None => Err(SettingsError::InvalidValue { field: key.to_owned() }),
        },
    }
}

/// Reads the truth value given to the setting `key`.
pub fn read_truth(entries: &Vec<(String, Setting)>, key: &str) -> (read: Result<
    Option<bool>,
    SettingsError,
>)
    ensures
        match truth_setting(entries@, key@) {
            Ok(truth) => read == Ok::<Option<bool>, SettingsError>(truth),
            Err(fault) => read matches Err(error) && error@ == fault,
        },
{
    match lookup(entries, key, false) {
        None => Ok(None),
        Some(value) => match value.truth() {
            Some(truth) => Ok(Some(truth)),
            None => Err(SettingsError::InvalidValue { field: key.to_owned() }),
        },
    }
}

/// The text that must be given to the setting `key`.
pub open spec fn required_text(entries: Seq<(String, Setting)>, key: Seq<char>) -> Result<
    Seq<char>,
    Fault,
> {
    match text_setting(entries, key, false) {
        Ok(Some(text)) => Ok(text),
        Ok(None) => Err(Fault::MissingField { field: key }),
        Err(fault) => Err(fault),
    }
}

/// Reads the text that must be given to the setting `key`.
pub fn require_text(entries: &Vec<(String, Setting)>, key: &str) -> (read: Result<
    String,
    SettingsError,
>)
    ensures
        match required_text(entries@, key@) {
            Ok(text) => read matches Ok(found) && found@ == text,
            Err(fault) => read matches Err(error) && error@ == fault,
        },
{
    match read_text(entries, key, false) {
        Ok(Some(text)) => Ok(text),
        Ok(None) => Err(SettingsError::MissingField { field: key.to_owned() }),
        Err(error) => Err(error),
    }
}

} // verus!
