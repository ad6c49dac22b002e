//! The settings document: a key-value mapping persisted as JSON text.
//!
//! The document is owned by a third-party application; this crate only
//! ever updates the keys it knows about and preserves every other entry
//! untouched, in its original order (read-modify-write, never
//! replace-whole-document).  Values the logic reads are integers and
//! strings; any other JSON value is carried through verbatim as its own
//! serialized text.

use vstd::prelude::*;
use vstd::string::StringExecFns;
use crate::text::str_eq;

verus! {

/// One value of a settings document, as the logic sees it.
pub enum SettingsValue {
    /// A JSON integer.
    IntVal(i64),
    /// A JSON string.
    StrVal(String),
    /// Any other JSON value, held as its serialized text and preserved
    /// verbatim across updates.
    RawVal(String),
}

/// The mathematical value of a [`SettingsValue`].
pub enum ValModel {
    Int(i64),
    Str(Seq<char>),
    Raw(Seq<char>),
}

impl View for SettingsValue {
    type V = ValModel;

    open spec fn view(&self) -> ValModel {
        match self {
            SettingsValue::IntVal(i) => ValModel::Int(*i),
            SettingsValue::StrVal(s) => ValModel::Str(s@),
            SettingsValue::RawVal(s) => ValModel::Raw(s@),
        }
    }
}

/// One keyed entry of a settings document.
pub struct SettingsEntry {
    pub key: String,
    pub value: SettingsValue,
}

impl View for SettingsEntry {
    type V = (Seq<char>, ValModel);

    open spec fn view(&self) -> (Seq<char>, ValModel) {
        (self.key@, self.value@)
    }
}

/// The mathematical value of a settings document: its entries in order.
pub type DocModel = Seq<(Seq<char>, ValModel)>;

/// A settings document: keyed entries in their persisted order.
pub struct SettingsDoc {
    pub entries: Vec<SettingsEntry>,
}

impl View for SettingsDoc {
    type V = DocModel;

    open spec fn view(&self) -> DocModel {
        self.entries@.map_values(|e: SettingsEntry| e@)
    }
}

/// The value stored under a key: the first entry that carries it.
pub open spec fn doc_get(d: DocModel, k: Seq<char>) -> Option<ValModel>
    decreases d.len(),
{
    if d.len() == 0 {
        None
    } else if d[0].0 == k {
        Some(d[0].1)
    } else {
        doc_get(d.drop_first(), k)
    }
}

/// Whether some entry carries the key.
pub open spec fn doc_has_key(d: DocModel, k: Seq<char>) -> bool {
    doc_get(d, k) is Some
}

/// The document with the key bound to the value: an existing entry is
/// replaced in place, a new key is appended at the end; every other
/// entry is unchanged.
pub open spec fn doc_set(d: DocModel, k: Seq<char>, v: ValModel) -> DocModel
    decreases d.len(),
{
    if d.len() == 0 {
        seq![(k, v)]
    } else if d[0].0 == k {
        seq![(k, v)] + d.drop_first()
    } else {
        seq![d[0]] + doc_set(d.drop_first(), k, v)
    }
}

/// The document with every entry under the key removed; every other
/// entry is unchanged.
pub open spec fn doc_remove(d: DocModel, k: Seq<char>) -> DocModel
    decreases d.len(),
{
    if d.len() == 0 {
        Seq::empty()
    } else if d[0].0 == k {
        doc_remove(d.drop_first(), k)
    } else {
        seq![d[0]] + doc_remove(d.drop_first(), k)
    }
}

/// A well-formed document binds each key at most once.
pub open spec fn doc_wf(d: DocModel) -> bool
    decreases d.len(),
{
    d.len() == 0 || (!doc_has_key(d.drop_first(), d[0].0) && doc_wf(d.drop_first()))
}

/// Reading a key just set yields the value set.
pub proof fn lemma_doc_get_set_same(d: DocModel, k: Seq<char>, v: ValModel)
    ensures
        doc_get(doc_set(d, k, v), k) == Some(v),
    decreases d.len(),
{
    if d.len() == 0 {
    } else if d[0].0 == k {
        assert(doc_set(d, k, v)[0] == (k, v));
    } else {
        lemma_doc_get_set_same(d.drop_first(), k, v);
        assert(doc_set(d, k, v).drop_first() =~= doc_set(d.drop_first(), k, v));
    }
}

/// Setting one key leaves every other key's value unchanged.
pub proof fn lemma_doc_get_set_other(d: DocModel, k: Seq<char>, v: ValModel, k2: Seq<char>)
    requires
        k2 != k,
    ensures
        doc_get(doc_set(d, k, v), k2) == doc_get(d, k2),
    decreases d.len(),
{
    if d.len() == 0 {
        assert(doc_set(d, k, v)[0] == (k, v));
        assert(doc_set(d, k, v).drop_first() =~= d);
    } else if d[0].0 == k {
        assert(doc_set(d, k, v)[0] == (k, v));
        assert(doc_set(d, k, v).drop_first() =~= d.drop_first());
    } else {
        lemma_doc_get_set_other(d.drop_first(), k, v, k2);
        assert(doc_set(d, k, v)[0] == d[0]);
        assert(doc_set(d, k, v).drop_first() =~= doc_set(d.drop_first(), k, v));
    }
}

/// Setting a key keeps the document well-formed.
pub proof fn lemma_doc_set_wf(d: DocModel, k: Seq<char>, v: ValModel)
    requires
        doc_wf(d),
    ensures
        doc_wf(doc_set(d, k, v)),
    decreases d.len(),
{
    if d.len() == 0 {
        assert(doc_set(d, k, v).drop_first() =~= Seq::<(Seq<char>, ValModel)>::empty());
        assert(doc_wf(Seq::<(Seq<char>, ValModel)>::empty()));
    } else if d[0].0 == k {
        assert(doc_set(d, k, v)[0] == (k, v));
        assert(doc_set(d, k, v).drop_first() =~= d.drop_first());
    } else {
        lemma_doc_set_wf(d.drop_first(), k, v);
        lemma_doc_get_set_other(d.drop_first(), k, v, d[0].0);
        assert(doc_set(d, k, v)[0] == d[0]);
        assert(doc_set(d, k, v).drop_first() =~= doc_set(d.drop_first(), k, v));
    }
}

/// Reading a key just removed yields nothing.
pub proof fn lemma_doc_get_remove_same(d: DocModel, k: Seq<char>)
    ensures
        doc_get(doc_remove(d, k), k) is None,
    decreases d.len(),
{
    if d.len() == 0 {
    } else if d[0].0 == k {
        lemma_doc_get_remove_same(d.drop_first(), k);
    } else {
        lemma_doc_get_remove_same(d.drop_first(), k);
        if doc_remove(d, k).len() > 0 {
            assert(doc_remove(d, k)[0] == d[0]);
            assert(doc_remove(d, k).drop_first() =~= doc_remove(d.drop_first(), k));
        }
    }
}

/// Removing one key leaves every other key's value unchanged.
pub proof fn lemma_doc_get_remove_other(d: DocModel, k: Seq<char>, k2: Seq<char>)
    requires
        k2 != k,
    ensures
        doc_get(doc_remove(d, k), k2) == doc_get(d, k2),
    decreases d.len(),
{
    if d.len() == 0 {
    } else if d[0].0 == k {
        lemma_doc_get_remove_other(d.drop_first(), k, k2);
    } else {
        lemma_doc_get_remove_other(d.drop_first(), k, k2);
        assert(doc_remove(d, k)[0] == d[0]);
        assert(doc_remove(d, k).drop_first() =~= doc_remove(d.drop_first(), k));
    }
}

/// Removing a key keeps the document well-formed.
pub proof fn lemma_doc_remove_wf(d: DocModel, k: Seq<char>)
    requires
        doc_wf(d),
    ensures
        doc_wf(doc_remove(d, k)),
    decreases d.len(),
{
    if d.len() == 0 {
    } else if d[0].0 == k {
        lemma_doc_remove_wf(d.drop_first(), k);
    } else {
        lemma_doc_remove_wf(d.drop_first(), k);
        lemma_doc_get_remove_other(d.drop_first(), k, d[0].0);
        if doc_remove(d, k).len() > 0 {
            assert(doc_remove(d, k)[0] == d[0]);
            assert(doc_remove(d, k).drop_first() =~= doc_remove(d.drop_first(), k));
        }
    }
}

/// Where the key first occurs at index `i`, the lookup returns that
/// entry's value.
proof fn lemma_doc_get_found(d: DocModel, k: Seq<char>, i: int)
    requires
        0 <= i < d.len(),
        d[i].0 == k,
        forall|j: int| 0 <= j < i ==> d[j].0 != k,
    ensures
        doc_get(d, k) == Some(d[i].1),
    decreases i,
{
    if i == 0 {
    } else {
        lemma_doc_get_found(d.drop_first(), k, i - 1);
    }
}

/// Where no entry carries the key, the lookup returns nothing.
proof fn lemma_doc_get_absent(d: DocModel, k: Seq<char>)
    requires
        forall|j: int| 0 <= j < d.len() ==> d[j].0 != k,
    ensures
        doc_get(d, k) is None,
    decreases d.len(),
{
    if d.len() > 0 {
        lemma_doc_get_absent(d.drop_first(), k);
    }
}

/// Where the key first occurs at index `i`, setting it replaces that
/// entry in place.
proof fn lemma_doc_set_found(d: DocModel, k: Seq<char>, v: ValModel, i: int)
    requires
        0 <= i < d.len(),
        d[i].0 == k,
        forall|j: int| 0 <= j < i ==> d[j].0 != k,
    ensures
        doc_set(d, k, v) =~= d.update(i, (k, v)),
    decreases i,
{
    if i == 0 {
        assert(doc_set(d, k, v) =~= seq![(k, v)] + d.drop_first());
    } else {
        lemma_doc_set_found(d.drop_first(), k, v, i - 1);
        assert(doc_set(d, k, v) =~= seq![d[0]] + doc_set(d.drop_first(), k, v));
    }
}

/// Where no entry carries the key, setting it appends a new entry.
proof fn lemma_doc_set_absent(d: DocModel, k: Seq<char>, v: ValModel)
    requires
        forall|j: int| 0 <= j < d.len() ==> d[j].0 != k,
    ensures
        doc_set(d, k, v) =~= d.push((k, v)),
    decreases d.len(),
{
    if d.len() == 0 {
    } else {
        lemma_doc_set_absent(d.drop_first(), k, v);
    }
}

/// Where the key occurs only at index `i`, removing it deletes exactly
/// that entry.
proof fn lemma_doc_remove_found(d: DocModel, k: Seq<char>, i: int)
    requires
        0 <= i < d.len(),
        d[i].0 == k,
        forall|j: int| 0 <= j < d.len() && j != i ==> d[j].0 != k,
    ensures
        doc_remove(d, k) =~= d.remove(i),
    decreases i,
{
    if i == 0 {
        lemma_doc_remove_absent(d.drop_first(), k);
        assert(d.remove(0) =~= d.drop_first());
    } else {
        lemma_doc_remove_found(d.drop_first(), k, i - 1);
        assert(d.remove(i).drop_first() =~= d.drop_first().remove(i - 1));
        assert(doc_remove(d, k) =~= seq![d[0]] + doc_remove(d.drop_first(), k));
        assert(seq![d[0]] + d.drop_first().remove(i - 1) =~= d.remove(i));
    }
}

/// Where no entry carries the key, removing it changes nothing.
proof fn lemma_doc_remove_absent(d: DocModel, k: Seq<char>)
    requires
        forall|j: int| 0 <= j < d.len() ==> d[j].0 != k,
    ensures
        doc_remove(d, k) =~= d,
    decreases d.len(),
{
    if d.len() > 0 {
        lemma_doc_remove_absent(d.drop_first(), k);
        assert(doc_remove(d, k) =~= seq![d[0]] + doc_remove(d.drop_first(), k));
    }
}

impl SettingsValue {
    /// An equal copy of the value.
    pub fn duplicate(&self) -> (r: SettingsValue)
        ensures
            r@ == self@,
    {
        match self {
            SettingsValue::IntVal(i) => SettingsValue::IntVal(*i),
            SettingsValue::StrVal(s) => SettingsValue::StrVal(s.clone()),
            SettingsValue::RawVal(s) => SettingsValue::RawVal(s.clone()),
        }
    }
}

impl SettingsDoc {
    /// An equal copy of the document.
    pub fn duplicate(&self) -> (r: SettingsDoc)
        ensures
            r@ =~= self@,
    {
        let mut entries: Vec<SettingsEntry> = Vec::new();
        let mut i: usize = 0;
        let n = self.entries.len();
        while i < n
            invariant
                i <= n,
                n == self@.len(),
                self@.len() == self.entries@.len(),
                entries@.len() == i,
                forall|j: int| 0 <= j < i ==> entries@[j]@ == self@[j],
            decreases n - i,
        {
            let e = SettingsEntry {
                key: self.entries[i].key.clone(),
                value: self.entries[i].value.duplicate(),
            };
            entries.push(e);
            i = i + 1;
        }
        let r = SettingsDoc { entries };
        proof {
            assert(r@ =~= self@);
        }
        r
    }

    /// The empty document.
    pub fn empty() -> (r: SettingsDoc)
        ensures
            r@ =~= Seq::<(Seq<char>, ValModel)>::empty(),
    {
        SettingsDoc { entries: Vec::new() }
    }

    /// The position of the first entry under the key, if any.
    fn find_key(&self, key: &str) -> (r: Option<usize>)
        ensures
            match r {
                Some(i) => i < self@.len() && self@[i as int].0 == key@ && forall|j: int|
                    0 <= j < i ==> self@[j].0 != key@,
                None => forall|j: int| 0 <= j < self@.len() ==> self@[j].0 != key@,
            },
    {
        let mut i: usize = 0;
        let n = self.entries.len();
        while i < n
            invariant
                i <= n,
                n == self@.len(),
                self@.len() == self.entries@.len(),
                forall|j: int| 0 <= j < self@.len() ==> self@[j] == self.entries@[j]@,
                forall|j: int| 0 <= j < i ==> self@[j].0 != key@,
            decreases n - i,
        {
            if str_eq(self.entries[i].key.as_str(), key) {
                return Some(i);
            }
            i = i + 1;
        }
        None
    }

    /// The integer stored under the key, if the key holds an integer.
    pub fn get_int(&self, key: &str) -> (r: Option<i64>)
        ensures
            r == (match doc_get(self@, key@) {
                Some(ValModel::Int(i)) => Some(i),
                _ => None::<i64>,
            }),
    {
        match self.find_key(key) {
            None => {
                proof {
                    lemma_doc_get_absent(self@, key@);
                }
                None
            },
            Some(i) => {
                proof {
                    lemma_doc_get_found(self@, key@, i as int);
                }
                match &self.entries[i].value {
                    SettingsValue::IntVal(v) => Some(*v),
                    _ => None,
                }
            },
        }
    }

    /// The string stored under the key, if the key holds a string.
    pub fn get_str(&self, key: &str) -> (r: Option<String>)
        ensures
            match r {
                Some(s) => doc_get(self@, key@) == Some(ValModel::Str(s@)),
                None => !(doc_get(self@, key@) matches Some(ValModel::Str(_))),
            },
    {
        match self.find_key(key) {
            None => {
                proof {
                    lemma_doc_get_absent(self@, key@);
                }
                None
            },
            Some(i) => {
                proof {
                    lemma_doc_get_found(self@, key@, i as int);
                }
                match &self.entries[i].value {
                    SettingsValue::StrVal(s) => Some(s.clone()),
                    _ => None,
                }
            },
        }
    }

    /// Bind the key to the value: replace its entry in place, or append
    /// a new entry; every other entry is untouched.
    pub fn set_value(&mut self, key: &str, value: SettingsValue)
        ensures
            final(self)@ =~= doc_set(old(self)@, key@, value@),
    {
        let ghost v = value@;
        match self.find_key(key) {
            Some(i) => {
                proof {
                    lemma_doc_set_found(self@, key@, v, i as int);
                }
                self.entries.remove(i);
                self.entries.insert(
                    i,
                    SettingsEntry { key: String::from_str(key), value },
                );
                proof {
                    assert(self@ =~= old(self)@.update(i as int, (key@, v)));
                }
            },
            None => {
                proof {
                    lemma_doc_set_absent(self@, key@, v);
                }
                self.entries.push(SettingsEntry { key: String::from_str(key), value });
                proof {
                    assert(self@ =~= old(self)@.push((key@, v)));
                }
            },
        }
    }

    /// Bind the key to an integer value.
    pub fn set_int(&mut self, key: &str, value: i64)
        ensures
            final(self)@ =~= doc_set(old(self)@, key@, ValModel::Int(value)),
    {
        self.set_value(key, SettingsValue::IntVal(value));
    }

    /// Bind the key to a string value.
    pub fn set_str(&mut self, key: &str, value: String)
        ensures
            final(self)@ =~= doc_set(old(self)@, key@, ValModel::Str(value@)),
    {
        self.set_value(key, SettingsValue::StrVal(value));
    }

    /// Drop the entry under the key, if any; every other entry is
    /// untouched.  On a well-formed document this removes at most one
    /// entry.
    pub fn remove_key(&mut self, key: &str)
        requires
            doc_wf(old(self)@),
        ensures
            final(self)@ =~= doc_remove(old(self)@, key@),
    {
        match self.find_key(key) {
            Some(i) => {
                proof {
                    lemma_doc_wf_unique(self@, key@, i as int);
                    lemma_doc_remove_found(self@, key@, i as int);
                }
                self.entries.remove(i);
                proof {
                    assert(self@ =~= old(self)@.remove(i as int));
                }
            },
            None => {
                proof {
                    lemma_doc_remove_absent(self@, key@);
                }
            },
        }
    }
}

/// In a well-formed document, a key found at index `i` occurs nowhere
/// else.
proof fn lemma_doc_wf_unique(d: DocModel, k: Seq<char>, i: int)
    requires
        doc_wf(d),
        0 <= i < d.len(),
        d[i].0 == k,
    ensures
        forall|j: int| 0 <= j < d.len() && j != i ==> d[j].0 != k,
    decreases d.len(),
{
    assert forall|j: int| 0 <= j < d.len() && j != i implies d[j].0 != k by {
        if d[j].0 == k {
            if i == 0 {
                assert(d.drop_first()[j - 1] == d[j]);
                lemma_doc_get_found_any(d.drop_first(), k, j - 1);
                assert(false);
            } else if j == 0 {
                assert(d.drop_first()[i - 1] == d[i]);
                lemma_doc_get_found_any(d.drop_first(), k, i - 1);
                assert(false);
            } else {
                assert(d.drop_first()[i - 1] == d[i]);
                lemma_doc_wf_unique(d.drop_first(), k, i - 1);
                assert(d.drop_first()[j - 1] == d[j]);
                assert(false);
            }
        }
    }
}

/// A key that occurs somewhere is reported present by the lookup.
proof fn lemma_doc_get_found_any(d: DocModel, k: Seq<char>, i: int)
    requires
        0 <= i < d.len(),
        d[i].0 == k,
    ensures
        doc_has_key(d, k),
    decreases i,
{
    if i > 0 && d[0].0 != k {
        lemma_doc_get_found_any(d.drop_first(), k, i - 1);
    }
}

} // verus!
