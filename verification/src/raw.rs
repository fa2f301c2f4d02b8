//! The untyped configuration value handed to the loader: what a parsed
//! configuration file holds. Sections map field names to scalars or to
//! arrays of scalars; the section loaders read from this shape leniently.

use vstd::prelude::*;
use crate::strutil::str_eq;

verus! {

/// A scalar element of an array value.
pub enum RawItem {
    Str(String),
    Int(i64),
    Bool(bool),
}

/// Abstract value of a `RawItem`.
pub ghost enum RawItemV {
    Str(Seq<char>),
    Int(i64),
    Bool(bool),
}

impl View for RawItem {
    type V = RawItemV;

    open spec fn view(&self) -> RawItemV {
        match self {
            RawItem::Str(s) => RawItemV::Str(s@),
            RawItem::Int(n) => RawItemV::Int(*n),
            RawItem::Bool(b) => RawItemV::Bool(*b),
        }
    }
}

/// A field value inside a configuration section: a scalar or an array
/// of scalars.
pub enum RawValue {
    Str(String),
    Int(i64),
    Bool(bool),
    Arr(Vec<RawItem>),
}

/// Abstract value of a `RawValue`.
pub ghost enum RawValueV {
    Str(Seq<char>),
    Int(i64),
    Bool(bool),
    Arr(Seq<RawItemV>),
}

impl View for RawValue {
    type V = RawValueV;

    open spec fn view(&self) -> RawValueV {
        match self {
            RawValue::Str(s) => RawValueV::Str(s@),
            RawValue::Int(n) => RawValueV::Int(*n),
            RawValue::Bool(b) => RawValueV::Bool(*b),
            RawValue::Arr(items) => RawValueV::Arr(Seq::new(items@.len(), |i: int| items@[i]@)),
        }
    }
}

/// First-match lookup in an association list of named values.
pub open spec fn lookup<V>(s: Seq<(Seq<char>, V)>, key: Seq<char>) -> Option<V>
    decreases s.len(),
{
    if s.len() == 0 {
        None
    } else if s[0].0 == key {
        Some(s[0].1)
    } else {
        lookup(s.drop_first(), key)
    }
}

/// Skipping entries whose names all differ from `key` leaves the
/// lookup result unchanged.
pub proof fn lemma_lookup_skip<V>(s: Seq<(Seq<char>, V)>, key: Seq<char>, i: int)
    requires
        0 <= i <= s.len(),
        forall|j: int| 0 <= j < i ==> s[j].0 != key,
    ensures
        lookup(s, key) == lookup(s.skip(i), key),
    decreases i,
{
    if i > 0 {
        lemma_lookup_skip(s.drop_first(), key, i - 1);
        assert(s.drop_first().skip(i - 1) =~= s.skip(i));
    } else {
        assert(s.skip(0) =~= s);
    }
}

/// One named section of a configuration file.
pub struct RawSection {
    pub entries: Vec<(String, RawValue)>,
}

impl View for RawSection {
    type V = Seq<(Seq<char>, RawValueV)>;

    open spec fn view(&self) -> Seq<(Seq<char>, RawValueV)> {
        Seq::new(self.entries@.len(), |i: int| (self.entries@[i].0@, self.entries@[i].1@))
    }
}

/// The string field named `key`, if the section holds one.
pub open spec fn sec_str(s: Seq<(Seq<char>, RawValueV)>, key: Seq<char>) -> Option<Seq<char>> {
    match lookup(s, key) {
        Some(RawValueV::Str(t)) => Some(t),
        _ => None,
    }
}

/// The integer field named `key`, if the section holds one.
pub open spec fn sec_int(s: Seq<(Seq<char>, RawValueV)>, key: Seq<char>) -> Option<i64> {
    match lookup(s, key) {
        Some(RawValueV::Int(n)) => Some(n),
        _ => None,
    }
}

/// The boolean field named `key`, if the section holds one.
pub open spec fn sec_bool(s: Seq<(Seq<char>, RawValueV)>, key: Seq<char>) -> Option<bool> {
    match lookup(s, key) {
        Some(RawValueV::Bool(b)) => Some(b),
        _ => None,
    }
}

/// The string elements of an array, in order, non-strings dropped.
pub open spec fn strings_of(items: Seq<RawItemV>) -> Seq<Seq<char>>
    decreases items.len(),
{
    if items.len() == 0 {
        Seq::empty()
    } else {
        match items.last() {
            RawItemV::Str(t) => strings_of(items.drop_last()).push(t),
            _ => strings_of(items.drop_last()),
        }
    }
}

/// The array field named `key` reduced to its string elements, if the
/// section holds an array under that name.
pub open spec fn sec_str_arr(s: Seq<(Seq<char>, RawValueV)>, key: Seq<char>) -> Option<
    Seq<Seq<char>>,
> {
    match lookup(s, key) {
        Some(RawValueV::Arr(items)) => Some(strings_of(items)),
        _ => None,
    }
}

/// The views of a list of strings.
pub open spec fn str_views(ss: Seq<String>) -> Seq<Seq<char>> {
    Seq::new(ss.len(), |i: int| ss[i]@)
}

/// A list of strings taken as array elements.
pub open spec fn raw_str_items(ts: Seq<Seq<char>>) -> Seq<RawItemV> {
    Seq::new(ts.len(), |i: int| RawItemV::Str(ts[i]))
}

/// An all-string array gives its strings back unchanged.
pub proof fn lemma_strings_of_str_items(ts: Seq<Seq<char>>)
    ensures
        strings_of(raw_str_items(ts)) == ts,
    decreases ts.len(),
{
    if ts.len() == 0 {
        assert(raw_str_items(ts) =~= Seq::<RawItemV>::empty());
        assert(strings_of(raw_str_items(ts)) =~= ts);
    } else {
        lemma_strings_of_str_items(ts.drop_last());
        assert(raw_str_items(ts).drop_last() =~= raw_str_items(ts.drop_last()));
        assert(raw_str_items(ts).last() == RawItemV::Str(ts.last()));
        assert(strings_of(raw_str_items(ts)) =~= ts);
    }
}

/// A key found at `i`, with no earlier entry under that key, is what the
/// lookup returns.
pub proof fn lemma_lookup_index<V>(s: Seq<(Seq<char>, V)>, key: Seq<char>, i: int)
    requires
        0 <= i < s.len(),
        s[i].0 == key,
        forall|j: int| 0 <= j < i ==> s[j].0 != key,
    ensures
        lookup(s, key) == Some(s[i].1),
{
    lemma_lookup_skip(s, key, i);
    assert(s.skip(i)[0] == s[i]);
}

impl RawSection {
    /// A section with no fields.
    pub fn new() -> (r: RawSection)
        ensures
            r@ =~= Seq::<(Seq<char>, RawValueV)>::empty(),
    {
        RawSection { entries: Vec::new() }
    }

    /// Adds a field at the end of the section.
    pub fn push(&mut self, key: String, value: RawValue)
        ensures
            final(self)@ =~= old(self)@.push((key@, value@)),
    {
        self.entries.push((key, value));
    }

    fn find(&self, key: &str) -> (r: Option<&RawValue>)
        ensures
            match lookup(self@, key@) {
                Some(v) => r is Some && r->0@ == v,
                None => r is None,
            },
    {
        let n = self.entries.len();
        let mut i: usize = 0;
        while i < n
            invariant
                n == self.entries.len(),
                i <= n,
                forall|j: int| 0 <= j < i ==> self@[j].0 != key@,
            decreases n - i,
        {
            if str_eq(self.entries[i].0.as_str(), key) {
                proof {
                    lemma_lookup_skip(self@, key@, i as int);
                    assert(self@.skip(i as int)[0] == self@[i as int]);
                }
                return Some(&self.entries[i].1);
            }
            i += 1;
        }
        proof {
            lemma_lookup_skip(self@, key@, n as int);
            assert(self@.skip(n as int) =~= Seq::<(Seq<char>, RawValueV)>::empty());
        }
        None
    }

    /// The string field named `key`, if present with that type.
    pub fn get_str(&self, key: &str) -> (r: Option<String>)
        ensures
            match sec_str(self@, key@) {
                Some(t) => r is Some && r->0@ == t,
                None => r is None,
            },
    {
        match self.find(key) {
            Some(RawValue::Str(s)) => Some(s.clone()),
            _ => None,
        }
    }

    /// The integer field named `key`, if present with that type.
    pub fn get_int(&self, key: &str) -> (r: Option<i64>)
        ensures
            r == sec_int(self@, key@),
    {
        match self.find(key) {
            Some(RawValue::Int(n)) => Some(*n),
            _ => None,
        }
    }

    /// The boolean field named `key`, if present with that type.
    pub fn get_bool(&self, key: &str) -> (r: Option<bool>)
        ensures
            r == sec_bool(self@, key@),
    {
        match self.find(key) {
            Some(RawValue::Bool(b)) => Some(*b),
            _ => None,
        }
    }

    /// The array field named `key` reduced to its string elements, in
    /// order; elements of other types are dropped, as the lenient merge
    /// asks.
    pub fn get_str_arr(&self, key: &str) -> (r: Option<Vec<String>>)
        ensures
            match sec_str_arr(self@, key@) {
                Some(ts) => r is Some && str_views(r->0@) == ts,
                None => r is None,
            },
    {
        match self.find(key) {
            Some(RawValue::Arr(items)) => {
                let mut out: Vec<String> = Vec::new();
                let n = items.len();
                let mut i: usize = 0;
                while i < n
                    invariant
                        n == items.len(),
                        i <= n,
                        str_views(out@) =~= strings_of(
                            Seq::new(items@.len(), |k: int| items@[k]@).take(i as int),
                        ),
                    decreases n - i,
                {
                    let ghost itemsv = Seq::new(items@.len(), |k: int| items@[k]@);
                    if let RawItem::Str(s) = &items[i] {
                        out.push(s.clone());
                    }
                    proof {
                        assert(itemsv.take(i + 1).drop_last() =~= itemsv.take(i as int));
                        assert(itemsv.take(i + 1).last() == itemsv[i as int]);
                        assert(str_views(out@) =~= strings_of(itemsv.take(i + 1)));
                    }
                    i += 1;
                }
                proof {
                    let itemsv = Seq::new(items@.len(), |k: int| items@[k]@);
                    assert(itemsv.take(n as int) =~= itemsv);
                }
                Some(out)
            },
            _ => None,
        }
    }
}

/// A whole parsed configuration file: named sections in file order.
pub struct RawConfigValue {
    pub sections: Vec<(String, RawSection)>,
}

impl View for RawConfigValue {
    type V = Seq<(Seq<char>, Seq<(Seq<char>, RawValueV)>)>;

    open spec fn view(&self) -> Seq<(Seq<char>, Seq<(Seq<char>, RawValueV)>)> {
        Seq::new(self.sections@.len(), |i: int| (self.sections@[i].0@, self.sections@[i].1@))
    }
}

impl RawConfigValue {
    /// A file with no sections.
    pub fn new() -> (r: RawConfigValue)
        ensures
            r@ =~= Seq::<(Seq<char>, Seq<(Seq<char>, RawValueV)>)>::empty(),
    {
        RawConfigValue { sections: Vec::new() }
    }

    /// Adds a section at the end of the file.
    pub fn push(&mut self, name: String, section: RawSection)
        ensures
            final(self)@ =~= old(self)@.push((name@, section@)),
    {
        self.sections.push((name, section));
    }

    /// The section named `name`, if the file holds one.
    pub fn get_section(&self, name: &str) -> (r: Option<&RawSection>)
        ensures
            match lookup(self@, name@) {
                Some(s) => r is Some && r->0@ == s,
                None => r is None,
            },
    {
        let n = self.sections.len();
        let mut i: usize = 0;
        while i < n
            invariant
                n == self.sections.len(),
                i <= n,
                forall|j: int| 0 <= j < i ==> self@[j].0 != name@,
            decreases n - i,
        {
            if str_eq(self.sections[i].0.as_str(), name) {
                proof {
                    lemma_lookup_skip(self@, name@, i as int);
                    assert(self@.skip(i as int)[0] == self@[i as int]);
                }
                return Some(&self.sections[i].1);
            }
            i += 1;
        }
        proof {
            lemma_lookup_skip(self@, name@, n as int);
            assert(self@.skip(n as int) =~= Seq::<(Seq<char>, Seq<(Seq<char>, RawValueV)>)>::empty());
        }
        None
    }
}

} // verus!
