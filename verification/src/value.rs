//! The tagged value type that store documents are made of, and the document
//! shaping operations of the builder: null suppression, nested-record
//! flattening into dotted path keys, identifier translation, and the
//! matching relation that filters denote.

use vstd::prelude::*;

use crate::oid::{hex_decode, hex_encode, is_oid_string, ObjectId};

verus! {

/// The mathematical shape of a document value.
#[verifier::ext_equal]
pub enum ValV {
    Null,
    Bool(bool),
    Int(i64),
    Str(Seq<char>),
    Id(Seq<u8>),
    StrList(Seq<Seq<char>>),
    Sub(Seq<(Seq<char>, ValV)>),
}

/// The mathematical shape of a document: its fields in order.
pub type DocV = Seq<(Seq<char>, ValV)>;

/// A document value: null, a scalar, a list of strings, a store-native
/// identifier, or a nested document.
#[derive(Debug)]
pub enum Value {
    Null,
    Bool(bool),
    Int(i64),
    Str(String),
    Id(ObjectId),
    StrList(Vec<String>),
    Sub(Doc),
}

/// A store document: an ordered list of fields. A later field with the same
/// key shadows an earlier one, exactly as repeated inserts would.
#[derive(Debug)]
pub struct Doc {
    pub entries: Vec<(String, Value)>,
}

/// The shape denoted by a document value.
pub open spec fn val_view(v: Value) -> ValV
    decreases v,
{
    match v {
        Value::Null => ValV::Null,
        Value::Bool(b) => ValV::Bool(b),
        Value::Int(n) => ValV::Int(n),
        Value::Str(s) => ValV::Str(s@),
        Value::Id(o) => ValV::Id(o@),
        Value::StrList(l) => ValV::StrList(l@.map_values(|s: String| s@)),
        Value::Sub(d) => ValV::Sub(entries_view(d.entries@)),
    }
}

/// The shape denoted by a field list.
pub open spec fn entries_view(es: Seq<(String, Value)>) -> DocV
    decreases es,
{
    if es.len() == 0 {
        Seq::empty()
    } else {
        entries_view(es.drop_last()).push((es.last().0@, val_view(es.last().1)))
    }
}

impl View for Value {
    type V = ValV;

    open spec fn view(&self) -> ValV {
        val_view(*self)
    }
}

impl View for Doc {
    type V = DocV;

    open spec fn view(&self) -> DocV {
        entries_view(self.entries@)
    }
}

/// A field list denotes one shape entry per field, in order.
pub proof fn lemma_entries_view(es: Seq<(String, Value)>)
    ensures
        entries_view(es).len() == es.len(),
        forall|i: int|
            0 <= i < es.len() ==> entries_view(es)[i] == (es[i].0@, val_view(es[i].1)),
    decreases es,
{
    if es.len() > 0 {
        lemma_entries_view(es.drop_last());
    }
}

/// The value of key `k` in `d`: the value of the last field named `k`, since
/// a later insert shadows an earlier one.
pub open spec fn lookup(d: DocV, k: Seq<char>) -> Option<ValV>
    decreases d,
{
    if d.len() == 0 {
        None
    } else if d.last().0 == k {
        Some(d.last().1)
    } else {
        lookup(d.drop_last(), k)
    }
}

/// The flattened form of `d` under `pfx` (the dotted path of the enclosing
/// fields, empty at top level): nested documents are descended into and
/// their leaf keys reattached under dot-joined paths, null fields are
/// dropped entirely, and every other value is kept as a leaf. A nested
/// document that is empty (or becomes empty once its nulls are dropped)
/// contributes no keys at all.
pub open spec fn flatten_with(d: DocV, pfx: Seq<char>) -> DocV
    decreases d,
{
    if d.len() == 0 {
        Seq::empty()
    } else {
        flatten_with(d.drop_last(), pfx) + flatten_entry(d.last().0, d.last().1, pfx)
    }
}

/// The flattened fields contributed by the single field `(k, v)` under `pfx`.
pub open spec fn flatten_entry(k: Seq<char>, v: ValV, pfx: Seq<char>) -> DocV
    decreases v,
{
    match v {
        ValV::Sub(inner) => flatten_with(inner, pfx + k + "."@),
        ValV::Null => Seq::empty(),
        _ => seq![(pfx + k, v)],
    }
}

/// The flattened form of a whole document.
pub open spec fn flat(d: DocV) -> DocV {
    flatten_with(d, Seq::empty())
}

/// Identifier translation of a filter: a field named `id` whose value is a
/// well-formed identifier string becomes the store-native field `_id` with
/// the decoded identifier bytes; a field named `id` whose value does not
/// parse is left untouched (and will then match nothing that the store
/// assigned), and every other field is kept as it is.
pub open spec fn convert_entry(e: (Seq<char>, ValV)) -> (Seq<char>, ValV) {
    if e.0 == "id"@ && (e.1 matches ValV::Str(s) && is_oid_string(s)) {
        ("_id"@, ValV::Id(hex_decode(e.1->Str_0)))
    } else {
        e
    }
}

/// Identifier translation applied to every field of a filter document.
pub open spec fn convert_ids(d: DocV) -> DocV {
    d.map_values(|e: (Seq<char>, ValV)| convert_entry(e))
}

/// Result translation: the store-native `_id` field of a fetched document
/// becomes the caller-facing `id` field holding the hexadecimal string form;
/// every other field is kept as it is.
pub open spec fn translate_entry(e: (Seq<char>, ValV)) -> (Seq<char>, ValV) {
    if e.0 == "_id"@ && e.1 matches ValV::Id(b) {
        ("id"@, ValV::Str(hex_encode(e.1->Id_0)))
    } else {
        e
    }
}

/// Result translation applied to every field of a fetched document.
pub open spec fn translate_ids(d: DocV) -> DocV {
    d.map_values(|e: (Seq<char>, ValV)| translate_entry(e))
}

/// Whether document `doc` satisfies filter `f`: every filter field must be
/// present, at its dotted path, in the flattened form of the document, with
/// an equal value. An empty filter matches every document.
pub open spec fn satisfies(f: DocV, doc: DocV) -> bool {
    forall|i: int| 0 <= i < f.len() ==> lookup(flat(doc), f[i].0) == Some(f[i].1)
}

impl Doc {
    /// The empty document.
    pub fn new() -> (r: Doc)
        ensures
            r@ == Seq::<(Seq<char>, ValV)>::empty(),
    {
        Doc { entries: Vec::new() }
    }

    pub fn len(&self) -> (r: usize)
        ensures
            r == self@.len(),
    {
        proof {
            lemma_entries_view(self.entries@);
        }
        self.entries.len()
    }

    /// Appends a field. A key inserted twice denotes its latest value.
    pub fn insert(&mut self, key: String, value: Value)
        ensures
            final(self)@ == old(self)@.push((key@, value@)),
    {
        proof {
            lemma_entries_view(old(self).entries@);
        }
        self.entries.push((key, value));
        proof {
            assert(self.entries@.drop_last() == old(self).entries@);
        }
    }

    /// Appends every field of `other`, so that each of them shadows any
    /// earlier field of the same name: the "set these fields" semantics of
    /// an update.
    pub fn extend_with(&mut self, other: &Doc)
        ensures
            final(self)@ == old(self)@ + other@,
    {
        proof {
            lemma_entries_view(other.entries@);
            assert(other@.take(0) =~= Seq::<(Seq<char>, ValV)>::empty());
            assert(self@ =~= self@ + other@.take(0));
        }
        let n = other.entries.len();
        let mut i: usize = 0;
        while i < n
            invariant
                0 <= i <= n,
                n == other.entries@.len(),
                other@ == entries_view(other.entries@),
                other@.len() == n,
                forall|j: int|
                    0 <= j < n ==> other@[j] == (
                        other.entries@[j].0@,
                        val_view(other.entries@[j].1),
                    ),
                self@ == old(self)@ + other@.take(i as int),
            decreases n - i,
        {
            proof {
                assert(other@.take(i as int + 1).drop_last() =~= other@.take(i as int));
                assert(other@.take(i as int + 1).last() == other@[i as int]);
            }
            self.insert(other.entries[i].0.clone(), clone_value(&other.entries[i].1));
            proof {
                assert(self@ =~= old(self)@ + other@.take(i as int + 1));
            }
            i = i + 1;
        }
        proof {
            assert(other@.take(n as int) =~= other@);
        }
    }

    /// The value of `key`, if the document has that field.
    pub fn get(&self, key: &String) -> (r: Option<&Value>)
        ensures
            match r {
                Some(v) => lookup(self@, key@) == Some(v@),
                None => lookup(self@, key@) is None,
            },
    {
        proof {
            lemma_entries_view(self.entries@);
        }
        let mut i: usize = self.entries.len();
        proof {
            assert(self.entries@.take(i as int) =~= self.entries@);
        }
        while i > 0
            invariant
                0 <= i <= self.entries@.len(),
                self@ == entries_view(self.entries@),
                lookup(self@, key@) == lookup(entries_view(self.entries@.take(i as int)), key@),
            decreases i,
        {
            proof {
                lemma_entries_view(self.entries@.take(i as int));
                lemma_entries_view(self.entries@.take(i as int - 1));
                assert(self.entries@.take(i as int).drop_last() =~= self.entries@.take(
                    i as int - 1,
                ));
                assert(self.entries@.take(i as int).last() == self.entries@[i as int - 1]);
                assert(entries_view(self.entries@.take(i as int)) == entries_view(
                    self.entries@.take(i as int - 1),
                ).push(
                    (self.entries@[i as int - 1].0@, val_view(self.entries@[i as int - 1].1)),
                ));
                assert(entries_view(self.entries@.take(i as int)).drop_last() =~= entries_view(
                    self.entries@.take(i as int - 1),
                ));
                assert(entries_view(self.entries@.take(i as int)).last() == (
                    self.entries@[i as int - 1].0@,
                    val_view(self.entries@[i as int - 1].1),
                ));
            }
            if string_eq(&self.entries[i - 1].0, key) {
                return Some(&self.entries[i - 1].1);
            }
            i = i - 1;
        }
        proof {
            assert(self.entries@.take(0) =~= Seq::<(String, Value)>::empty());
        }
        None
    }
}

/// Deep equality of strings.
pub fn string_eq(a: &String, b: &String) -> (r: bool)
    ensures
        r == (a@ == b@),
{
    *a == *b
}

/// Deep copy of a value.
pub fn clone_value(v: &Value) -> (r: Value)
    ensures
        r@ == v@,
    decreases v,
{
    match v {
        Value::Null => Value::Null,
        Value::Bool(b) => Value::Bool(*b),
        Value::Int(n) => Value::Int(*n),
        Value::Str(s) => Value::Str(s.clone()),
        Value::Id(o) => Value::Id(o.duplicate()),
        Value::StrList(l) => Value::StrList(clone_str_list(l)),
        Value::Sub(d) => Value::Sub(clone_doc(d)),
    }
}

/// Deep copy of a string list.
fn clone_str_list(l: &Vec<String>) -> (r: Vec<String>)
    ensures
        r@.map_values(|s: String| s@) == l@.map_values(|s: String| s@),
{
    let mut out: Vec<String> = Vec::new();
    let n = l.len();
    let mut i: usize = 0;
    while i < n
        invariant
            0 <= i <= n,
            n == l@.len(),
            out@.len() == i,
            forall|j: int| 0 <= j < i ==> out@[j]@ == l@[j]@,
        decreases n - i,
    {
        out.push(l[i].clone());
        i = i + 1;
    }
    proof {
        assert(out@.map_values(|s: String| s@) =~= l@.map_values(|s: String| s@));
    }
    out
}

/// Deep copy of a document.
pub fn clone_doc(d: &Doc) -> (r: Doc)
    ensures
        r@ == d@,
    decreases d,
{
    let mut out = Doc::new();
    let n = d.entries.len();
    let mut i: usize = 0;
    proof {
        lemma_entries_view(d.entries@);
    }
    while i < n
        invariant
            0 <= i <= n,
            n == d.entries@.len(),
            d@ == entries_view(d.entries@),
            entries_view(d.entries@).len() == n,
            forall|j: int|
                0 <= j < n ==> entries_view(d.entries@)[j] == (
                    d.entries@[j].0@,
                    val_view(d.entries@[j].1),
                ),
            out@.len() == i,
            forall|j: int| 0 <= j < i ==> out@[j] == d@[j],
        decreases n - i,
    {
        let key = d.entries[i].0.clone();
        let value = clone_value(&d.entries[i].1);
        out.insert(key, value);
        i = i + 1;
    }
    proof {
        assert(out@ =~= d@);
    }
    out
}

/// Deep equality of values.
pub fn value_eq(a: &Value, b: &Value) -> (r: bool)
    ensures
        r == (a@ == b@),
    decreases a,
{
    match (a, b) {
        (Value::Null, Value::Null) => true,
        (Value::Bool(x), Value::Bool(y)) => x == y,
        (Value::Int(x), Value::Int(y)) => x == y,
        (Value::Str(x), Value::Str(y)) => string_eq(x, y),
        (Value::Id(x), Value::Id(y)) => x.eq_bytes(y),
        (Value::StrList(x), Value::StrList(y)) => str_list_eq(x, y),
        (Value::Sub(x), Value::Sub(y)) => doc_eq(x, y),
        _ => {
            proof {
                assert(a@ != b@);
            }
            false
        },
    }
}

/// Deep equality of string lists.
fn str_list_eq(a: &Vec<String>, b: &Vec<String>) -> (r: bool)
    ensures
        r == (a@.map_values(|s: String| s@) == b@.map_values(|s: String| s@)),
{
    let ghost av = a@.map_values(|s: String| s@);
    let ghost bv = b@.map_values(|s: String| s@);
    if a.len() != b.len() {
        proof {
            assert(av.len() != bv.len());
        }
        return false;
    }
    let n = a.len();
    let mut i: usize = 0;
    while i < n
        invariant
            0 <= i <= n,
            n == a@.len() == b@.len(),
            av == a@.map_values(|s: String| s@),
            bv == b@.map_values(|s: String| s@),
            forall|j: int| 0 <= j < i ==> av[j] == bv[j],
        decreases n - i,
    {
        if !string_eq(&a[i], &b[i]) {
            proof {
                assert(av[i as int] != bv[i as int]);
            }
            return false;
        }
        i = i + 1;
    }
    proof {
        assert(av =~= bv);
    }
    true
}

/// Deep equality of documents.
pub fn doc_eq(a: &Doc, b: &Doc) -> (r: bool)
    ensures
        r == (a@ == b@),
    decreases a,
{
    proof {
        lemma_entries_view(a.entries@);
        lemma_entries_view(b.entries@);
    }
    if a.entries.len() != b.entries.len() {
        return false;
    }
    let n = a.entries.len();
    let mut i: usize = 0;
    while i < n
        invariant
            0 <= i <= n,
            n == a.entries@.len() == b.entries@.len(),
            a@ == entries_view(a.entries@),
            b@ == entries_view(b.entries@),
            a@.len() == n,
            b@.len() == n,
            forall|j: int|
                0 <= j < n ==> a@[j] == (a.entries@[j].0@, val_view(a.entries@[j].1)),
            forall|j: int|
                0 <= j < n ==> b@[j] == (b.entries@[j].0@, val_view(b.entries@[j].1)),
            forall|j: int| 0 <= j < i ==> a@[j] == b@[j],
        decreases n - i,
    {
        if !string_eq(&a.entries[i].0, &b.entries[i].0) {
            proof {
                assert(a@[i as int].0 != b@[i as int].0);
                assert(a@ != b@);
            }
            return false;
        }
        if !value_eq(&a.entries[i].1, &b.entries[i].1) {
            proof {
                assert(a@[i as int].1 != b@[i as int].1);
                assert(a@ != b@);
            }
            return false;
        }
        i = i + 1;
    }
    proof {
        assert(a@ =~= b@);
    }
    true
}

/// Looking a key up right after a field was appended finds that field when
/// the keys agree, and is otherwise undisturbed.
pub broadcast proof fn lemma_lookup_push(d: DocV, k: Seq<char>, v: ValV, k2: Seq<char>)
    ensures
        #[trigger] lookup(d.push((k, v)), k2) == if k == k2 {
            Some(v)
        } else {
            lookup(d, k2)
        },
{
    assert(d.push((k, v)).drop_last() =~= d);
}

/// The shape of an optional string attribute.
pub open spec fn opt_view(o: Option<String>) -> Option<Seq<char>> {
    match o {
        Some(s) => Some(s@),
        None => None,
    }
}

/// The shape of an optional string-list attribute.
pub open spec fn opt_list_view(o: Option<Vec<String>>) -> Option<Seq<Seq<char>>> {
    match o {
        Some(l) => Some(l@.map_values(|s: String| s@)),
        None => None,
    }
}

/// Whether an absent-or-string field is well-typed.
pub open spec fn str_field_ok(o: Option<ValV>) -> bool {
    match o {
        None => true,
        Some(v) => v is Str,
    }
}

/// The string an absent-or-string field holds, if any.
pub open spec fn str_field(o: Option<ValV>) -> Option<Seq<char>> {
    match o {
        Some(ValV::Str(s)) => Some(s),
        _ => None,
    }
}

/// Whether an absent-or-boolean field is well-typed.
pub open spec fn bool_field_ok(o: Option<ValV>) -> bool {
    match o {
        None => true,
        Some(v) => v is Bool,
    }
}

/// The boolean an absent-or-boolean field holds, if any.
pub open spec fn bool_field(o: Option<ValV>) -> Option<bool> {
    match o {
        Some(ValV::Bool(b)) => Some(b),
        _ => None,
    }
}

/// Whether an absent-or-integer field is well-typed and fits a `u32`.
pub open spec fn u32_field_ok(o: Option<ValV>) -> bool {
    match o {
        None => true,
        Some(v) => v matches ValV::Int(n) && 0 <= n <= u32::MAX,
    }
}

/// The `u32` an absent-or-integer field holds, if any.
pub open spec fn u32_field(o: Option<ValV>) -> Option<u32> {
    match o {
        Some(ValV::Int(n)) => if 0 <= n <= u32::MAX {
            Some(n as u32)
        } else {
            None
        },
        _ => None,
    }
}

/// Whether an absent-or-string-list field is well-typed.
pub open spec fn list_field_ok(o: Option<ValV>) -> bool {
    match o {
        None => true,
        Some(v) => v is StrList,
    }
}

/// The string list an absent-or-string-list field holds, if any.
pub open spec fn list_field(o: Option<ValV>) -> Option<Seq<Seq<char>>> {
    match o {
        Some(ValV::StrList(l)) => Some(l),
        _ => None,
    }
}

/// Whether an absent-or-integer field is well-typed.
pub open spec fn int_field_ok(o: Option<ValV>) -> bool {
    match o {
        None => true,
        Some(v) => v is Int,
    }
}

/// The integer an absent-or-integer field holds, if any.
pub open spec fn int_field(o: Option<ValV>) -> Option<i64> {
    match o {
        Some(ValV::Int(n)) => Some(n),
        _ => None,
    }
}

/// Whether an absent-or-nested-document field is well-typed.
pub open spec fn sub_field_ok(o: Option<ValV>) -> bool {
    match o {
        None => true,
        Some(v) => v is Sub,
    }
}

/// The nested document an absent-or-nested-document field holds, if any.
pub open spec fn sub_field(o: Option<ValV>) -> Option<DocV> {
    match o {
        Some(ValV::Sub(d)) => Some(d),
        _ => None,
    }
}

/// Reads an optional integer attribute: the outer `None` reports a
/// wrongly-typed field.
pub fn read_int_field(d: &Doc, key: &String) -> (r: Option<Option<i64>>)
    ensures
        match r {
            Some(o) => int_field_ok(lookup(d@, key@)) && o == int_field(lookup(d@, key@)),
            None => !int_field_ok(lookup(d@, key@)),
        },
{
    match d.get(key) {
        None => Some(None),
        Some(Value::Int(n)) => Some(Some(*n)),
        Some(_) => None,
    }
}

/// Reads an optional nested-document attribute: the outer `None` reports a
/// wrongly-typed field.
pub fn read_sub_field<'a>(d: &'a Doc, key: &String) -> (r: Option<Option<&'a Doc>>)
    ensures
        match r {
            Some(o) => sub_field_ok(lookup(d@, key@)) && (match o {
                Some(x) => sub_field(lookup(d@, key@)) == Some(x@),
                None => sub_field(lookup(d@, key@)) is None,
            }),
            None => !sub_field_ok(lookup(d@, key@)),
        },
{
    match d.get(key) {
        None => Some(None),
        Some(Value::Sub(inner)) => Some(Some(inner)),
        Some(_) => None,
    }
}

/// Reads an optional string attribute: the outer `None` reports a
/// wrongly-typed field.
pub fn read_str_field(d: &Doc, key: &String) -> (r: Option<Option<String>>)
    ensures
        match r {
            Some(o) => str_field_ok(lookup(d@, key@)) && opt_view(o) == str_field(
                lookup(d@, key@),
            ),
            None => !str_field_ok(lookup(d@, key@)),
        },
{
    match d.get(key) {
        None => Some(None),
        Some(Value::Str(s)) => Some(Some(s.clone())),
        Some(_) => None,
    }
}

/// Reads an optional boolean attribute: the outer `None` reports a
/// wrongly-typed field.
pub fn read_bool_field(d: &Doc, key: &String) -> (r: Option<Option<bool>>)
    ensures
        match r {
            Some(o) => bool_field_ok(lookup(d@, key@)) && o == bool_field(lookup(d@, key@)),
            None => !bool_field_ok(lookup(d@, key@)),
        },
{
    match d.get(key) {
        None => Some(None),
        Some(Value::Bool(b)) => Some(Some(*b)),
        Some(_) => None,
    }
}

/// Reads an optional `u32` attribute: the outer `None` reports a
/// wrongly-typed or out-of-range field.
pub fn read_u32_field(d: &Doc, key: &String) -> (r: Option<Option<u32>>)
    ensures
        match r {
            Some(o) => u32_field_ok(lookup(d@, key@)) && o == u32_field(lookup(d@, key@)),
            None => !u32_field_ok(lookup(d@, key@)),
        },
{
    match d.get(key) {
        None => Some(None),
        Some(Value::Int(n)) => {
            let n = *n;
            if 0 <= n && n <= u32::MAX as i64 {
                Some(Some(n as u32))
            } else {
                None
            }
        },
        Some(_) => None,
    }
}

/// Reads an optional string-list attribute: the outer `None` reports a
/// wrongly-typed field.
pub fn read_list_field(d: &Doc, key: &String) -> (r: Option<Option<Vec<String>>>)
    ensures
        match r {
            Some(o) => list_field_ok(lookup(d@, key@)) && opt_list_view(o) == list_field(
                lookup(d@, key@),
            ),
            None => !list_field_ok(lookup(d@, key@)),
        },
{
    match d.get(key) {
        None => Some(None),
        Some(Value::StrList(l)) => Some(Some(clone_str_list(l))),
        Some(_) => None,
    }
}

/// Looking a key up in a concatenation prefers the later part, exactly as
/// shadowing does.
pub proof fn lemma_lookup_concat(a: DocV, b: DocV, k: Seq<char>)
    ensures
        lookup(a + b, k) == if lookup(b, k) is Some {
            lookup(b, k)
        } else {
            lookup(a, k)
        },
    decreases b.len(),
{
    if b.len() == 0 {
        assert(a + b =~= a);
    } else {
        assert((a + b).drop_last() =~= a + b.drop_last());
        assert((a + b).last() == b.last());
        lemma_lookup_concat(a, b.drop_last(), k);
    }
}

/// A key carried by no field of `d` looks up to nothing.
pub proof fn lemma_lookup_absent(d: DocV, k: Seq<char>)
    requires
        forall|i: int| 0 <= i < d.len() ==> (#[trigger] d[i]).0 != k,
    ensures
        lookup(d, k) is None,
    decreases d.len(),
{
    if d.len() > 0 {
        lemma_lookup_absent(d.drop_last(), k);
    }
}

/// Whether a key contains no path separator.
pub open spec fn dot_free(k: Seq<char>) -> bool {
    forall|i: int| 0 <= i < k.len() ==> k[i] != '.'
}

/// Whether `key` starts with `pfx`.
pub open spec fn key_extends(key: Seq<char>, pfx: Seq<char>) -> bool {
    key.len() >= pfx.len() && key.subrange(0, pfx.len() as int) == pfx
}

/// Every key of a flattened document starts with the prefix it was
/// flattened under.
pub proof fn lemma_flatten_prefix(d: DocV, pfx: Seq<char>)
    ensures
        forall|j: int|
            0 <= j < flatten_with(d, pfx).len() ==> key_extends(
                (#[trigger] flatten_with(d, pfx)[j]).0,
                pfx,
            ),
    decreases d,
{
    if d.len() > 0 {
        lemma_flatten_prefix(d.drop_last(), pfx);
        let fe = flatten_entry(d.last().0, d.last().1, pfx);
        assert forall|j: int| 0 <= j < fe.len() implies key_extends((#[trigger] fe[j]).0, pfx) by {
            match d.last().1 {
                ValV::Sub(inner) => {
                    let pfx2 = pfx + d.last().0 + "."@;
                    lemma_flatten_prefix(inner, pfx2);
                    assert(fe == flatten_with(inner, pfx2));
                    assert(key_extends(flatten_with(inner, pfx2)[j].0, pfx2));
                    assert(key_extends(fe[j].0, pfx2));
                    assert(fe[j].0.subrange(0, pfx.len() as int) =~= pfx);
                },
                ValV::Null => {},
                _ => {
                    assert(fe[j].0 == pfx + d.last().0);
                    assert((pfx + d.last().0).subrange(0, pfx.len() as int) =~= pfx);
                },
            }
        }
        assert forall|j: int|
            0 <= j < flatten_with(d, pfx).len() implies key_extends(
            (#[trigger] flatten_with(d, pfx)[j]).0,
            pfx,
        ) by {
            if j < flatten_with(d.drop_last(), pfx).len() {
                assert(flatten_with(d, pfx)[j] == flatten_with(d.drop_last(), pfx)[j]);
            } else {
                assert(flatten_with(d, pfx)[j] == fe[j - flatten_with(d.drop_last(), pfx).len()]);
            }
        }
    }
}

/// A dot-free key looks up the same in the flattened form of a document as
/// in the document itself, whenever it denotes a leaf (or nothing): the
/// flattened keys nested records contribute all carry a dot, so they can
/// never capture it.
pub proof fn lemma_lookup_flatten(d: DocV, pfx: Seq<char>, k: Seq<char>)
    requires
        dot_free(k),
    ensures
        lookup(d, k) is None ==> lookup(flatten_with(d, pfx), pfx + k) is None,
        (lookup(d, k) matches Some(v) && !(v is Sub) && !(v is Null)) ==> lookup(
            flatten_with(d, pfx),
            pfx + k,
        ) == lookup(d, k),
    decreases d,
{
    reveal_strlit(".");
    if d.len() > 0 {
        lemma_lookup_flatten(d.drop_last(), pfx, k);
        let front = flatten_with(d.drop_last(), pfx);
        let fe = flatten_entry(d.last().0, d.last().1, pfx);
        lemma_lookup_concat(front, fe, pfx + k);
        match d.last().1 {
            ValV::Sub(inner) => {
                let pfx2 = pfx + d.last().0 + "."@;
                lemma_flatten_prefix(inner, pfx2);
                assert(fe == flatten_with(inner, pfx2));
                assert forall|i: int| 0 <= i < fe.len() implies (#[trigger] fe[i]).0 != pfx + k by {
                    let kk = fe[i].0;
                    assert(key_extends(flatten_with(inner, pfx2)[i].0, pfx2));
                    assert(key_extends(kk, pfx2));
                    let dotpos = pfx.len() + d.last().0.len();
                    assert(pfx2[dotpos as int] == "."@[0]);
                    assert(kk[dotpos as int] == kk.subrange(0, pfx2.len() as int)[dotpos as int]);
                    assert(kk[dotpos as int] == '.');
                    if kk == pfx + k {
                        assert(kk.len() == pfx.len() + k.len());
                        assert(k.len() > d.last().0.len());
                        assert(kk[dotpos as int] == k[dotpos - pfx.len()]);
                        assert(k[dotpos - pfx.len()] != '.');
                        assert(false);
                    }
                }
                lemma_lookup_absent(fe, pfx + k);
            },
            ValV::Null => {},
            _ => {
                if d.last().0 == k {
                    assert(fe.drop_last() =~= Seq::<(Seq<char>, ValV)>::empty());
                    assert(lookup(fe, pfx + k) == Some(d.last().1));
                } else {
                    assert forall|i: int|
                        0 <= i < fe.len() implies (#[trigger] fe[i]).0 != pfx + k by {
                        if fe[i].0 == pfx + k {
                            assert(fe[i].0 == pfx + d.last().0);
                            assert(pfx + d.last().0 == pfx + k);
                            assert(d.last().0.len() == k.len());
                            assert forall|x: int|
                                0 <= x < k.len() implies d.last().0[x] == k[x] by {
                                assert((pfx + d.last().0)[pfx.len() + x] == (pfx + k)[pfx.len()
                                    + x]);
                            }
                            assert(d.last().0 =~= k);
                        }
                    }
                    lemma_lookup_absent(fe, pfx + k);
                }
            },
        }
    }
}

/// The top-level form of the flattening law: a dot-free key that denotes a
/// leaf (or nothing) in a document looks up the same in its flattened form.
pub proof fn lemma_lookup_flat(d: DocV, k: Seq<char>)
    requires
        dot_free(k),
    ensures
        lookup(d, k) is None ==> lookup(flat(d), k) is None,
        (lookup(d, k) matches Some(v) && !(v is Sub) && !(v is Null)) ==> lookup(flat(d), k)
            == lookup(d, k),
{
    lemma_lookup_flatten(d, Seq::empty(), k);
    assert(Seq::empty() + k =~= k);
}

/// Appending a field extends the flattened form by that field's
/// contribution.
pub proof fn lemma_flatten_push(d: DocV, k: Seq<char>, v: ValV, pfx: Seq<char>)
    ensures
        flatten_with(d.push((k, v)), pfx) == flatten_with(d, pfx) + flatten_entry(k, v, pfx),
{
    assert(d.push((k, v)).drop_last() =~= d);
    assert(d.push((k, v)).last() == (k, v));
}

/// Flattens `d` under the dotted prefix `pfx`, appending the result to
/// `out`: nested documents descend with their key joined to the path by a
/// dot, null fields are dropped, other values become leaves.
fn flatten_into(d: &Doc, pfx: &String, out: &mut Doc)
    ensures
        final(out)@ == old(out)@ + flatten_with(d@, pfx@),
    decreases d,
{
    proof {
        lemma_entries_view(d.entries@);
    }
    let n = d.entries.len();
    let mut i: usize = 0;
    proof {
        assert(d@.take(0) =~= Seq::<(Seq<char>, ValV)>::empty());
        assert(out@ =~= out@ + flatten_with(d@.take(0), pfx@));
    }
    while i < n
        invariant
            0 <= i <= n,
            n == d.entries@.len(),
            d@ == entries_view(d.entries@),
            d@.len() == n,
            forall|j: int|
                0 <= j < n ==> d@[j] == (d.entries@[j].0@, val_view(d.entries@[j].1)),
            out@ == old(out)@ + flatten_with(d@.take(i as int), pfx@),
        decreases n - i,
    {
        proof {
            assert(d@.take(i as int + 1).drop_last() =~= d@.take(i as int));
            assert(d@.take(i as int + 1).last() == d@[i as int]);
        }
        let key: &String = &d.entries[i].0;
        let value: &Value = &d.entries[i].1;
        match value {
            Value::Sub(inner) => {
                let deeper: String = pfx.clone().concat(key.as_str()).concat(".");
                proof {
                    assert(decreases_to!(d => inner));
                }
                flatten_into(inner, &deeper, out);
                proof {
                    assert(d@[i as int].0 == d.entries@[i as int].0@);
                    assert(d@[i as int].1 == val_view(d.entries@[i as int].1));
                    assert(d@[i as int].1 == ValV::Sub(inner@));
                    assert(deeper@ == pfx@ + d@[i as int].0 + "."@);
                    assert(flatten_entry(d@[i as int].0, d@[i as int].1, pfx@) == flatten_with(
                        inner@,
                        pfx@ + d@[i as int].0 + "."@,
                    ));
                    assert(flatten_with(d@.take(i as int + 1), pfx@) =~= flatten_with(
                        d@.take(i as int),
                        pfx@,
                    ) + flatten_entry(d@[i as int].0, d@[i as int].1, pfx@));
                    assert(out@ =~= old(out)@ + flatten_with(d@.take(i as int + 1), pfx@));
                }
            },
            Value::Null => {
                proof {
                    assert(d@[i as int].1 == val_view(d.entries@[i as int].1));
                    assert(d@[i as int].1 is Null);
                    assert(flatten_with(d@.take(i as int + 1), pfx@) =~= flatten_with(
                        d@.take(i as int),
                        pfx@,
                    ));
                    assert(out@ =~= old(out)@ + flatten_with(d@.take(i as int + 1), pfx@));
                }
            },
            _ => {
                let new_key: String = pfx.clone().concat(key.as_str());
                out.insert(new_key, clone_value(value));
                proof {
                    assert(d@[i as int].0 == d.entries@[i as int].0@);
                    assert(d@[i as int].1 == val_view(d.entries@[i as int].1));
                    assert(new_key@ == pfx@ + d@[i as int].0);
                    assert(!(d@[i as int].1 is Sub));
                    assert(!(d@[i as int].1 is Null));
                    assert(flatten_entry(d@[i as int].0, d@[i as int].1, pfx@) =~= seq![
                        (pfx@ + d@[i as int].0, d@[i as int].1),
                    ]);
                    assert(flatten_with(d@.take(i as int + 1), pfx@) =~= flatten_with(
                        d@.take(i as int),
                        pfx@,
                    ) + flatten_entry(d@[i as int].0, d@[i as int].1, pfx@));
                    assert(out@ =~= old(out)@ + flatten_with(d@.take(i as int + 1), pfx@));
                }
            },
        }
        i = i + 1;
    }
    proof {
        assert(d@.take(n as int) =~= d@);
    }
}

/// Filter shaping, step one: recursively flatten nested documents into
/// dot-joined path keys and drop every null field.
pub fn make_filter_doc(d: &Doc) -> (r: Doc)
    ensures
        r@ == flat(d@),
{
    let mut out = Doc::new();
    let pfx = String::new();
    flatten_into(d, &pfx, &mut out);
    proof {
        assert(out@ =~= flat(d@));
    }
    out
}

/// Filter shaping, step two: translate a caller-facing `id` field that holds
/// a well-formed identifier string into the store-native `_id` field. A
/// string that does not parse is left as it is.
pub fn convert_filter_ids(d: &Doc) -> (r: Doc)
    ensures
        r@ == convert_ids(d@),
{
    proof {
        lemma_entries_view(d.entries@);
    }
    let id_key = id_field_name();
    let store_key = store_id_field_name();
    let mut out = Doc::new();
    let n = d.entries.len();
    let mut i: usize = 0;
    while i < n
        invariant
            0 <= i <= n,
            n == d.entries@.len(),
            d@ == entries_view(d.entries@),
            d@.len() == n,
            forall|j: int|
                0 <= j < n ==> d@[j] == (d.entries@[j].0@, val_view(d.entries@[j].1)),
            id_key@ == "id"@,
            store_key@ == "_id"@,
            out@.len() == i,
            forall|j: int| 0 <= j < i ==> out@[j] == convert_entry(d@[j]),
        decreases n - i,
    {
        let key: &String = &d.entries[i].0;
        let value: &Value = &d.entries[i].1;
        let mut translated = false;
        if string_eq(key, &id_key) {
            if let Value::Str(s) = value {
                if let Some(o) = ObjectId::parse_str(s) {
                    out.insert(store_key.clone(), Value::Id(o));
                    translated = true;
                }
            }
        }
        if !translated {
            out.insert(key.clone(), clone_value(value));
        }
        i = i + 1;
    }
    proof {
        assert(out@ =~= convert_ids(d@));
    }
    out
}

/// Result translation: the store-native `_id` field (holding identifier
/// bytes) of a fetched document becomes the caller-facing `id` field holding
/// the hexadecimal string form.
pub fn translate_result_ids(d: &Doc) -> (r: Doc)
    ensures
        r@ == translate_ids(d@),
{
    proof {
        lemma_entries_view(d.entries@);
    }
    let id_key = id_field_name();
    let store_key = store_id_field_name();
    let mut out = Doc::new();
    let n = d.entries.len();
    let mut i: usize = 0;
    while i < n
        invariant
            0 <= i <= n,
            n == d.entries@.len(),
            d@ == entries_view(d.entries@),
            d@.len() == n,
            forall|j: int|
                0 <= j < n ==> d@[j] == (d.entries@[j].0@, val_view(d.entries@[j].1)),
            id_key@ == "id"@,
            store_key@ == "_id"@,
            out@.len() == i,
            forall|j: int| 0 <= j < i ==> out@[j] == translate_entry(d@[j]),
        decreases n - i,
    {
        let key: &String = &d.entries[i].0;
        let value: &Value = &d.entries[i].1;
        let mut translated = false;
        if string_eq(key, &store_key) {
            if let Value::Id(o) = value {
                out.insert(id_key.clone(), Value::Str(o.to_hex()));
                translated = true;
            }
        }
        if !translated {
            out.insert(key.clone(), clone_value(value));
        }
        i = i + 1;
    }
    proof {
        assert(out@ =~= translate_ids(d@));
    }
    out
}

/// The caller-facing identifier field name.
pub fn id_field_name() -> (r: String)
    ensures
        r@ == "id"@,
{
    "id".to_owned()
}

/// The store-native identifier field name.
pub fn store_id_field_name() -> (r: String)
    ensures
        r@ == "_id"@,
{
    "_id".to_owned()
}

/// Whether document `doc` satisfies filter `f`, executably.
pub fn doc_matches(f: &Doc, doc: &Doc) -> (r: bool)
    ensures
        r == satisfies(f@, doc@),
{
    proof {
        lemma_entries_view(f.entries@);
    }
    let flattened = make_filter_doc(doc);
    let n = f.entries.len();
    let mut i: usize = 0;
    while i < n
        invariant
            0 <= i <= n,
            n == f.entries@.len(),
            f@ == entries_view(f.entries@),
            f@.len() == n,
            forall|j: int|
                0 <= j < n ==> f@[j] == (f.entries@[j].0@, val_view(f.entries@[j].1)),
            flattened@ == flat(doc@),
            forall|j: int| 0 <= j < i ==> lookup(flat(doc@), f@[j].0) == Some(f@[j].1),
        decreases n - i,
    {
        match flattened.get(&f.entries[i].0) {
            Some(v) => {
                if !value_eq(v, &f.entries[i].1) {
                    proof {
                        assert(f@[i as int].0 == f.entries@[i as int].0@);
                        assert(f@[i as int].1 == val_view(f.entries@[i as int].1));
                        assert(lookup(flat(doc@), f@[i as int].0) != Some(f@[i as int].1));
                        assert(!satisfies(f@, doc@));
                    }
                    return false;
                }
            },
            None => {
                proof {
                    assert(f@[i as int].0 == f.entries@[i as int].0@);
                    assert(lookup(flat(doc@), f@[i as int].0) is None);
                    assert(!satisfies(f@, doc@));
                }
                return false;
            },
        }
        i = i + 1;
    }
    true
}

} // verus!
