//! An order-preserving generic JSON tree.
//!
//! Objects are sequences of key/value pairs, so a tree can carry duplicate
//! keys and keeps the order in which fields appeared in the document; the
//! decoder is responsible for rejecting duplicates where they matter.

use vstd::prelude::*;

verus! {

/// A JSON value in tokenized form. Numbers are restricted to integers,
/// which is all the decoded schema uses.
#[derive(Debug, PartialEq)]
pub enum Json {
    Null,
    Bool(bool),
    Int(i64),
    Str(String),
    Arr(Vec<Json>),
    Obj(Vec<(String, Json)>),
}

/// The mathematical model of a [`Json`] tree.
#[verifier::ext_equal]
pub enum JsonV {
    Null,
    Bool(bool),
    Int(int),
    Str(Seq<char>),
    Arr(Seq<JsonV>),
    Obj(Seq<(Seq<char>, JsonV)>),
}

pub open spec fn json_view(j: Json) -> JsonV
    decreases j,
{
    match j {
        Json::Null => JsonV::Null,
        Json::Bool(b) => JsonV::Bool(b),
        Json::Int(i) => JsonV::Int(i as int),
        Json::Str(s) => JsonV::Str(s@),
        Json::Arr(a) => {
            proof {
                assert(decreases_to!(a => a@));
            }
            JsonV::Arr(json_view_seq(a@))
        },
        Json::Obj(o) => {
            proof {
                assert(decreases_to!(o => o@));
            }
            JsonV::Obj(json_view_entries(o@))
        },
    }
}

pub open spec fn json_view_seq(s: Seq<Json>) -> Seq<JsonV>
    decreases s,
{
    if s.len() == 0 {
        Seq::empty()
    } else {
        proof {
            assert(decreases_to!(s => s.subrange(0, s.len() - 1)));
            assert(decreases_to!(s => s[s.len() - 1]));
        }
        json_view_seq(s.drop_last()).push(json_view(s.last()))
    }
}

pub open spec fn json_view_entries(s: Seq<(String, Json)>) -> Seq<(Seq<char>, JsonV)>
    decreases s,
{
    if s.len() == 0 {
        Seq::empty()
    } else {
        proof {
            assert(decreases_to!(s => s.subrange(0, s.len() - 1)));
            assert(decreases_to!(s => s[s.len() - 1]));
            assert(decreases_to!(s[s.len() - 1] => s[s.len() - 1].1));
        }
        json_view_entries(s.drop_last()).push(
            (s.last().0@, json_view(s.last().1)),
        )
    }
}

pub broadcast proof fn lemma_json_view_seq_len(s: Seq<Json>)
    ensures
        (#[trigger] json_view_seq(s)).len() == s.len(),
    decreases s.len(),
{
    if s.len() > 0 {
        lemma_json_view_seq_len(s.drop_last());
    }
}

pub broadcast proof fn lemma_json_view_seq_index(s: Seq<Json>, i: int)
    requires
        0 <= i < s.len(),
    ensures
        #[trigger] json_view_seq(s)[i] == json_view(s[i]),
    decreases s.len(),
{
    lemma_json_view_seq_len(s);
    if i < s.len() - 1 {
        lemma_json_view_seq_index(s.drop_last(), i);
        lemma_json_view_seq_len(s.drop_last());
    }
}

pub broadcast proof fn lemma_json_view_entries_len(s: Seq<(String, Json)>)
    ensures
        (#[trigger] json_view_entries(s)).len() == s.len(),
    decreases s.len(),
{
    if s.len() > 0 {
        lemma_json_view_entries_len(s.drop_last());
    }
}

pub broadcast proof fn lemma_json_view_entries_index(s: Seq<(String, Json)>, i: int)
    requires
        0 <= i < s.len(),
    ensures
        #[trigger] json_view_entries(s)[i] == (s[i].0@, json_view(s[i].1)),
    decreases s.len(),
{
    lemma_json_view_entries_len(s);
    if i < s.len() - 1 {
        lemma_json_view_entries_index(s.drop_last(), i);
        lemma_json_view_entries_len(s.drop_last());
    }
}

pub broadcast group group_json_view {
    lemma_json_view_seq_len,
    lemma_json_view_seq_index,
    lemma_json_view_entries_len,
    lemma_json_view_entries_index,
}

impl View for Json {
    type V = JsonV;

    open spec fn view(&self) -> JsonV {
        json_view(*self)
    }
}

/// First value bound to key `k` at or after position `i`.
pub open spec fn lookup_from(es: Seq<(Seq<char>, JsonV)>, i: int, k: Seq<char>) -> Option<JsonV>
    decreases es.len() - i,
{
    if i < 0 || i >= es.len() {
        None
    } else if es[i].0 == k {
        Some(es[i].1)
    } else {
        lookup_from(es, i + 1, k)
    }
}

/// First value bound to key `k` in an object's entry list.
pub open spec fn lookup(es: Seq<(Seq<char>, JsonV)>, k: Seq<char>) -> Option<JsonV> {
    lookup_from(es, 0, k)
}

/// Entry `j` repeats a key that already occurred before it.
pub open spec fn dup_at(es: Seq<(Seq<char>, JsonV)>, j: int) -> bool {
    exists|i: int| 0 <= i < j && es[i].0 == es[j].0
}

pub open spec fn first_dup_from(es: Seq<(Seq<char>, JsonV)>, j: int) -> Option<Seq<char>>
    decreases es.len() - j,
{
    if j < 0 || j >= es.len() {
        None
    } else if dup_at(es, j) {
        Some(es[j].0)
    } else {
        first_dup_from(es, j + 1)
    }
}

/// The first key whose second occurrence is seen while scanning the entry
/// list in order, if any key repeats.
pub open spec fn first_dup(es: Seq<(Seq<char>, JsonV)>) -> Option<Seq<char>> {
    first_dup_from(es, 0)
}

/// Equality of a `String` and a string literal, usable from verified code.
pub fn str_eq_lit(a: &String, b: &str) -> (r: bool)
    ensures
        r == (a@ == b@),
{
    a.eq(&b.to_owned())
}

/// Finds the first entry with key `k` and returns a borrow of its value.
#[verifier::loop_isolation(false)]
pub fn find_key<'a>(es: &'a Vec<(String, Json)>, k: &str) -> (r: Option<&'a Json>)
    ensures
        match r {
            Some(v) => lookup(json_view_entries(es@), k@) == Some(v@),
            None => lookup(json_view_entries(es@), k@) is None,
        },
{
    broadcast use group_json_view;

    let ghost ev = json_view_entries(es@);
    let mut i: usize = 0;
    while i < es.len()
        invariant
            i <= es.len(),
            lookup_from(ev, 0, k@) == lookup_from(ev, i as int, k@),
        decreases es.len() - i,
    {
        let e = &es[i];
        if str_eq_lit(&e.0, k) {
            return Some(&e.1);
        }
        i = i + 1;
    }
    None
}

/// Scans an object's entries for a repeated key, returning the first key
/// that is seen a second time.
#[verifier::loop_isolation(false)]
pub fn first_dup_key(es: &Vec<(String, Json)>) -> (r: Option<String>)
    ensures
        match r {
            Some(s) => first_dup(json_view_entries(es@)) == Some(s@),
            None => first_dup(json_view_entries(es@)) is None,
        },
{
    broadcast use group_json_view;

    let ghost ev = json_view_entries(es@);
    let mut j: usize = 0;
    while j < es.len()
        invariant
            j <= es.len(),
            first_dup_from(ev, 0) == first_dup_from(ev, j as int),
        decreases es.len() - j,
    {
        let mut i: usize = 0;
        while i < j
            invariant
                i <= j,
                forall|ii: int| 0 <= ii < i ==> ev[ii].0 != ev[j as int].0,
            decreases j - i,
        {
            if es[i].0.eq(&es[j].0) {
                assert(ev[i as int].0 == ev[j as int].0);
                assert(dup_at(ev, j as int));
                return Some(es[j].0.clone());
            }
            i = i + 1;
        }
        assert(!dup_at(ev, j as int));
        j = j + 1;
    }
    None
}


/// Skipping a prefix does not change what a from-index lookup sees.
pub proof fn lemma_lookup_skip(es: Seq<(Seq<char>, JsonV)>, i: int, k: Seq<char>)
    requires
        0 <= i <= es.len(),
    ensures
        lookup_from(es, i, k) == lookup(es.skip(i), k),
    decreases es.len() - i,
{
    let t = es.skip(i);
    if i == es.len() {
        assert(t.len() == 0);
    } else {
        assert(t[0] == es[i]);
        if es[i].0 == k {
        } else {
            lemma_lookup_skip(es, i + 1, k);
            assert(es.skip(i + 1) =~= t.skip(1));
            lemma_lookup_skip(t, 1, k);
        }
    }
}

/// Removing an entry whose key is not `k` does not change the lookup of `k`.
pub proof fn lemma_lookup_remove(es: Seq<(Seq<char>, JsonV)>, idx: int, k: Seq<char>)
    requires
        0 <= idx < es.len(),
        es[idx].0 != k,
    ensures
        lookup(es.remove(idx), k) == lookup(es, k),
    decreases idx,
{
    let es2 = es.remove(idx);
    if idx == 0 {
        assert(es2 =~= es.skip(1));
        lemma_lookup_skip(es, 1, k);
    } else {
        assert(es2[0] == es[0]);
        if es[0].0 == k {
        } else {
            let tail = es.skip(1);
            lemma_lookup_remove(tail, idx - 1, k);
            assert(tail[idx - 1] == es[idx]);
            assert(es2.skip(1) =~= tail.remove(idx - 1));
            lemma_lookup_skip(es, 1, k);
            lemma_lookup_skip(es2, 1, k);
        }
    }
}

/// An entry list with no reported duplicate has pairwise distinct keys.
pub proof fn lemma_first_dup_none_pointwise(es: Seq<(Seq<char>, JsonV)>)
    requires
        first_dup(es) is None,
    ensures
        forall|i: int, j: int| 0 <= i < j < es.len() ==> (#[trigger] es[i]).0 != (
        #[trigger] es[j]).0,
{
    lemma_first_dup_from_none(es, 0);
    assert forall|i: int, j: int| 0 <= i < j < es.len() implies (#[trigger] es[i]).0 != (
    #[trigger] es[j]).0 by {
        assert(!dup_at(es, j));
    }
}

proof fn lemma_first_dup_from_none(es: Seq<(Seq<char>, JsonV)>, j: int)
    requires
        0 <= j <= es.len(),
        first_dup_from(es, j) is None,
    ensures
        forall|jj: int| j <= jj < es.len() ==> !dup_at(es, jj),
    decreases es.len() - j,
{
    if j < es.len() {
        lemma_first_dup_from_none(es, j + 1);
    }
}

/// An entry list with pairwise distinct keys reports no duplicate.
pub proof fn lemma_pointwise_first_dup_none(es: Seq<(Seq<char>, JsonV)>)
    requires
        forall|i: int, j: int| 0 <= i < j < es.len() ==> (#[trigger] es[i]).0 != (
        #[trigger] es[j]).0,
    ensures
        first_dup(es) is None,
{
    lemma_pointwise_first_dup_from(es, 0);
}

proof fn lemma_pointwise_first_dup_from(es: Seq<(Seq<char>, JsonV)>, j: int)
    requires
        0 <= j <= es.len(),
        forall|i: int, jj: int| 0 <= i < jj < es.len() ==> (#[trigger] es[i]).0 != (
        #[trigger] es[jj]).0,
    ensures
        first_dup_from(es, j) is None,
    decreases es.len() - j,
{
    if j < es.len() {
        assert(!dup_at(es, j));
        lemma_pointwise_first_dup_from(es, j + 1);
    }
}

/// The first occurrence of a key is the binding a lookup returns.
pub proof fn lemma_lookup_found_at(es: Seq<(Seq<char>, JsonV)>, idx: int)
    requires
        0 <= idx < es.len(),
        forall|i: int| 0 <= i < idx ==> (#[trigger] es[i]).0 != es[idx].0,
    ensures
        lookup(es, es[idx].0) == Some(es[idx].1),
{
    lemma_lookup_upto(es, 0, idx);
}

proof fn lemma_lookup_upto(es: Seq<(Seq<char>, JsonV)>, i: int, idx: int)
    requires
        0 <= i <= idx < es.len(),
        forall|j: int| i <= j < idx ==> (#[trigger] es[j]).0 != es[idx].0,
    ensures
        lookup_from(es, i, es[idx].0) == Some(es[idx].1),
    decreases idx - i,
{
    if i < idx {
        lemma_lookup_upto(es, i + 1, idx);
    }
}

/// A key bound by no entry has no lookup result.
pub proof fn lemma_lookup_absent(es: Seq<(Seq<char>, JsonV)>, k: Seq<char>)
    requires
        forall|i: int| 0 <= i < es.len() ==> (#[trigger] es[i]).0 != k,
    ensures
        lookup(es, k) is None,
{
    lemma_lookup_absent_from(es, 0, k);
}

proof fn lemma_lookup_absent_from(es: Seq<(Seq<char>, JsonV)>, i: int, k: Seq<char>)
    requires
        0 <= i <= es.len(),
        forall|j: int| 0 <= j < es.len() ==> (#[trigger] es[j]).0 != k,
    ensures
        lookup_from(es, i, k) is None,
    decreases es.len() - i,
{
    if i < es.len() {
        lemma_lookup_absent_from(es, i + 1, k);
    }
}

impl Json {
    /// A structural copy of the tree, equal to the original at the spec level.
    #[verifier::loop_isolation(false)]
    pub fn deep_clone(&self) -> (r: Json)
        ensures
            r@ == self@,
        decreases *self,
    {
        broadcast use group_json_view;

        match self {
            Json::Null => Json::Null,
            Json::Bool(b) => Json::Bool(*b),
            Json::Int(i) => Json::Int(*i),
            Json::Str(s) => Json::Str(s.clone()),
            Json::Arr(a) => {
                let mut out: Vec<Json> = Vec::new();
                let mut i: usize = 0;
                while i < a.len()
                    invariant
                        i <= a.len(),
                        out@.len() == i as nat,
                        forall|j: int| 0 <= j < i ==> json_view(out@[j]) == json_view(
                            #[trigger] a@[j],
                        ),
                    decreases a.len() - i,
                {
                    proof {
                        assert(decreases_to!(*self => *a));
                        assert(decreases_to!(*a => a@));
                        assert(decreases_to!(a@ => a@[i as int]));
                        assert(decreases_to!(*self => a@[i as int]));
                    }
                    out.push(a[i].deep_clone());
                    i = i + 1;
                }
                let r = Json::Arr(out);
                proof {
                    assert(json_view_seq(out@) =~= json_view_seq(a@));
                }
                r
            },
            Json::Obj(o) => {
                let mut out: Vec<(String, Json)> = Vec::new();
                let mut i: usize = 0;
                while i < o.len()
                    invariant
                        i <= o.len(),
                        out@.len() == i as nat,
                        forall|j: int| 0 <= j < i ==> out@[j].0@ == (#[trigger] o@[j]).0@
                            && json_view(out@[j].1) == json_view(o@[j].1),
                    decreases o.len() - i,
                {
                    proof {
                        assert(decreases_to!(*self => *o));
                        assert(decreases_to!(*o => o@));
                        assert(decreases_to!(o@ => o@[i as int]));
                        assert(decreases_to!(o@[i as int] => o@[i as int].1));
                        assert(decreases_to!(*self => o@[i as int].1));
                    }
                    let entry = &o[i];
                    out.push((entry.0.clone(), entry.1.deep_clone()));
                    i = i + 1;
                }
                let r = Json::Obj(out);
                proof {
                    assert(json_view_entries(out@) =~= json_view_entries(o@));
                }
                r
            },
        }
    }
}

} // verus!
