use vstd::prelude::*;

use crate::text::str_eq;

verus! {

/// The map that a list of named entries stands for: each name maps to the
/// value of its last entry.
pub open spec fn key_map<V>(e: Seq<(String, V)>) -> Map<Seq<char>, V>
    decreases e.len(),
{
    if e.len() == 0 {
        Map::empty()
    } else {
        key_map(e.drop_last()).insert(e.last().0@, e.last().1)
    }
}

/// No name occurs twice in the list.
pub open spec fn keys_distinct<V>(e: Seq<(String, V)>) -> bool {
    forall|i: int, j: int| 0 <= i < j < e.len() ==> e[i].0@ != e[j].0@
}

/// A name is in the map exactly when some entry carries it.
pub proof fn lemma_key_map_dom<V>(e: Seq<(String, V)>, k: Seq<char>)
    ensures
        key_map(e).contains_key(k) <==> exists|i: int| 0 <= i < e.len() && e[i].0@ == k,
    decreases e.len(),
{
    if e.len() > 0 {
        lemma_key_map_dom(e.drop_last(), k);
        if key_map(e).contains_key(k) && e.last().0@ != k {
            let i = choose|i: int| 0 <= i < e.drop_last().len() && e.drop_last()[i].0@ == k;
            assert(e[i].0@ == k);
        }
        if exists|i: int| 0 <= i < e.len() && e[i].0@ == k {
            let i = choose|i: int| 0 <= i < e.len() && e[i].0@ == k;
            if i < e.len() - 1 {
                assert(e.drop_last()[i].0@ == k);
            }
        }
    }
}

/// With distinct names, the map holds each entry's value under its name.
pub proof fn lemma_key_map_index<V>(e: Seq<(String, V)>, i: int)
    requires
        keys_distinct(e),
        0 <= i < e.len(),
    ensures
        key_map(e).contains_key(e[i].0@),
        key_map(e)[e[i].0@] == e[i].1,
    decreases e.len(),
{
    if i < e.len() - 1 {
        lemma_key_map_index(e.drop_last(), i);
    }
}

/// With distinct names, replacing one entry's value replaces it in the map.
pub proof fn lemma_key_map_update<V>(e: Seq<(String, V)>, i: int, v: V)
    requires
        keys_distinct(e),
        0 <= i < e.len(),
    ensures
        keys_distinct(e.update(i, (e[i].0, v))),
        key_map(e.update(i, (e[i].0, v))) == key_map(e).insert(e[i].0@, v),
    decreases e.len(),
{
    let u = e.update(i, (e[i].0, v));
    if i == e.len() - 1 {
        assert(u.drop_last() =~= e.drop_last());
        assert(key_map(u) == key_map(e.drop_last()).insert(e[i].0@, v));
        assert(key_map(e.drop_last()).insert(e[i].0@, v) =~= key_map(e).insert(e[i].0@, v));
    } else {
        lemma_key_map_update(e.drop_last(), i, v);
        assert(u.drop_last() =~= e.drop_last().update(i, (e[i].0, v)));
        assert(e.last().0@ != e[i].0@);
        assert(key_map(u) =~= key_map(e).insert(e[i].0@, v));
    }
}

/// Applying a function to every value applies it to every value of the map.
pub proof fn lemma_key_map_map_values<V, W>(e: Seq<(String, V)>, f: spec_fn(V) -> W)
    ensures
        key_map(e.map_values(|p: (String, V)| (p.0, f(p.1)))) == key_map(e).map_values(f),
    decreases e.len(),
{
    let m = e.map_values(|p: (String, V)| (p.0, f(p.1)));
    if e.len() > 0 {
        lemma_key_map_map_values(e.drop_last(), f);
        assert(m.drop_last() =~= e.drop_last().map_values(|p: (String, V)| (p.0, f(p.1))));
        assert(key_map(m) =~= key_map(e).map_values(f));
    } else {
        assert(key_map(m) =~= key_map(e).map_values(f));
    }
}

/// The position of the entry with the given name, if there is one.
pub fn find_key<V>(e: &Vec<(String, V)>, k: &str) -> (res: Option<usize>)
    ensures
        res matches Some(i) ==> i < e@.len() && e@[i as int].0@ == k@,
        res is None ==> forall|i: int| 0 <= i < e@.len() ==> e@[i].0@ != k@,
{
    let mut i: usize = 0;
    while i < e.len()
        invariant
            i <= e@.len(),
            forall|j: int| 0 <= j < i ==> e@[j].0@ != k@,
        decreases e@.len() - i,
    {
        if str_eq(e[i].0.as_str(), k) {
            return Some(i);
        }
        i = i + 1;
    }
    None
}

/// The value stored under a name, if any.
pub fn lookup<V: Copy>(e: &Vec<(String, V)>, k: &str) -> (res: Option<V>)
    requires
        keys_distinct(e@),
    ensures
        res == key_map(e@).get(k@),
{
    proof {
        lemma_key_map_dom(e@, k@);
    }
    match find_key(e, k) {
        Some(i) => {
            proof {
                lemma_key_map_index(e@, i as int);
            }
            Some(e[i].1)
        },
        None => None,
    }
}

/// Stores a value under a name, replacing the value already stored there.
pub fn upsert<V: Copy>(e: &mut Vec<(String, V)>, k: &str, v: V)
    requires
        keys_distinct(old(e)@),
    ensures
        keys_distinct(final(e)@),
        key_map(final(e)@) == key_map(old(e)@).insert(k@, v),
{
    proof {
        lemma_key_map_dom(e@, k@);
    }
    match find_key(e, k) {
        Some(i) => {
            let ghost before = e@;
            let entry = &mut e[i];
            entry.1 = v;
            proof {
                assert(e@ =~= before.update(i as int, (before[i as int].0, v)));
                lemma_key_map_update(before, i as int, v);
            }
        },
        None => {
            let ghost before = e@;
            e.push((k.to_string(), v));
            proof {
                assert(e@.drop_last() =~= before);
                assert(e@.last().0@ == k@) by {
                    vstd::string::to_string_from_display_ensures_for_str(k, e@.last().0);
                }
            }
        },
    }
}

/// The characters of each string in a list.
pub open spec fn string_views(v: Seq<String>) -> Seq<Seq<char>> {
    v.map_values(|s: String| s@)
}

/// The position of the first string in a list equal to `k`, if there is one.
pub fn find_name(v: &Vec<String>, k: &str) -> (res: Option<usize>)
    ensures
        res matches Some(i) ==> i < v@.len() && v@[i as int]@ == k@ && forall|j: int| 0 <= j < i ==> v@[j]@ != k@,
        res is None ==> forall|j: int| 0 <= j < v@.len() ==> v@[j]@ != k@,
{
    let mut i: usize = 0;
    while i < v.len()
        invariant
            i <= v@.len(),
            forall|j: int| 0 <= j < i ==> v@[j]@ != k@,
        decreases v@.len() - i,
    {
        if str_eq(v[i].as_str(), k) {
            return Some(i);
        }
        i = i + 1;
    }
    None
}

/// Whether a list of strings holds `k`.
pub fn contains_name(v: &Vec<String>, k: &str) -> (res: bool)
    ensures
        res == string_views(v@).contains(k@),
{
    let r = find_name(v, k);
    proof {
        if r is Some {
            assert(string_views(v@)[r->0 as int] == k@);
        }
    }
    r.is_some()
}

/// A copy of a list of strings.
pub fn clone_strings(v: &Vec<String>) -> (res: Vec<String>)
    ensures
        res@ == v@,
{
    let mut r: Vec<String> = Vec::new();
    let mut i: usize = 0;
    while i < v.len()
        invariant
            i <= v@.len(),
            r@ == v@.take(i as int),
        decreases v@.len() - i,
    {
        r.push(v[i].clone());
        proof {
            assert(v@.take(i + 1) =~= v@.take(i as int).push(v@[i as int]));
        }
        i = i + 1;
    }
    proof {
        assert(v@.take(v@.len() as int) =~= v@);
    }
    r
}

/// A copy of a list of named entries.
pub fn clone_entries<V: Copy>(v: &Vec<(String, V)>) -> (res: Vec<(String, V)>)
    ensures
        res@ == v@,
{
    let mut r: Vec<(String, V)> = Vec::new();
    let mut i: usize = 0;
    while i < v.len()
        invariant
            i <= v@.len(),
            r@ == v@.take(i as int),
        decreases v@.len() - i,
    {
        r.push((v[i].0.clone(), v[i].1));
        proof {
            assert(v@.take(i + 1) =~= v@.take(i as int).push(v@[i as int]));
        }
        i = i + 1;
    }
    proof {
        assert(v@.take(v@.len() as int) =~= v@);
    }
    r
}

} // verus!
