//! JSON values as the library handles them: a document tree whose object members keep
//! their order, and its mathematical view. A number is kept as its JSON text.

use vstd::prelude::*;

verus! {

broadcast use vstd::string::group_string_axioms;

/// A JSON value.
#[derive(Debug, PartialEq, Eq)]
pub enum JsonValue {
    Null,
    Bool(bool),
    Number(String),
    String(String),
    Array(Vec<JsonValue>),
    Object(Vec<JsonMember>),
}

/// One member of a JSON object.
#[derive(Debug, PartialEq, Eq)]
pub struct JsonMember {
    pub key: String,
    pub value: JsonValue,
}

/// The mathematical form of a JSON value.
pub enum JsonView {
    Null,
    Bool(bool),
    Number(Seq<char>),
    String(Seq<char>),
    Array(Seq<JsonView>),
    Object(Seq<(Seq<char>, JsonView)>),
}

/// The view of a value.
pub open spec fn json_view(v: JsonValue) -> JsonView
    decreases v, 0nat,
{
    match v {
        JsonValue::Null => JsonView::Null,
        JsonValue::Bool(b) => JsonView::Bool(b),
        JsonValue::Number(n) => JsonView::Number(n@),
        JsonValue::String(s) => JsonView::String(s@),
        JsonValue::Array(items) => JsonView::Array(items_view(items@)),
        JsonValue::Object(members) => JsonView::Object(members_view(members@)),
    }
}

/// The views of a sequence of values, in order.
pub open spec fn items_view(items: Seq<JsonValue>) -> Seq<JsonView>
    decreases items, items.len(),
{
    if items.len() == 0 {
        Seq::empty()
    } else {
        proof {
            vstd::seq::axiom_seq_index_decreases(items, items.len() - 1);
            vstd::seq::axiom_seq_subrange_decreases(items, 0, items.len() - 1);
        }
        items_view(items.drop_last()).push(json_view(items.last()))
    }
}

/// The views of a sequence of members, in order.
pub open spec fn members_view(members: Seq<JsonMember>) -> Seq<(Seq<char>, JsonView)>
    decreases members, members.len(),
{
    if members.len() == 0 {
        Seq::empty()
    } else {
        proof {
            vstd::seq::axiom_seq_index_decreases(members, members.len() - 1);
            vstd::seq::axiom_seq_subrange_decreases(members, 0, members.len() - 1);
        }
        members_view(members.drop_last()).push((members.last().key@, json_view(members.last().value)))
    }
}

/// The view of a sequence of values is the sequence of their views.
pub proof fn lemma_items_view(items: Seq<JsonValue>)
    ensures
        items_view(items).len() == items.len(),
        forall|i: int| 0 <= i < items.len() ==> #[trigger] items_view(items)[i] == json_view(items[i]),
    decreases items.len(),
{
    if items.len() > 0 {
        lemma_items_view(items.drop_last());
    }
}

/// The view of a sequence of members is the sequence of their keys' and values' views.
pub proof fn lemma_members_view(members: Seq<JsonMember>)
    ensures
        members_view(members).len() == members.len(),
        forall|i: int|
            0 <= i < members.len() ==> #[trigger] members_view(members)[i] == (
                members[i].key@,
                json_view(members[i].value),
            ),
    decreases members.len(),
{
    if members.len() > 0 {
        lemma_members_view(members.drop_last());
    }
}

/// The position of the first member with key `k`.
pub open spec fn first_key(ms: Seq<(Seq<char>, JsonView)>, k: Seq<char>) -> Option<int>
    decreases ms.len(),
{
    if ms.len() == 0 {
        None
    } else if ms[0].0 == k {
        Some(0)
    } else {
        match first_key(ms.drop_first(), k) {
            Some(i) => Some(i + 1),
            None => None,
        }
    }
}

/// The value of the first member with key `k`, as `Map::get` on an object's members.
pub open spec fn lookup(ms: Seq<(Seq<char>, JsonView)>, k: Seq<char>) -> Option<JsonView> {
    match first_key(ms, k) {
        Some(i) => Some(ms[i].1),
        None => None,
    }
}

/// The members after setting key `k` to `v`, as `Map::insert`: the member with that key
/// takes the new value in place, or a new member is added at the end.
pub open spec fn put(ms: Seq<(Seq<char>, JsonView)>, k: Seq<char>, v: JsonView) -> Seq<(Seq<char>, JsonView)> {
    match first_key(ms, k) {
        Some(i) => ms.update(i, (k, v)),
        None => ms.push((k, v)),
    }
}

/// `first_key` finds the first position whose key matches, or none when none does.
pub proof fn lemma_first_key(ms: Seq<(Seq<char>, JsonView)>, k: Seq<char>)
    ensures
        match first_key(ms, k) {
            Some(i) => 0 <= i < ms.len() && ms[i].0 == k && forall|j: int| 0 <= j < i ==> #[trigger] ms[j].0 != k,
            None => forall|j: int| 0 <= j < ms.len() ==> #[trigger] ms[j].0 != k,
        },
    decreases ms.len(),
{
    if ms.len() > 0 {
        lemma_first_key(ms.drop_first(), k);
        if ms[0].0 != k {
            match first_key(ms.drop_first(), k) {
                Some(i) => {
                    assert forall|j: int| 0 <= j < i + 1 implies #[trigger] ms[j].0 != k by {
                        if j > 0 {
                            assert(ms[j] == ms.drop_first()[j - 1]);
                        }
                    }
                },
                None => {
                    assert forall|j: int| 0 <= j < ms.len() implies #[trigger] ms[j].0 != k by {
                        if j > 0 {
                            assert(ms[j] == ms.drop_first()[j - 1]);
                        }
                    }
                },
            }
        }
    }
}

/// What is read back after an insert: the new value under its key, and the same value
/// as before under every other key.
pub proof fn law_put_then_lookup(ms: Seq<(Seq<char>, JsonView)>, k: Seq<char>, v: JsonView, other: Seq<char>)
    ensures
        lookup(put(ms, k, v), k) == Some(v),
        other != k ==> lookup(put(ms, k, v), other) == lookup(ms, other),
{
    lemma_first_key(ms, k);
    lemma_first_key(ms, other);
    let p = put(ms, k, v);
    lemma_first_key(p, k);
    lemma_first_key(p, other);
    match first_key(ms, k) {
        Some(i) => {
            assert(p[i].0 == k);
            match first_key(p, k) {
                Some(j) => {
                    if j < i {
                        assert(ms[j].0 == p[j].0);
                    }
                },
                None => {},
            }
            if other != k {
                match (first_key(ms, other), first_key(p, other)) {
                    (Some(a), Some(b)) => {
                        if a < b {
                            assert(p[a].0 == ms[a].0);
                        }
                        if b < a {
                            assert(ms[b].0 == p[b].0);
                        }
                    },
                    (Some(a), None) => {
                        assert(p[a].0 == ms[a].0);
                    },
                    (None, Some(b)) => {
                        assert(ms[b].0 == p[b].0);
                    },
                    (None, None) => {},
                }
            }
        },
        None => {
            let n = ms.len() as int;
            assert(p[n].0 == k);
            match first_key(p, k) {
                Some(j) => {
                    if j < n {
                        assert(ms[j].0 == p[j].0);
                    }
                },
                None => {},
            }
            if other != k {
                match (first_key(ms, other), first_key(p, other)) {
                    (Some(a), Some(b)) => {
                        if a < b {
                            assert(p[a].0 == ms[a].0);
                        }
                        if b < a {
                            assert(ms[b].0 == p[b].0);
                        }
                    },
                    (Some(a), None) => {
                        assert(p[a].0 == ms[a].0);
                    },
                    (None, Some(b)) => {
                        if b < n {
                            assert(ms[b].0 == p[b].0);
                        }
                    },
                    (None, None) => {},
                }
            }
        },
    }
}

/// Set key `key` of an object's members to `value`, as `Map::insert`.
pub fn put_member(members: &mut Vec<JsonMember>, key: &str, value: JsonValue)
    ensures
        members_view(final(members)@) == put(members_view(old(members)@), key@, json_view(value)),
{
    proof {
        lemma_members_view(members@);
        lemma_first_key(members_view(members@), key@);
    }
    let mut i: usize = 0;
    while i < members.len()
        invariant
            i <= members@.len(),
            members@ == old(members)@,
            forall|j: int| 0 <= j < i ==> #[trigger] members@[j].key@ != key@,
        decreases members.len() - i,
    {
        if crate::text::str_equal(members[i].key.as_str(), key) {
            let ghost before = members@;
            let ghost v = json_view(value);
            members.set(i, JsonMember { key: key.to_owned(), value });
            proof {
                lemma_members_view(before);
                lemma_members_view(members@);
                let mv = members_view(before);
                assert(first_key(mv, key@) == Some(i as int)) by {
                    lemma_first_key(mv, key@);
                    match first_key(mv, key@) {
                        Some(j) => {
                            if j < i {
                                assert(mv[j].0 == before[j].key@);
                            }
                            if i < j {
                                assert(mv[i as int].0 == before[i as int].key@);
                            }
                        },
                        None => {
                            assert(mv[i as int].0 == before[i as int].key@);
                        },
                    }
                }
                assert(members_view(members@) =~= mv.update(i as int, (key@, v)));
            }
            return;
        }
        i += 1;
    }
    let ghost before = members@;
    let ghost v = json_view(value);
    members.push(JsonMember { key: key.to_owned(), value });
    proof {
        lemma_members_view(before);
        lemma_members_view(members@);
        let mv = members_view(before);
        assert(first_key(mv, key@) is None) by {
            lemma_first_key(mv, key@);
            match first_key(mv, key@) {
                Some(j) => {
                    assert(mv[j].0 == before[j].key@);
                },
                None => {},
            }
        }
        assert(members_view(members@) =~= mv.push((key@, v)));
    }
}

} // verus!
