//! JSON documents: the payloads that gateways send and the bodies that requests carry.
use crate::string_map::{self, StringMap};
use crate::text::{self, owned, same};
use vstd::prelude::*;

verus! {

/// A JSON number.
///
/// An integer is held by value; any other number by the text that denotes it.
#[derive(Debug)]
pub enum Number {
    /// A non-negative integer.
    PosInt(u64),
    /// A negative integer.
    NegInt(i64),
    /// A number with a fraction or an exponent, as written.
    Float(String),
}

/// A JSON document. The keys of an object are distinct.
#[derive(Debug)]
pub enum Json {
    Null,
    Bool(bool),
    Number(Number),
    Text(String),
    Array(Vec<Json>),
    Object(Vec<(String, Json)>),
}

/// What a [`Number`] is.
pub enum NumberTree {
    Int(int),
    Float(Seq<char>),
}

/// What a [`Json`] document is: its tree of mathematical values.
pub enum Tree {
    Null,
    Bool(bool),
    Number(NumberTree),
    Text(Seq<char>),
    Array(Seq<Tree>),
    Object(Seq<(Seq<char>, Tree)>),
}

impl Number {
    pub open spec fn tree(self) -> NumberTree {
        match self {
            Number::PosInt(n) => NumberTree::Int(n as int),
            Number::NegInt(n) => NumberTree::Int(n as int),
            Number::Float(t) => NumberTree::Float(t@),
        }
    }
}

impl Json {
    /// The tree of this document.
    pub open spec fn tree(self) -> Tree
        decreases self,
    {
        match self {
            Json::Null => Tree::Null,
            Json::Bool(b) => Tree::Bool(b),
            Json::Number(n) => Tree::Number(n.tree()),
            Json::Text(t) => Tree::Text(t@),
            Json::Array(items) => Tree::Array(
                Seq::new(
                    items@.len(),
                    |i: int|
                        if 0 <= i < items@.len() {
                            items@[i].tree()
                        } else {
                            Tree::Null
                        },
                ),
            ),
            Json::Object(members) => Tree::Object(
                Seq::new(
                    members@.len(),
                    |i: int|
                        if 0 <= i < members@.len() {
                            (members@[i].0@, members@[i].1.tree())
                        } else {
                            (Seq::empty(), Tree::Null)
                        },
                ),
            ),
        }
    }
}

/// The trees of a sequence of documents.
pub open spec fn trees(items: Seq<Json>) -> Seq<Tree> {
    items.map_values(|j: Json| j.tree())
}

/// The names and trees of a sequence of members.
pub open spec fn member_trees(members: Seq<(String, Json)>) -> Seq<(Seq<char>, Tree)> {
    members.map_values(|m: (String, Json)| (m.0@, m.1.tree()))
}

/// The tree of an array is the trees of its items.
pub proof fn lemma_array_tree(items: Vec<Json>)
    ensures
        Json::Array(items).tree() == Tree::Array(trees(items@)),
{
    let t = Json::Array(items).tree();
    assert(t->Array_0 =~= trees(items@));
}

/// The tree of an object is the trees of its members.
pub proof fn lemma_object_tree(members: Vec<(String, Json)>)
    ensures
        Json::Object(members).tree() == Tree::Object(member_trees(members@)),
{
    let t = Json::Object(members).tree();
    assert(t->Object_0 =~= member_trees(members@));
}

/// The position of the member named `name`, or the number of members where there is none.
pub open spec fn member_index(members: Seq<(Seq<char>, Tree)>, name: Seq<char>) -> nat
    decreases members.len(),
{
    if members.len() == 0 || members[0].0 == name {
        0
    } else {
        1 + member_index(members.skip(1), name)
    }
}

pub proof fn lemma_member_index(members: Seq<(Seq<char>, Tree)>, name: Seq<char>, k: nat)
    requires
        k <= members.len(),
        forall|i: int| 0 <= i < k ==> (#[trigger] members[i]).0 != name,
        k < members.len() ==> members[k as int].0 == name,
    ensures
        member_index(members, name) == k,
    decreases members.len(),
{
    if k > 0 {
        assert(members[0].0 != name);
        assert forall|i: int| 0 <= i < k - 1 implies (#[trigger] members.skip(1)[i]).0 != name by {
            assert(members.skip(1)[i] == members[i + 1]);
        }
        lemma_member_index(members.skip(1), name, (k - 1) as nat);
    }
}

pub proof fn lemma_member_index_bound(members: Seq<(Seq<char>, Tree)>, name: Seq<char>)
    ensures
        member_index(members, name) <= members.len(),
        member_index(members, name) < members.len() ==> members[member_index(members, name) as int].0 == name,
        forall|i: int| 0 <= i < member_index(members, name) ==> (#[trigger] members[i]).0 != name,
    decreases members.len(),
{
    if members.len() > 0 && members[0].0 != name {
        lemma_member_index_bound(members.skip(1), name);
        assert forall|i: int| 0 <= i < member_index(members, name) implies (#[trigger] members[i]).0
            != name by {
            if i > 0 {
                assert(members.skip(1)[i - 1] == members[i]);
            }
        }
    }
}

/// The member of an object named `name`; nothing else has members.
pub open spec fn member(t: Tree, name: Seq<char>) -> Option<Tree> {
    match t {
        Tree::Object(members) => {
            let k = member_index(members, name);
            if k < members.len() {
                Some(members[k as int].1)
            } else {
                None
            }
        },
        _ => None,
    }
}

impl Clone for Number {
    fn clone(&self) -> (r: Self)
        ensures
            r == *self,
    {
        match self {
            Number::PosInt(n) => Number::PosInt(*n),
            Number::NegInt(n) => Number::NegInt(*n),
            Number::Float(t) => Number::Float(t.clone()),
        }
    }
}

impl Clone for Json {
    fn clone(&self) -> (r: Self)
        ensures
            r.tree() == self.tree(),
    {
        self.duplicate()
    }
}

impl Json {
    fn duplicate(&self) -> (r: Json)
        ensures
            r.tree() == self.tree(),
        decreases self,
    {
        match self {
            Json::Null => Json::Null,
            Json::Bool(b) => Json::Bool(*b),
            Json::Number(n) => Json::Number(n.clone()),
            Json::Text(t) => Json::Text(t.clone()),
            Json::Array(items) => {
                let mut out: Vec<Json> = Vec::new();
                let mut i: usize = 0;
                while i < items.len()
                    invariant
                        i <= items.len(),
                        *self == Json::Array(*items),
                        trees(out@) == trees(items@).take(i as int),
                    decreases items.len() - i,
                {
                    proof {
                        assert(decreases_to!(*self => self->Array_0));
                        assert(decreases_to!(*items => items@));
                        assert(decreases_to!(items@ => items@[i as int]));
                    }
                    let ghost before = trees(out@);
                    let item = items[i].duplicate();
                    out.push(item);
                    proof {
                        assert(trees(out@) =~= before.push(items@[i as int].tree()));
                        assert(trees(items@).take(i as int + 1) =~= before.push(items@[i as int].tree()));
                    }
                    i += 1;
                }
                proof {
                    assert(trees(items@).take(items@.len() as int) =~= trees(items@));
                    lemma_array_tree(*items);
                    lemma_array_tree(out);
                }
                Json::Array(out)
            },
            Json::Object(members) => {
                let mut out: Vec<(String, Json)> = Vec::new();
                let mut i: usize = 0;
                while i < members.len()
                    invariant
                        i <= members.len(),
                        *self == Json::Object(*members),
                        member_trees(out@) == member_trees(members@).take(i as int),
                    decreases members.len() - i,
                {
                    proof {
                        assert(decreases_to!(*self => self->Object_0));
                        assert(decreases_to!(*members => members@));
                        assert(decreases_to!(members@ => members@[i as int]));
                        assert(decreases_to!(members@[i as int] => members@[i as int].1));
                    }
                    let ghost before = member_trees(out@);
                    let value = members[i].1.duplicate();
                    out.push((members[i].0.clone(), value));
                    proof {
                        let next = (members@[i as int].0@, members@[i as int].1.tree());
                        assert(member_trees(out@) =~= before.push(next));
                        assert(member_trees(members@).take(i as int + 1) =~= before.push(next));
                    }
                    i += 1;
                }
                proof {
                    assert(member_trees(members@).take(members@.len() as int) =~= member_trees(members@));
                    lemma_object_tree(*members);
                    lemma_object_tree(out);
                }
                Json::Object(out)
            },
        }
    }
}

/// The position of the member named `name` among `members`.
pub fn find_member(members: &Vec<(String, Json)>, name: &str) -> (r: usize)
    ensures
        r == member_index(member_trees(members@), name@),
        r <= members.len(),
{
    let mut i: usize = 0;
    let ghost all = member_trees(members@);
    while i < members.len()
        invariant
            i <= members.len(),
            all == member_trees(members@),
            forall|j: int| 0 <= j < i ==> (#[trigger] all[j]).0 != name@,
        decreases members.len() - i,
    {
        proof {
            assert(all[i as int].0 == members@[i as int].0@);
        }
        if same(&members[i].0, name) {
            proof {
                lemma_member_index(all, name@, i as nat);
            }
            return i;
        }
        i += 1;
    }
    proof {
        lemma_member_index(all, name@, i as nat);
    }
    i
}

impl Json {
    /// The member named `name`, where this is an object that has one.
    pub fn get(&self, name: &str) -> (r: Option<&Json>)
        ensures
            match r {
                Some(j) => member(self.tree(), name@) == Some(j.tree()),
                None => member(self.tree(), name@) is None,
            },
    {
        match self {
            Json::Object(members) => {
                proof {
                    lemma_object_tree(*members);
                }
                let k: usize = find_member(members, name);
                if k < members.len() {
                    proof {
                        assert(member_trees(members@)[k as int] == (members@[k as int].0@, members@[k as int].1.tree()));
                    }
                    Some(&members[k].1)
                } else {
                    None
                }
            },
            _ => None,
        }
    }

    /// The text, where this is one.
    pub fn as_str(&self) -> (r: Option<&str>)
        ensures
            match r {
                Some(s) => self.tree() == Tree::Text(s@),
                None => !(self.tree() is Text),
            },
    {
        match self {
            Json::Text(t) => Some(t.as_str()),
            _ => None,
        }
    }

    /// A text document.
    pub fn text(s: &str) -> (r: Json)
        ensures
            r.tree() == Tree::Text(s@),
    {
        Json::Text(owned(s))
    }

    /// A number document for an integer.
    pub fn integer(n: i64) -> (r: Json)
        ensures
            r.tree() == Tree::Number(NumberTree::Int(n as int)),
    {
        if n < 0 {
            Json::Number(Number::NegInt(n))
        } else {
            Json::Number(Number::PosInt(n as u64))
        }
    }
}

/// The member for an optional text: none where it is absent.
pub open spec fn opt_member(name: Seq<char>, value: Option<Seq<char>>) -> Seq<(Seq<char>, Tree)> {
    match value {
        Some(v) => seq![(name, Tree::Text(v))],
        None => Seq::empty(),
    }
}

/// The members for texts under their names.
pub open spec fn text_tree(p: Seq<(Seq<char>, Seq<char>)>) -> Tree {
    Tree::Object(p.map_values(|e: (Seq<char>, Seq<char>)| (e.0, Tree::Text(e.1))))
}

/// Adds a member.
pub fn push_json(members: &mut Vec<(String, Json)>, name: &str, value: Json)
    ensures
        member_trees(final(members)@) == member_trees(old(members)@).push((name@, value.tree())),
{
    let ghost before = member_trees(members@);
    members.push((owned(name), value));
    proof {
        assert(member_trees(members@) =~= before.push((name@, value.tree())));
    }
}

/// Adds a text member.
pub fn push_text(members: &mut Vec<(String, Json)>, name: &str, value: &str)
    ensures
        member_trees(final(members)@) == member_trees(old(members)@).push((name@, Tree::Text(value@))),
{
    push_json(members, name, Json::text(value));
}

/// Adds a text member where there is a text.
pub fn push_opt_text(members: &mut Vec<(String, Json)>, name: &str, value: &Option<String>)
    ensures
        member_trees(final(members)@) == member_trees(old(members)@) + opt_member(name@, text::opt_text(*value)),
{
    match value {
        Some(v) => {
            let ghost before = member_trees(members@);
            push_text(members, name, v);
            proof {
                assert(before.push((name@, Tree::Text(v@))) =~= before + seq![(name@, Tree::Text(v@))]);
            }
        },
        None => {
            proof {
                assert(member_trees(members@) + Seq::<(Seq<char>, Tree)>::empty() =~= member_trees(members@));
            }
        },
    }
}

/// The object with the given members.
pub fn object(members: Vec<(String, Json)>) -> (r: Json)
    ensures
        r.tree() == Tree::Object(member_trees(members@)),
{
    proof {
        lemma_object_tree(members);
    }
    Json::Object(members)
}

/// The members of an object to be filled.
pub fn no_members() -> (r: Vec<(String, Json)>)
    ensures
        member_trees(r@) == Seq::<(Seq<char>, Tree)>::empty(),
{
    let r: Vec<(String, Json)> = Vec::new();
    proof {
        assert(member_trees(r@) =~= Seq::<(Seq<char>, Tree)>::empty());
    }
    r
}

/// The object with one member.
pub fn wrapped(name: &str, value: Json) -> (r: Json)
    ensures
        r.tree() == Tree::Object(seq![(name@, value.tree())]),
{
    let mut members = no_members();
    push_json(&mut members, name, value);
    proof {
        assert(member_trees(members@) =~= seq![(name@, value.tree())]);
    }
    object(members)
}

/// The object that a map of texts makes.
pub fn object_of_texts(map: &StringMap) -> (r: Json)
    ensures
        r.tree() == text_tree(map.listed()),
{
    let entries = map.entries();
    let ghost all = text_tree(map.listed())->Object_0;
    let mut members = no_members();
    let mut i: usize = 0;
    while i < entries.len()
        invariant
            i <= entries.len(),
            string_map::pairs(entries@) == map.listed(),
            all == text_tree(map.listed())->Object_0,
            member_trees(members@) == all.take(i as int),
        decreases entries.len() - i,
    {
        push_text(&mut members, &entries[i].0, &entries[i].1);
        proof {
            assert(map.listed()[i as int] == (entries@[i as int].0@, entries@[i as int].1@));
            assert(all.take(i as int + 1) =~= all.take(i as int).push(all[i as int]));
        }
        i += 1;
    }
    proof {
        assert(all.take(all.len() as int) =~= all);
    }
    object(members)
}

/// A member is found by its name, and of several with one name the first; nothing is found under a
/// name that no member has.
pub proof fn first_of_a_name_is_found(members: Seq<(Seq<char>, Tree)>, name: Seq<char>, k: int)
    requires
        0 <= k <= members.len(),
        forall|i: int| 0 <= i < k ==> (#[trigger] members[i]).0 != name,
        k < members.len() ==> members[k].0 == name,
    ensures
        k < members.len() ==> member(Tree::Object(members), name) == Some(members[k].1),
        k == members.len() ==> member(Tree::Object(members), name) is None,
{
    lemma_member_index(members, name, k as nat);
}

/// Of members put one behind the other, those in front are found first.
pub proof fn front_is_found_first(front: Seq<(Seq<char>, Tree)>, back: Seq<(Seq<char>, Tree)>, name: Seq<char>)
    ensures
        member(Tree::Object(front + back), name) == (match member(Tree::Object(front), name) {
            Some(t) => Some(t),
            None => member(Tree::Object(back), name),
        }),
{
    let all = front + back;
    let k = member_index(front, name);
    lemma_member_index_bound(front, name);
    if k < front.len() {
        assert forall|i: int| 0 <= i < k implies (#[trigger] all[i]).0 != name by {
            assert(all[i] == front[i]);
        }
        lemma_member_index(all, name, k);
    } else {
        let m = member_index(back, name);
        lemma_member_index_bound(back, name);
        assert forall|i: int| 0 <= i < front.len() + m implies (#[trigger] all[i]).0 != name by {
            if i < front.len() {
                assert(all[i] == front[i]);
            } else {
                assert(all[i] == back[i - front.len()]);
            }
        }
        lemma_member_index(all, name, front.len() + m);
    }
}

/// An object with one member has that member and no other; with none, it has none. An optional text
/// is a member exactly where there is one.
pub proof fn single_member_is_found(own: Seq<char>, value: Tree, opt: Option<Seq<char>>, name: Seq<char>)
    ensures
        member(Tree::Object(seq![(own, value)]), name) == (if own == name {
            Some(value)
        } else {
            None
        }),
        member(Tree::Object(Seq::empty()), name) is None,
        opt matches Some(v) ==> member(Tree::Object(opt_member(own, opt)), name) == (if own == name {
            Some(Tree::Text(v))
        } else {
            None
        }),
        opt is None ==> member(Tree::Object(opt_member(own, opt)), name) is None,
{
    let one = seq![(own, value)];
    if own == name {
        lemma_member_index(one, name, 0);
    } else {
        lemma_member_index(one, name, 1);
    }
    lemma_member_index(Seq::<(Seq<char>, Tree)>::empty(), name, 0);
    match opt {
        Some(v) => {
            let own_text = seq![(own, Tree::Text(v))];
            if own == name {
                lemma_member_index(own_text, name, 0);
            } else {
                lemma_member_index(own_text, name, 1);
            }
        },
        None => {},
    }
}

/// An object made of a map of texts has each text under its own name, in the order of the map.
pub proof fn texts_are_found_in_place(p: Seq<(Seq<char>, Seq<char>)>, i: int)
    requires
        0 <= i < p.len(),
        string_map::distinct_keys(p),
    ensures
        member(text_tree(p), p[i].0) == Some(Tree::Text(p[i].1)),
        text_tree(p)->Object_0.len() == p.len(),
        text_tree(p)->Object_0[i] == (p[i].0, Tree::Text(p[i].1)),
{
    let all = text_tree(p)->Object_0;
    assert forall|j: int| 0 <= j < i implies (#[trigger] all[j]).0 != p[i].0 by {
        assert(all[j].0 == p[j].0);
    }
    lemma_member_index(all, p[i].0, i as nat);
}

} // verus!
