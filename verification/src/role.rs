//! Roles and their hierarchy. Roles form a forest through `parent_id`; a
//! user's effective roles are the roles assigned to them (named first)
//! plus every ancestor. Re-parenting a role is refused when it would close
//! a cycle.

use vstd::prelude::*;

use crate::common::strset::{lemma_push_to_set, strings_view};
use crate::common::text::str_eq;

verus! {

pub struct Role {
    pub id: u128,
    pub name: String,
    pub description: Option<String>,
    pub parent_id: Option<u128>,
    pub created_at: i64,
}

/// Roles in a lookup table keyed by id, where a later entry with the same
/// id replaces an earlier one: the index of the entry for `id`.
pub open spec fn entry_for(all: Seq<Role>, id: u128) -> Option<int>
    decreases all.len(),
{
    if all.len() == 0 {
        None
    } else if all.last().id == id {
        Some(all.len() - 1)
    } else {
        entry_for(all.drop_last(), id)
    }
}

pub proof fn lemma_entry_for(all: Seq<Role>, id: u128)
    ensures
        entry_for(all, id) matches Some(i) ==> 0 <= i < all.len() && all[i].id == id,
    decreases all.len(),
{
    if all.len() > 0 && all.last().id != id {
        lemma_entry_for(all.drop_last(), id);
    }
}

/// The number of table entries whose id has not been visited.
pub open spec fn unvisited(all: Seq<Role>, visited: Set<u128>) -> nat
    decreases all.len(),
{
    if all.len() == 0 {
        0
    } else {
        unvisited(all.drop_last(), visited) + if visited.contains(all.last().id) {
            0nat
        } else {
            1nat
        }
    }
}

pub proof fn lemma_unvisited_shrinks(all: Seq<Role>, visited: Set<u128>, i: int)
    requires
        0 <= i < all.len(),
        !visited.contains(all[i].id),
    ensures
        unvisited(all, visited.insert(all[i].id)) < unvisited(all, visited),
    decreases all.len(),
{
    lemma_unvisited_mono(all.drop_last(), visited, all[i].id);
    if i < all.len() - 1 {
        assert(all.drop_last()[i] == all[i]);
        lemma_unvisited_shrinks(all.drop_last(), visited, i);
    }
}

pub proof fn lemma_unvisited_mono(all: Seq<Role>, visited: Set<u128>, x: u128)
    ensures
        unvisited(all, visited.insert(x)) <= unvisited(all, visited),
    decreases all.len(),
{
    if all.len() > 0 {
        lemma_unvisited_mono(all.drop_last(), visited, x);
    }
}

/// `name` appended unless already present.
pub open spec fn add_name(sink: Seq<Seq<char>>, name: Seq<char>) -> Seq<Seq<char>> {
    if sink.contains(name) {
        sink
    } else {
        sink.push(name)
    }
}

/// Walks from the table entry `i` up through the parents, recording each
/// role's name once and each id as visited, and stopping at a visited id
/// or a parent missing from the table.
pub open spec fn walk_from(all: Seq<Role>, i: int, visited: Set<u128>, sink: Seq<Seq<char>>) -> (Seq<Seq<char>>, Set<u128>)
    decreases unvisited(all, visited),
{
    if !(0 <= i < all.len()) || visited.contains(all[i].id) {
        (sink, visited)
    } else {
        let v2 = visited.insert(all[i].id);
        let s2 = add_name(sink, all[i].name@);
        match all[i].parent_id {
            None => (s2, v2),
            Some(p) => match entry_for(all, p) {
                None => (s2, v2),
                Some(j) => {
                    proof {
                        lemma_unvisited_shrinks(all, visited, i);
                    }
                    walk_from(all, j, v2, s2)
                },
            },
        }
    }
}

/// The same walk started at a role that need not be in the table.
pub open spec fn walk_role(all: Seq<Role>, r: Role, visited: Set<u128>, sink: Seq<Seq<char>>) -> (Seq<Seq<char>>, Set<u128>) {
    if visited.contains(r.id) {
        (sink, visited)
    } else {
        let v2 = visited.insert(r.id);
        let s2 = add_name(sink, r.name@);
        match r.parent_id {
            None => (s2, v2),
            Some(p) => match entry_for(all, p) {
                None => (s2, v2),
                Some(j) => walk_from(all, j, v2, s2),
            },
        }
    }
}

/// The walk over the directly assigned roles, in order.
pub open spec fn effective_state(direct: Seq<Role>, all: Seq<Role>) -> (Seq<Seq<char>>, Set<u128>)
    decreases direct.len(),
{
    if direct.len() == 0 {
        (Seq::empty(), Set::empty())
    } else {
        let (s, v) = effective_state(direct.drop_last(), all);
        walk_role(all, direct.last(), v, s)
    }
}

/// The names the walk discovers: each assigned role followed by its
/// ancestors, each name once, in discovery order.
pub open spec fn discovered_names(direct: Seq<Role>, all: Seq<Role>) -> Seq<Seq<char>> {
    effective_state(direct, all).0
}

/// The parent of `r`, as the table holds it, if the table holds it.
pub open spec fn parent_in_table(all: Seq<Role>, r: Role) -> Option<Role> {
    match r.parent_id {
        None => None,
        Some(p) => match entry_for(all, p) {
            None => None,
            Some(j) => Some(all[j]),
        },
    }
}

/// The `k`-th ancestor of `r` through the table (`r` itself for `k == 0`).
pub open spec fn ancestor(all: Seq<Role>, r: Role, k: nat) -> Option<Role>
    decreases k,
{
    if k == 0 {
        Some(r)
    } else {
        match ancestor(all, r, (k - 1) as nat) {
            Some(a) => parent_in_table(all, a),
            None => None,
        }
    }
}

/// `name` is the name of an assigned role or of one of its ancestors.
pub open spec fn inherits(direct: Seq<Role>, all: Seq<Role>, name: Seq<char>) -> bool {
    exists|i: int, k: nat|
        0 <= i < direct.len() && (#[trigger] ancestor(all, direct[i], k) matches Some(a) && a.name@ == name)
}

/// Each assigned role is the table's entry for its id.
pub open spec fn assignments_in_table(direct: Seq<Role>, all: Seq<Role>) -> bool {
    forall|i: int| 0 <= i < direct.len() ==> (entry_for(all, #[trigger] direct[i].id) matches Some(e) && all[e]
        == direct[i])
}

/// The visited id `x` has its name recorded and, when its parent is in
/// the table, its parent visited.
pub open spec fn closed_at(all: Seq<Role>, x: u128, visited: Set<u128>, sink: Seq<Seq<char>>) -> bool {
    &&& entry_for(all, x) matches Some(e)
    &&& sink.contains(all[entry_for(all, x)->0].name@)
    &&& (parent_in_table(all, all[entry_for(all, x)->0]) matches Some(q) ==> visited.contains(q.id))
}

/// Every visited id is closed.
pub open spec fn walk_closed(all: Seq<Role>, visited: Set<u128>, sink: Seq<Seq<char>>) -> bool {
    forall|x: u128| #[trigger] visited.contains(x) ==> closed_at(all, x, visited, sink)
}

/// Every recorded name is inherited.
pub open spec fn walk_sound(direct: Seq<Role>, all: Seq<Role>, sink: Seq<Seq<char>>) -> bool {
    forall|n: Seq<char>| #[trigger] sink.contains(n) ==> inherits(direct, all, n)
}

proof fn lemma_add_name_keeps(sink: Seq<Seq<char>>, name: Seq<char>)
    ensures
        add_name(sink, name).contains(name),
        forall|y: Seq<char>| sink.contains(y) ==> #[trigger] add_name(sink, name).contains(y),
        forall|y: Seq<char>| #[trigger] add_name(sink, name).contains(y) ==> sink.contains(y) || y == name,
{
    if !sink.contains(name) {
        assert(sink.push(name)[sink.len() as int] == name);
        assert forall|y: Seq<char>| sink.contains(y) implies #[trigger] sink.push(name).contains(y) by {
            let k = choose|k: int| 0 <= k < sink.len() && sink[k] == y;
            assert(sink.push(name)[k] == y);
        }
        assert forall|y: Seq<char>| #[trigger] sink.push(name).contains(y) implies sink.contains(y) || y == name by {
            let k = choose|k: int| 0 <= k < sink.push(name).len() && sink.push(name)[k] == y;
            if k < sink.len() {
                assert(sink[k] == y);
            }
        }
    }
}

proof fn lemma_closed_mono(all: Seq<Role>, x: u128, v1: Set<u128>, s1: Seq<Seq<char>>, v2: Set<u128>, s2: Seq<Seq<char>>)
    requires
        closed_at(all, x, v1, s1),
        v1.subset_of(v2),
        forall|y: Seq<char>| s1.contains(y) ==> #[trigger] s2.contains(y),
    ensures
        closed_at(all, x, v2, s2),
{
}

/// What one walk from table entry `i` does: it only adds visited ids,
/// visits `i`, leaves every id it added closed, keeps every recorded name,
/// and records only inherited names when `i` is inherited.
proof fn lemma_walk(direct: Seq<Role>, all: Seq<Role>, i: int, visited: Set<u128>, sink: Seq<Seq<char>>)
    requires
        0 <= i < all.len() ==> entry_for(all, all[i].id) == Some(i),
        0 <= i < all.len() ==> exists|d: int, k: nat|
            0 <= d < direct.len() && #[trigger] ancestor(all, direct[d], k) == Some(all[i]),
        walk_sound(direct, all, sink),
    ensures
        visited.subset_of(walk_from(all, i, visited, sink).1),
        forall|y: Seq<char>| sink.contains(y) ==> #[trigger] walk_from(all, i, visited, sink).0.contains(y),
        0 <= i < all.len() ==> walk_from(all, i, visited, sink).1.contains(all[i].id),
        forall|x: u128|
            #[trigger] walk_from(all, i, visited, sink).1.contains(x) && !visited.contains(x) ==> closed_at(
                all,
                x,
                walk_from(all, i, visited, sink).1,
                walk_from(all, i, visited, sink).0,
            ),
        walk_sound(direct, all, walk_from(all, i, visited, sink).0),
    decreases unvisited(all, visited),
{
    if !(0 <= i < all.len()) || visited.contains(all[i].id) {
        return;
    }
    let x = all[i].id;
    let v2 = visited.insert(x);
    let s2 = add_name(sink, all[i].name@);
    lemma_add_name_keeps(sink, all[i].name@);
    let (d, k) = choose|d: int, k: nat| 0 <= d < direct.len() && #[trigger] ancestor(all, direct[d], k) == Some(all[i]);
    assert(inherits(direct, all, all[i].name@)) by {
        assert(ancestor(all, direct[d], k) matches Some(a) && a.name@ == all[i].name@);
    }
    assert(walk_sound(direct, all, s2));
    match all[i].parent_id {
        None => {
            assert(closed_at(all, x, v2, s2));
        },
        Some(p) => match entry_for(all, p) {
            None => {
                assert(closed_at(all, x, v2, s2));
            },
            Some(j) => {
                lemma_entry_for(all, p);
                lemma_unvisited_shrinks(all, visited, i);
                assert(ancestor(all, direct[d], k + 1) == Some(all[j]));
                lemma_walk(direct, all, j, v2, s2);
                let r = walk_from(all, j, v2, s2);
                assert(r == walk_from(all, i, visited, sink));
                assert(r.1.contains(p));
                assert(closed_at(all, x, r.1, r.0));
            },
        },
    }
}

/// The walk started at an assigned role is the walk from its table entry.
proof fn lemma_walk_role_is_walk_from(all: Seq<Role>, r: Role, e: int, visited: Set<u128>, sink: Seq<Seq<char>>)
    requires
        0 <= e < all.len(),
        all[e] == r,
    ensures
        walk_role(all, r, visited, sink) == walk_from(all, e, visited, sink),
{
}

/// The walk over a prefix of the assignments.
proof fn lemma_effective_state(pre: Seq<Role>, direct: Seq<Role>, all: Seq<Role>)
    requires
        pre.len() <= direct.len(),
        pre == direct.take(pre.len() as int),
        assignments_in_table(direct, all),
    ensures
        walk_closed(all, effective_state(pre, all).1, effective_state(pre, all).0),
        walk_sound(direct, all, effective_state(pre, all).0),
        forall|i: int| 0 <= i < pre.len() ==> effective_state(pre, all).1.contains(#[trigger] pre[i].id),
    decreases pre.len(),
{
    if pre.len() == 0 {
        return;
    }
    let rest = pre.drop_last();
    assert(rest == direct.take(rest.len() as int));
    lemma_effective_state(rest, direct, all);
    let (s, v) = effective_state(rest, all);
    let d = pre.len() - 1;
    assert(pre.last() == direct[d]);
    let e = entry_for(all, direct[d].id)->0;
    lemma_entry_for(all, direct[d].id);
    lemma_walk_role_is_walk_from(all, direct[d], e, v, s);
    assert(ancestor(all, direct[d], 0) == Some(all[e]));
    lemma_walk(direct, all, e, v, s);
    let r = walk_from(all, e, v, s);
    assert(effective_state(pre, all) == r);
    assert forall|x: u128| #[trigger] r.1.contains(x) implies closed_at(all, x, r.1, r.0) by {
        if v.contains(x) {
            lemma_closed_mono(all, x, v, s, r.1, r.0);
        }
    }
    assert forall|i: int| 0 <= i < pre.len() implies r.1.contains(#[trigger] pre[i].id) by {
        if i < rest.len() {
            assert(rest[i] == pre[i]);
        }
    }
}

/// Every ancestor of a visited role in a closed walk is visited too, and
/// is its id's table entry.
proof fn lemma_ancestors_visited(all: Seq<Role>, visited: Set<u128>, sink: Seq<Seq<char>>, r: Role, k: nat)
    requires
        walk_closed(all, visited, sink),
        visited.contains(r.id),
        entry_for(all, r.id) matches Some(e) && all[e] == r,
    ensures
        ancestor(all, r, k) matches Some(a) ==> visited.contains(a.id) && (entry_for(all, a.id) matches Some(e2)
            && all[e2] == a),
    decreases k,
{
    if k > 0 {
        lemma_ancestors_visited(all, visited, sink, r, (k - 1) as nat);
        if let Some(b) = ancestor(all, r, (k - 1) as nat) {
            assert(closed_at(all, b.id, visited, sink));
            if let Some(p) = b.parent_id {
                lemma_entry_for(all, p);
            }
        }
    }
}

/// The walk discovers exactly the assigned roles' names and their
/// ancestors' names.
proof fn lemma_discovered_names_inherited(direct: Seq<Role>, all: Seq<Role>, name: Seq<char>)
    requires
        assignments_in_table(direct, all),
    ensures
        discovered_names(direct, all).contains(name) <==> inherits(direct, all, name),
{
    assert(direct == direct.take(direct.len() as int));
    lemma_effective_state(direct, direct, all);
    let (s, v) = effective_state(direct, all);
    if inherits(direct, all, name) {
        let (i, k) = choose|i: int, k: nat|
            0 <= i < direct.len() && (#[trigger] ancestor(all, direct[i], k) matches Some(a) && a.name@ == name);
        assert(v.contains(direct[i].id));
        lemma_ancestors_visited(all, v, s, direct[i], k);
        let a = ancestor(all, direct[i], k)->0;
        assert(closed_at(all, a.id, v, s));
    }
}

fn contains_id(v: &Vec<u128>, id: u128) -> (r: bool)
    ensures
        r == v@.contains(id),
{
    let mut i: usize = 0;
    while i < v.len()
        invariant
            i <= v@.len(),
            forall|k: int| 0 <= k < i ==> v@[k] != id,
        decreases v@.len() - i,
    {
        if v[i] == id {
            return true;
        }
        i = i + 1;
    }
    false
}

fn contains_name(v: &Vec<String>, name: &String) -> (r: bool)
    ensures
        r == strings_view(v@).contains(name@),
{
    let mut i: usize = 0;
    while i < v.len()
        invariant
            i <= v@.len(),
            forall|k: int| 0 <= k < i ==> v@[k]@ != name@,
        decreases v@.len() - i,
    {
        if str_eq(v[i].as_str(), name.as_str()) {
            assert(strings_view(v@)[i as int] == name@);
            return true;
        }
        i = i + 1;
    }
    proof {
        if strings_view(v@).contains(name@) {
            let k = choose|k: int| 0 <= k < v@.len() && strings_view(v@)[k] == name@;
            assert(v@[k]@ == name@);
        }
    }
    false
}

/// The table entry for `id`, the last one with that id.
pub fn find_entry(all: &Vec<Role>, id: u128) -> (r: Option<usize>)
    ensures
        match r {
            Some(i) => entry_for(all@, id) == Some(i as int),
            None => entry_for(all@, id) is None,
        },
{
    let mut i: usize = all.len();
    assert(all@.take(all@.len() as int) =~= all@);
    while i > 0
        invariant
            i <= all@.len(),
            entry_for(all@, id) == entry_for(all@.take(i as int), id),
        decreases i,
    {
        proof {
            assert(all@.take(i as int).drop_last() =~= all@.take(i - 1));
        }
        if all[i - 1].id == id {
            return Some(i - 1);
        }
        i = i - 1;
    }
    None
}

fn visit(r: &Role, sink: &mut Vec<String>, visited: &mut Vec<u128>)
    ensures
        strings_view(final(sink)@) == add_name(strings_view(old(sink)@), r.name@),
        final(visited)@ == old(visited)@.push(r.id),
{
    if !contains_name(sink, &r.name) {
        let ghost before = strings_view(sink@);
        sink.push(r.name.clone());
        assert(strings_view(sink@) =~= before.push(r.name@));
    }
    visited.push(r.id);
}

/// Walks from `start` up its ancestors (see `walk_role`).
pub fn walk_ancestors(start: &Role, all: &Vec<Role>, sink: &mut Vec<String>, visited: &mut Vec<u128>)
    ensures
        (strings_view(final(sink)@), final(visited)@.to_set()) == walk_role(
            all@,
            *start,
            old(visited)@.to_set(),
            strings_view(old(sink)@),
        ),
{
    let ghost v0 = visited@.to_set();
    let ghost s0 = strings_view(sink@);
    if contains_id(visited, start.id) {
        return;
    }
    let ghost vstart = visited@;
    visit(start, sink, visited);
    proof {
        lemma_push_to_set(vstart, start.id);
    }
    let mut cursor: Option<usize> = match start.parent_id {
        None => None,
        Some(p) => {
            let j = find_entry(all, p);
            proof { lemma_entry_for(all@, p); }
            j
        },
    };
    let ghost goal = walk_role(all@, *start, v0, s0);
    loop
        invariant_except_break
            match cursor {
                None => (strings_view(sink@), visited@.to_set()) == goal,
                Some(i) => i < all@.len() && walk_from(all@, i as int, visited@.to_set(), strings_view(sink@)) == goal,
            },
        ensures
            (strings_view(sink@), visited@.to_set()) == goal,
        decreases unvisited(all@, visited@.to_set()),
    {
        let i = match cursor {
            None => break,
            Some(i) => i,
        };
        if contains_id(visited, all[i].id) {
            break;
        }
        let ghost vbefore = visited@;
        visit(&all[i], sink, visited);
        proof {
            lemma_push_to_set(vbefore, all@[i as int].id);
            lemma_unvisited_shrinks(all@, vbefore.to_set(), i as int);
        }
        cursor = match all[i].parent_id {
            None => None,
            Some(p) => {
                let j = find_entry(all, p);
                proof { lemma_entry_for(all@, p); }
                j
            },
        };
    }
}

/// The names the walk over the assigned roles discovers.
fn discover_role_names(direct: &Vec<Role>, all: &Vec<Role>) -> (r: Vec<String>)
    ensures
        strings_view(r@) == discovered_names(direct@, all@),
{
    let mut sink: Vec<String> = Vec::new();
    let mut visited: Vec<u128> = Vec::new();
    let mut i: usize = 0;
    assert(strings_view(sink@) =~= Seq::<Seq<char>>::empty());
    assert(visited@.to_set() =~= Set::<u128>::empty());
    assert(direct@.take(0) =~= Seq::<Role>::empty());
    while i < direct.len()
        invariant
            i <= direct@.len(),
            (strings_view(sink@), visited@.to_set()) == effective_state(direct@.take(i as int), all@),
        decreases direct@.len() - i,
    {
        walk_ancestors(&direct[i], all, &mut sink, &mut visited);
        assert(direct@.take(i + 1).drop_last() =~= direct@.take(i as int));
        i = i + 1;
    }
    assert(direct@.take(direct@.len() as int) =~= direct@);
    sink
}

/// The parent recorded for `id` in a `(role, parent)` table where a
/// later row for the same role replaces an earlier one; `None` when the
/// role has no row or no parent.
pub open spec fn parent_in(rows: Seq<(u128, Option<u128>)>, id: u128) -> Option<Option<u128>>
    decreases rows.len(),
{
    if rows.len() == 0 {
        None
    } else if rows.last().0 == id {
        Some(rows.last().1)
    } else {
        parent_in(rows.drop_last(), id)
    }
}

/// The distinct ids having a row, not yet seen.
pub open spec fn unseen_rows(rows: Seq<(u128, Option<u128>)>, seen: Set<u128>) -> nat
    decreases rows.len(),
{
    if rows.len() == 0 {
        0
    } else {
        unseen_rows(rows.drop_last(), seen) + if seen.contains(rows.last().0) {
            0nat
        } else {
            1nat
        }
    }
}

pub proof fn lemma_unseen_shrinks(rows: Seq<(u128, Option<u128>)>, seen: Set<u128>, id: u128)
    requires
        parent_in(rows, id) is Some,
        !seen.contains(id),
    ensures
        unseen_rows(rows, seen.insert(id)) < unseen_rows(rows, seen),
    decreases rows.len(),
{
    lemma_unseen_mono(rows.drop_last(), seen, id);
    if rows.last().0 != id {
        lemma_unseen_shrinks(rows.drop_last(), seen, id);
    }
}

pub proof fn lemma_unseen_mono(rows: Seq<(u128, Option<u128>)>, seen: Set<u128>, x: u128)
    ensures
        unseen_rows(rows, seen.insert(x)) <= unseen_rows(rows, seen),
    decreases rows.len(),
{
    if rows.len() > 0 {
        lemma_unseen_mono(rows.drop_last(), seen, x);
    }
}

/// Following parents from `cursor` reaches `child`, or comes back to a
/// role already passed (a cycle), before running out of parents.
pub open spec fn chain_closes(rows: Seq<(u128, Option<u128>)>, child: u128, cursor: u128, seen: Set<u128>) -> bool
    decreases unseen_rows(rows, seen),
{
    if cursor == child || seen.contains(cursor) {
        true
    } else {
        match parent_in(rows, cursor) {
            Some(Some(p)) => {
                proof {
                    lemma_unseen_shrinks(rows, seen, cursor);
                }
                chain_closes(rows, child, p, seen.insert(cursor))
            },
            _ => false,
        }
    }
}

/// The parent of `x` by its row, if it has one.
pub open spec fn parent_step(rows: Seq<(u128, Option<u128>)>, x: u128) -> Option<u128> {
    match parent_in(rows, x) {
        Some(Some(p)) => Some(p),
        _ => None,
    }
}

/// Where following `k` parents up from `x` leads, if that far.
pub open spec fn climb(rows: Seq<(u128, Option<u128>)>, x: u128, k: nat) -> Option<u128>
    decreases k,
{
    if k == 0 {
        Some(x)
    } else {
        match climb(rows, x, (k - 1) as nat) {
            Some(y) => parent_step(rows, y),
            None => None,
        }
    }
}

/// No role is its own ancestor.
pub open spec fn acyclic(rows: Seq<(u128, Option<u128>)>) -> bool {
    forall|x: u128, k: nat| k >= 1 ==> #[trigger] climb(rows, x, k) != Some(x)
}

/// Whether `check_new_parent` accepts giving `child` the parent `parent`.
pub open spec fn reparent_accepted(rows: Seq<(u128, Option<u128>)>, child: u128, parent: Option<u128>) -> bool {
    match parent {
        None => true,
        Some(p) => p != child && !chain_closes(rows, child, p, Set::empty()),
    }
}

proof fn lemma_climb_shift(rows: Seq<(u128, Option<u128>)>, x: u128, k: nat)
    ensures
        climb(rows, x, k + 1) == (match parent_step(rows, x) {
            Some(y) => climb(rows, y, k),
            None => None,
        }),
    decreases k,
{
    if k > 0 {
        lemma_climb_shift(rows, x, (k - 1) as nat);
        assert(climb(rows, x, k + 1) == (match climb(rows, x, k) {
            Some(y) => parent_step(rows, y),
            None => None,
        }));
    }
}

proof fn lemma_climb_compose(rows: Seq<(u128, Option<u128>)>, x: u128, a: nat, b: nat)
    ensures
        climb(rows, x, a + b) == (match climb(rows, x, a) {
            Some(y) => climb(rows, y, b),
            None => None,
        }),
    decreases b,
{
    if b > 0 {
        lemma_climb_compose(rows, x, a, (b - 1) as nat);
        assert(climb(rows, x, a + b) == (match climb(rows, x, (a + b - 1) as nat) {
            Some(y) => parent_step(rows, y),
            None => None,
        }));
    }
}

/// When following parents from `c` does not close a chain, it never
/// reaches `child`.
proof fn lemma_open_chain_avoids(rows: Seq<(u128, Option<u128>)>, child: u128, c: u128, seen: Set<u128>, k: nat)
    requires
        !chain_closes(rows, child, c, seen),
    ensures
        climb(rows, c, k) != Some(child),
    decreases unseen_rows(rows, seen), k,
{
    if k > 0 {
        lemma_climb_shift(rows, c, (k - 1) as nat);
        match parent_in(rows, c) {
            Some(Some(p)) => {
                lemma_unseen_shrinks(rows, seen, c);
                lemma_open_chain_avoids(rows, child, p, seen.insert(c), (k - 1) as nat);
            },
            _ => {},
        }
    }
}

/// Off `child`, the re-parented table has the old parents.
proof fn lemma_reparented_step(rows: Seq<(u128, Option<u128>)>, child: u128, q: Option<u128>, y: u128)
    ensures
        parent_step(rows.push((child, q)), y) == (if y == child {
            q
        } else {
            parent_step(rows, y)
        }),
{
    assert(rows.push((child, q)).drop_last() =~= rows);
}

/// A climb in the re-parented table that does not pass `child` is the old
/// climb.
proof fn lemma_climb_unchanged(rows: Seq<(u128, Option<u128>)>, child: u128, q: Option<u128>, x: u128, k: nat)
    requires
        forall|i: nat| i < k ==> #[trigger] climb(rows.push((child, q)), x, i) != Some(child),
    ensures
        climb(rows.push((child, q)), x, k) == climb(rows, x, k),
    decreases k,
{
    if k > 0 {
        let km = (k - 1) as nat;
        assert(climb(rows.push((child, q)), x, km) != Some(child));
        lemma_climb_unchanged(rows, child, q, x, km);
        if let Some(y) = climb(rows, x, km) {
            lemma_reparented_step(rows, child, q, y);
        }
    }
}

/// From a role whose old climb never reaches `child`, the climb in the
/// re-parented table is the old one.
proof fn lemma_climb_from_avoider(rows: Seq<(u128, Option<u128>)>, child: u128, q: Option<u128>, p: u128, m: nat)
    requires
        forall|i: nat| #[trigger] climb(rows, p, i) != Some(child),
    ensures
        climb(rows.push((child, q)), p, m) == climb(rows, p, m),
    decreases m,
{
    if m > 0 {
        let mm = (m - 1) as nat;
        lemma_climb_from_avoider(rows, child, q, p, mm);
        assert(climb(rows, p, mm) != Some(child));
        if let Some(y) = climb(rows, p, mm) {
            lemma_reparented_step(rows, child, q, y);
        }
    }
}

/// Re-parenting a role, when `check_new_parent` accepts it, keeps the role
/// hierarchy free of cycles: no role becomes its own ancestor.
pub proof fn law_accepted_reparenting_keeps_hierarchy_acyclic(
    rows: Seq<(u128, Option<u128>)>,
    child: u128,
    parent: Option<u128>,
)
    requires
        acyclic(rows),
        reparent_accepted(rows, child, parent),
    ensures
        acyclic(rows.push((child, parent))),
{
    let nrows = rows.push((child, parent));
    assert forall|x: u128, k: nat| k >= 1 implies #[trigger] climb(nrows, x, k) != Some(x) by {
        if exists|i: nat| i < k && #[trigger] climb(nrows, x, i) == Some(child) {
            let j = choose|i: nat| i < k && #[trigger] climb(nrows, x, i) == Some(child);
            if climb(nrows, x, k) == Some(x) {
                lemma_climb_compose(nrows, x, k, j);
                lemma_climb_compose(nrows, x, j, k);
                assert(climb(nrows, child, k) == Some(child));
                let km = (k - 1) as nat;
                lemma_climb_shift(nrows, child, km);
                lemma_reparented_step(rows, child, parent, child);
                match parent {
                    None => {},
                    Some(p) => {
                        assert forall|i: nat| #[trigger] climb(rows, p, i) != Some(child) by {
                            lemma_open_chain_avoids(rows, child, p, Set::empty(), i);
                        }
                        lemma_climb_from_avoider(rows, child, parent, p, km);
                        assert(climb(rows, p, km) != Some(child));
                    },
                }
            }
        } else {
            lemma_climb_unchanged(rows, child, parent, x, k);
        }
    }
}

/// Why a re-parenting is refused.
pub enum RoleError {
    /// Re-parenting would make a role its own ancestor.
    Cycle(String),
    /// The store failed.
    Db(sqlx::Error),
}

fn find_parent(rows: &Vec<(u128, Option<u128>)>, id: u128) -> (r: Option<Option<u128>>)
    ensures
        r == parent_in(rows@, id),
{
    let mut i: usize = rows.len();
    assert(rows@.take(rows@.len() as int) =~= rows@);
    while i > 0
        invariant
            i <= rows@.len(),
            parent_in(rows@, id) == parent_in(rows@.take(i as int), id),
        decreases i,
    {
        proof {
            assert(rows@.take(i as int).drop_last() =~= rows@.take(i - 1));
        }
        if rows[i - 1].0 == id {
            return Some(rows[i - 1].1);
        }
        i = i - 1;
    }
    None
}

/// Checks making `parent_id` the parent of `child_id`, given every role's
/// current parent. A role cannot be its own parent; and following parents
/// up from the new parent must not reach the child or loop.
pub fn check_new_parent(child_id: u128, parent_id: Option<u128>, rows: &Vec<(u128, Option<u128>)>) -> (r: Result<(), RoleError>)
    ensures
        parent_id == Some(child_id) ==> (r matches Err(RoleError::Cycle(m)) && m@ == "role cannot be its own parent"@),
        (parent_id matches Some(p) && p != child_id && chain_closes(rows@, child_id, p, Set::empty())) ==> (
            r matches Err(RoleError::Cycle(m)) && m@ == "cycle detected in role hierarchy"@),
        (parent_id matches Some(p) && p != child_id && !chain_closes(rows@, child_id, p, Set::empty())) ==> r is Ok,
        parent_id is None ==> r is Ok,
{
    let new_parent = match parent_id {
        None => return Ok(()),
        Some(p) => p,
    };
    if new_parent == child_id {
        return Err(RoleError::Cycle("role cannot be its own parent".to_owned()));
    }
    let mut cursor: u128 = new_parent;
    let mut seen: Vec<u128> = Vec::new();
    assert(seen@.to_set() =~= Set::<u128>::empty());
    loop
        invariant_except_break
            chain_closes(rows@, child_id, cursor, seen@.to_set()) == chain_closes(rows@, child_id, new_parent, Set::empty()),
            parent_id == Some(new_parent),
            new_parent != child_id,
        ensures
            chain_closes(rows@, child_id, new_parent, Set::empty()) == (cursor == child_id || seen@.contains(cursor)),
        decreases unseen_rows(rows@, seen@.to_set()),
    {
        if cursor == child_id || contains_id(&seen, cursor) {
            break;
        }
        let ghost before = seen@;
        match find_parent(rows, cursor) {
            Some(Some(p)) => {
                seen.push(cursor);
                proof {
                    lemma_push_to_set(before, cursor);
                    lemma_unseen_shrinks(rows@, before.to_set(), cursor);
                }
                cursor = p;
            },
            _ => {
                return Ok(());
            },
        }
    }
    if cursor == child_id || contains_id(&seen, cursor) {
        Err(RoleError::Cycle("cycle detected in role hierarchy".to_owned()))
    } else {
        Ok(())
    }
}

/// In an acyclic table, a chain of parents from `p` that closes reaches
/// `child`: it cannot come back to a role it already passed (`seen`, the
/// first `m` steps from `p`).
proof fn lemma_closing_chain_reaches(
    rows: Seq<(u128, Option<u128>)>,
    child: u128,
    p: u128,
    c: u128,
    seen: Set<u128>,
    m: nat,
)
    requires
        acyclic(rows),
        climb(rows, p, m) == Some(c),
        forall|s: u128| seen.contains(s) ==> exists|i: nat| i < m && #[trigger] climb(rows, p, i) == Some(s),
        chain_closes(rows, child, c, seen),
    ensures
        exists|k: nat| #[trigger] climb(rows, p, k) == Some(child),
    decreases unseen_rows(rows, seen),
{
    if c == child {
        assert(climb(rows, p, m) == Some(child));
    } else if seen.contains(c) {
        let i = choose|i: nat| i < m && #[trigger] climb(rows, p, i) == Some(c);
        lemma_climb_compose(rows, p, i, (m - i) as nat);
        assert(climb(rows, c, (m - i) as nat) == Some(c));
        assert(climb(rows, c, (m - i) as nat) != Some(c));
    } else {
        match parent_in(rows, c) {
            Some(Some(q)) => {
                lemma_unseen_shrinks(rows, seen, c);
                assert(climb(rows, p, m + 1) == Some(q));
                assert forall|s: u128| seen.insert(c).contains(s) implies exists|i: nat|
                    i < m + 1 && #[trigger] climb(rows, p, i) == Some(s) by {
                    if s == c {
                        assert(climb(rows, p, m) == Some(s));
                    } else {
                        let i = choose|i: nat| i < m && #[trigger] climb(rows, p, i) == Some(s);
                        assert(i < m + 1 && climb(rows, p, i) == Some(s));
                    }
                }
                lemma_closing_chain_reaches(rows, child, p, q, seen.insert(c), m + 1);
            },
            _ => {},
        }
    }
}

/// In an acyclic hierarchy, giving `child` the parent `p` is refused
/// exactly when `child` is on `p`'s ancestor chain (`p` itself, its
/// parent, its parent's parent, ...).
pub proof fn law_reparent_refused_iff_child_on_chain(rows: Seq<(u128, Option<u128>)>, child: u128, p: u128)
    requires
        acyclic(rows),
    ensures
        !reparent_accepted(rows, child, Some(p)) <==> exists|k: nat| #[trigger] climb(rows, p, k) == Some(child),
{
    if p == child {
        assert(climb(rows, p, 0) == Some(child));
    } else if chain_closes(rows, child, p, Set::empty()) {
        assert(climb(rows, p, 0) == Some(p));
        lemma_closing_chain_reaches(rows, child, p, p, Set::empty(), 0);
    } else {
        assert forall|k: nat| #[trigger] climb(rows, p, k) != Some(child) by {
            lemma_open_chain_avoids(rows, child, p, Set::empty(), k);
        }
    }
}

/// The walk discovers each name once.
proof fn lemma_discovered_names_distinct(direct: Seq<Role>, all: Seq<Role>)
    ensures
        discovered_names(direct, all).no_duplicates(),
    decreases direct.len(),
{
    if direct.len() > 0 {
        lemma_discovered_names_distinct(direct.drop_last(), all);
        let (s, v) = effective_state(direct.drop_last(), all);
        lemma_walk_role_distinct(all, direct.last(), v, s);
    }
}

proof fn lemma_add_name_distinct(sink: Seq<Seq<char>>, name: Seq<char>)
    requires
        sink.no_duplicates(),
    ensures
        add_name(sink, name).no_duplicates(),
{
    if !sink.contains(name) {
        assert forall|i: int, j: int| 0 <= i < j < sink.push(name).len() implies sink.push(name)[i] != sink.push(name)[j] by {
            if j == sink.len() {
                assert(sink.contains(sink[i]));
            }
        }
    }
}

proof fn lemma_walk_from_distinct(all: Seq<Role>, i: int, visited: Set<u128>, sink: Seq<Seq<char>>)
    requires
        sink.no_duplicates(),
    ensures
        walk_from(all, i, visited, sink).0.no_duplicates(),
    decreases unvisited(all, visited),
{
    if 0 <= i < all.len() && !visited.contains(all[i].id) {
        lemma_add_name_distinct(sink, all[i].name@);
        if let Some(p) = all[i].parent_id {
            if let Some(j) = entry_for(all, p) {
                lemma_unvisited_shrinks(all, visited, i);
                lemma_walk_from_distinct(all, j, visited.insert(all[i].id), add_name(sink, all[i].name@));
            }
        }
    }
}

proof fn lemma_walk_role_distinct(all: Seq<Role>, r: Role, visited: Set<u128>, sink: Seq<Seq<char>>)
    requires
        sink.no_duplicates(),
    ensures
        walk_role(all, r, visited, sink).0.no_duplicates(),
{
    if !visited.contains(r.id) {
        lemma_add_name_distinct(sink, r.name@);
        if let Some(p) = r.parent_id {
            if let Some(j) = entry_for(all, p) {
                lemma_walk_from_distinct(all, j, visited.insert(r.id), add_name(sink, r.name@));
            }
        }
    }
}

/// `names` appended to `sink` in order, each unless already present.
pub open spec fn merge_names(sink: Seq<Seq<char>>, names: Seq<Seq<char>>) -> Seq<Seq<char>>
    decreases names.len(),
{
    if names.len() == 0 {
        sink
    } else {
        add_name(merge_names(sink, names.drop_last()), names.last())
    }
}

/// The names of the assigned roles, in assignment order.
pub open spec fn assigned_names(direct: Seq<Role>) -> Seq<Seq<char>> {
    direct.map_values(|r: Role| r.name@)
}

/// The assigned roles' names, each once, in assignment order.
pub open spec fn assigned_first(direct: Seq<Role>) -> Seq<Seq<char>> {
    merge_names(Seq::empty(), assigned_names(direct))
}

/// A user's effective role names: the directly assigned roles' names
/// first, then the ancestors' names in the order the walk up from each
/// assigned role discovers them; each name once.
pub open spec fn effective_names(direct: Seq<Role>, all: Seq<Role>) -> Seq<Seq<char>> {
    merge_names(assigned_first(direct), discovered_names(direct, all))
}

proof fn lemma_merge_contains(sink: Seq<Seq<char>>, names: Seq<Seq<char>>, y: Seq<char>)
    ensures
        merge_names(sink, names).contains(y) <==> (sink.contains(y) || names.contains(y)),
    decreases names.len(),
{
    if names.len() > 0 {
        let rest = names.drop_last();
        lemma_merge_contains(sink, rest, y);
        lemma_add_name_keeps(merge_names(sink, rest), names.last());
        assert(names =~= rest.push(names.last()));
        if rest.contains(y) {
            let k = choose|k: int| 0 <= k < rest.len() && rest[k] == y;
            assert(names[k] == y);
        }
        if names.contains(y) && y != names.last() {
            let k = choose|k: int| 0 <= k < names.len() && names[k] == y;
            assert(k < rest.len());
            assert(rest[k] == y);
        }
        assert(names[names.len() - 1] == names.last());
    }
}

proof fn lemma_merge_distinct(sink: Seq<Seq<char>>, names: Seq<Seq<char>>)
    requires
        sink.no_duplicates(),
    ensures
        merge_names(sink, names).no_duplicates(),
    decreases names.len(),
{
    if names.len() > 0 {
        lemma_merge_distinct(sink, names.drop_last());
        lemma_add_name_distinct(merge_names(sink, names.drop_last()), names.last());
    }
}

/// Merging keeps `sink` as a prefix and appends only names `sink` lacks.
proof fn lemma_merge_extends(sink: Seq<Seq<char>>, names: Seq<Seq<char>>)
    ensures
        merge_names(sink, names).len() >= sink.len(),
        merge_names(sink, names).take(sink.len() as int) == sink,
        forall|k: int|
            sink.len() <= k < merge_names(sink, names).len() ==> !sink.contains(
                #[trigger] merge_names(sink, names)[k],
            ),
    decreases names.len(),
{
    if names.len() > 0 {
        let rest = names.drop_last();
        lemma_merge_extends(sink, rest);
        let m = merge_names(sink, rest);
        let n = names.last();
        if !m.contains(n) {
            assert(m.push(n).take(sink.len() as int) =~= m.take(sink.len() as int));
            assert forall|k: int| sink.len() <= k < m.push(n).len() implies !sink.contains(
                #[trigger] m.push(n)[k],
            ) by {
                if k == m.len() {
                    if sink.contains(n) {
                        let j = choose|j: int| 0 <= j < sink.len() && sink[j] == n;
                        assert(m.take(sink.len() as int)[j] == n);
                        assert(m[j] == n);
                    }
                } else {
                    assert(m.push(n)[k] == m[k]);
                }
            }
        }
    }
}

/// A user's effective roles are exactly the roles assigned to them and
/// every ancestor of those: a name is among the effective role names if
/// and only if it is the name of an assigned role or of one of its
/// ancestors. Assigned roles are read from the same role table.
pub proof fn law_effective_roles_are_assigned_and_inherited(direct: Seq<Role>, all: Seq<Role>, name: Seq<char>)
    requires
        assignments_in_table(direct, all),
    ensures
        effective_names(direct, all).contains(name) <==> inherits(direct, all, name),
{
    lemma_merge_contains(assigned_first(direct), discovered_names(direct, all), name);
    lemma_merge_contains(Seq::empty(), assigned_names(direct), name);
    lemma_discovered_names_inherited(direct, all, name);
    if assigned_names(direct).contains(name) {
        let i = choose|i: int| 0 <= i < assigned_names(direct).len() && assigned_names(direct)[i] == name;
        assert(ancestor(all, direct[i], 0) == Some(direct[i]));
        assert(ancestor(all, direct[i], 0) matches Some(a) && a.name@ == name);
    }
}

/// Effective role names never repeat.
pub proof fn law_effective_names_distinct(direct: Seq<Role>, all: Seq<Role>)
    ensures
        effective_names(direct, all).no_duplicates(),
{
    lemma_merge_distinct(Seq::empty(), assigned_names(direct));
    lemma_merge_distinct(assigned_first(direct), discovered_names(direct, all));
}

/// The directly assigned roles' names come first: the effective names
/// begin with every assigned name (each once, in assignment order), and
/// every later name is an ancestor's that is not also assigned.
pub proof fn law_assigned_names_come_first(direct: Seq<Role>, all: Seq<Role>)
    ensures
        effective_names(direct, all).take(assigned_first(direct).len() as int) == assigned_first(direct),
        forall|n: Seq<char>| #[trigger] assigned_first(direct).contains(n) <==> assigned_names(direct).contains(n),
        forall|k: int|
            assigned_first(direct).len() <= k < effective_names(direct, all).len() ==> !assigned_names(
                direct,
            ).contains(#[trigger] effective_names(direct, all)[k]),
{
    lemma_merge_extends(assigned_first(direct), discovered_names(direct, all));
    assert forall|n: Seq<char>| #[trigger] assigned_first(direct).contains(n) <==> assigned_names(direct).contains(n) by {
        lemma_merge_contains(Seq::empty(), assigned_names(direct), n);
    }
}

fn add_missing_name(sink: &mut Vec<String>, name: &String)
    ensures
        strings_view(final(sink)@) == add_name(strings_view(old(sink)@), name@),
{
    if !contains_name(sink, name) {
        let ghost before = strings_view(sink@);
        sink.push(name.clone());
        assert(strings_view(sink@) =~= before.push(name@));
    }
}

/// A user's effective role names, given the roles assigned to them
/// (`direct`) and the role table (`all`): assigned names first, then the
/// ancestors' names, each once.
pub fn effective_role_names(direct: &Vec<Role>, all: &Vec<Role>) -> (r: Vec<String>)
    ensures
        strings_view(r@) == effective_names(direct@, all@),
{
    let mut out: Vec<String> = Vec::new();
    let mut i: usize = 0;
    assert(strings_view(out@) =~= Seq::<Seq<char>>::empty());
    while i < direct.len()
        invariant
            i <= direct@.len(),
            strings_view(out@) == merge_names(Seq::empty(), assigned_names(direct@).take(i as int)),
        decreases direct@.len() - i,
    {
        proof {
            assert(assigned_names(direct@).take(i + 1).drop_last() =~= assigned_names(direct@).take(i as int));
            assert(assigned_names(direct@).take(i + 1).last() == direct@[i as int].name@);
        }
        add_missing_name(&mut out, &direct[i].name);
        i = i + 1;
    }
    assert(assigned_names(direct@).take(direct@.len() as int) =~= assigned_names(direct@));
    let found = discover_role_names(direct, all);
    let ghost head = strings_view(out@);
    let mut j: usize = 0;
    assert(strings_view(found@).take(0) =~= Seq::<Seq<char>>::empty());
    while j < found.len()
        invariant
            j <= found@.len(),
            head == assigned_first(direct@),
            strings_view(found@) == discovered_names(direct@, all@),
            strings_view(out@) == merge_names(head, strings_view(found@).take(j as int)),
        decreases found@.len() - j,
    {
        proof {
            assert(strings_view(found@).take(j + 1).drop_last() =~= strings_view(found@).take(j as int));
            assert(strings_view(found@).take(j + 1).last() == found@[j as int]@);
        }
        add_missing_name(&mut out, &found[j]);
        j = j + 1;
    }
    assert(strings_view(found@).take(found@.len() as int) =~= strings_view(found@));
    out
}

} // verus!
