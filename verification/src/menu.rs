use std::collections::HashMap;
use vstd::prelude::*;

verus! {

/// One row of a role's menu configuration, as stored.
#[derive(Clone, Debug)]
pub struct MenuRow {
    pub id: i32,
    pub title: String,
    pub url: Option<String>,
    pub icon: Option<String>,
    pub is_active: Option<i8>,
    pub parent_id: Option<i32>,
    pub sort_order: Option<i32>,
}

/// A menu as handed to the front end: a root entry with its sub-entries.
#[derive(Debug)]
pub struct MenuConfig {
    pub id: i32,
    pub title: String,
    pub url: Option<String>,
    pub icon: Option<String>,
    pub is_active: bool,
    pub items: Option<Vec<MenuConfig>>,
}

/// A stored flag counts as active when it is present and not zero.
pub open spec fn row_active(r: MenuRow) -> bool {
    match r.is_active {
        Some(v) => v != 0,
        None => false,
    }
}

/// The entry a row stands for, without sub-entries.
pub open spec fn entry_of(r: MenuRow) -> MenuConfig {
    MenuConfig {
        id: r.id,
        title: r.title,
        url: r.url,
        icon: r.icon,
        is_active: row_active(r),
        items: None,
    }
}

/// The entries of the rows whose parent is `parent`, in row order.
pub open spec fn children_of(rows: Seq<MenuRow>, parent: i32) -> Seq<MenuConfig>
    decreases rows.len(),
{
    if rows.len() == 0 {
        Seq::empty()
    } else {
        let before = children_of(rows.drop_last(), parent);
        if rows.last().parent_id == Some(parent) {
            before.push(entry_of(rows.last()))
        } else {
            before
        }
    }
}

/// The last root row (a row without parent) carrying `id`, if any.
pub open spec fn last_root(rows: Seq<MenuRow>, id: i32) -> Option<MenuRow>
    decreases rows.len(),
{
    if rows.len() == 0 {
        None
    } else if rows.last().parent_id is None && rows.last().id == id {
        Some(rows.last())
    } else {
        last_root(rows.drop_last(), id)
    }
}

/// `m` is the root menu that `rows` give for `m.id`: the last root row with
/// that id, carrying the entries of its children when there are any.
pub open spec fn root_menu_of(rows: Seq<MenuRow>, m: MenuConfig) -> bool {
    &&& last_root(rows, m.id) matches Some(row)
    &&& m.title == row.title
    &&& m.url == row.url
    &&& m.icon == row.icon
    &&& m.is_active == row_active(row)
    &&& if children_of(rows, m.id).len() == 0 {
        m.items is None
    } else {
        m.items matches Some(v) && v@ == children_of(rows, m.id)
    }
}

/// `m` is the entry of the last root row with `m`'s id, without sub-entries.
pub open spec fn root_entry_of(rows: Seq<MenuRow>, m: MenuConfig) -> bool {
    &&& last_root(rows, m.id) matches Some(row)
    &&& m == entry_of(row)
}

/// The root menus built from `rows`: one per distinct root id, each as
/// `root_menu_of` says, and no other.
pub open spec fn is_menu_tree(rows: Seq<MenuRow>, menus: Seq<MenuConfig>) -> bool {
    &&& forall|k: int| 0 <= k < menus.len() ==> #[trigger] root_menu_of(rows, menus[k])
    &&& forall|k: int, l: int| 0 <= k < l < menus.len() ==> menus[k].id != menus[l].id
    &&& forall|i: int|
        0 <= i < rows.len() && (#[trigger] rows[i]).parent_id is None ==> exists|k: int|
            0 <= k < menus.len() && menus[k].id == rows[i].id
}

proof fn lemma_last_root_step(rows: Seq<MenuRow>, i: int, id: i32)
    requires
        0 <= i < rows.len(),
    ensures
        last_root(rows.take(i + 1), id) == (if rows[i].parent_id is None && rows[i].id == id {
            Some(rows[i])
        } else {
            last_root(rows.take(i), id)
        }),
{
    assert(rows.take(i + 1).drop_last() =~= rows.take(i));
}

proof fn lemma_children_step(rows: Seq<MenuRow>, i: int, parent: i32)
    requires
        0 <= i < rows.len(),
    ensures
        children_of(rows.take(i + 1), parent) == (if rows[i].parent_id == Some(parent) {
            children_of(rows.take(i), parent).push(entry_of(rows[i]))
        } else {
            children_of(rows.take(i), parent)
        }),
{
    assert(rows.take(i + 1).drop_last() =~= rows.take(i));
}

fn clone_text(t: &Option<String>) -> (r: Option<String>)
    ensures
        r == *t,
{
    match t {
        Some(s) => Some(s.clone()),
        None => None,
    }
}

fn entry_from_row(row: &MenuRow) -> (m: MenuConfig)
    ensures
        m == entry_of(*row),
{
    let is_active = match row.is_active {
        Some(v) => v != 0,
        None => false,
    };
    MenuConfig {
        id: row.id,
        title: row.title.clone(),
        url: clone_text(&row.url),
        icon: clone_text(&row.icon),
        is_active,
        items: None,
    }
}

/// The entries kept for `parent` in a map of children: none when the map has
/// no entry for it.
pub open spec fn kids_of(m: Map<i32, Vec<MenuConfig>>, parent: i32) -> Seq<MenuConfig> {
    if m.contains_key(parent) {
        m[parent]@
    } else {
        Seq::empty()
    }
}

/// Builds the menu tree of a role from its rows: rows without parent are the
/// roots, kept in a map by id (a later row with the same id replaces an
/// earlier one); the other rows are gathered in a map by parent, in row
/// order; each root then takes the entries gathered for it, and rows whose
/// parent is not a root are left out. The order of the roots is not part of
/// the contract.
pub fn build_menu_tree(rows: &Vec<MenuRow>) -> (menus: Vec<MenuConfig>)
    ensures
        is_menu_tree(rows@, menus@),
{
    broadcast use vstd::std_specs::hash::group_hash_axioms;

    let mut menu_map: HashMap<i32, MenuConfig> = HashMap::new();
    let mut children_map: HashMap<i32, Vec<MenuConfig>> = HashMap::new();
    let mut root_ids: Vec<i32> = Vec::new();
    let mut i: usize = 0;
    while i < rows.len()
        invariant
            0 <= i <= rows.len(),
            forall|id: i32| #[trigger]
                menu_map@.contains_key(id) ==> menu_map@[id].id == id && root_entry_of(
                    rows@.take(i as int),
                    menu_map@[id],
                ),
            forall|k: int| 0 <= k < root_ids.len() ==> menu_map@.contains_key(#[trigger] root_ids@[k]),
            forall|id: i32| #[trigger]
                menu_map@.contains_key(id) ==> exists|k: int| 0 <= k < root_ids.len() && root_ids@[k] == id,
            forall|k: int, l: int| 0 <= k < l < root_ids.len() ==> root_ids@[k] != root_ids@[l],
            forall|j: int|
                0 <= j < i && (#[trigger] rows@[j]).parent_id is None ==> menu_map@.contains_key(rows@[j].id),
            forall|p: i32| #[trigger] kids_of(children_map@, p) == children_of(rows@.take(i as int), p),
            forall|p: i32| #[trigger] children_map@.contains_key(p) ==> children_map@[p]@.len() > 0,
        decreases rows.len() - i,
    {
        let ghost before = rows@.take(i as int);
        let ghost after = rows@.take(i + 1);
        let ghost old_menu = menu_map@;
        let ghost old_ids = root_ids@;
        let ghost old_kids = children_map@;
        proof {
            assert forall|id: i32| #[trigger]
                last_root(after, id) == (if rows@[i as int].parent_id is None && rows@[i as int].id
                    == id {
                    Some(rows@[i as int])
                } else {
                    last_root(before, id)
                }) by {
                lemma_last_root_step(rows@, i as int, id);
            }
            assert forall|p: i32| #[trigger]
                children_of(after, p) == (if rows@[i as int].parent_id == Some(p) {
                    children_of(before, p).push(entry_of(rows@[i as int]))
                } else {
                    children_of(before, p)
                }) by {
                lemma_children_step(rows@, i as int, p);
            }
        }
        let row = &rows[i];
        let entry = entry_from_row(row);
        match row.parent_id {
            None => {
                let replaced = menu_map.insert(row.id, entry);
                if replaced.is_none() {
                    root_ids.push(row.id);
                }
                proof {
                    assert forall|id: i32| #[trigger] menu_map@.contains_key(id) implies menu_map@[id].id == id
                        && root_entry_of(after, menu_map@[id]) by {
                        if id != row.id {
                            assert(old_menu.contains_key(id));
                        }
                    }
                    assert forall|id: i32| #[trigger] menu_map@.contains_key(id) implies exists|k: int|
                        0 <= k < root_ids.len() && root_ids@[k] == id by {
                        if id == row.id {
                            if replaced.is_none() {
                                assert(root_ids@[old_ids.len() as int] == id);
                            } else {
                                let k = choose|k: int| 0 <= k < old_ids.len() && old_ids[k] == id;
                                assert(root_ids@[k] == id);
                            }
                        } else {
                            assert(old_menu.contains_key(id));
                            let k = choose|k: int| 0 <= k < old_ids.len() && old_ids[k] == id;
                            assert(root_ids@[k] == id);
                        }
                    }
                    assert forall|k: int| 0 <= k < root_ids.len() implies menu_map@.contains_key(
                        #[trigger] root_ids@[k],
                    ) by {
                        if k < old_ids.len() {
                            assert(old_menu.contains_key(old_ids[k]));
                        }
                    }
                    assert forall|k: int, l: int| 0 <= k < l < root_ids.len() implies root_ids@[k]
                        != root_ids@[l] by {
                        if l == old_ids.len() && replaced.is_none() {
                            assert(old_menu.contains_key(old_ids[k]));
                        }
                    }
                    assert forall|p: i32| #[trigger] kids_of(children_map@, p) == children_of(after, p) by {
                        assert(kids_of(old_kids, p) == children_of(before, p));
                    }
                }
            },
            Some(parent) => {
                let mut kids = match children_map.remove(&parent) {
                    Some(v) => v,
                    None => Vec::new(),
                };
                kids.push(entry);
                children_map.insert(parent, kids);
                proof {
                    assert forall|id: i32| #[trigger] menu_map@.contains_key(id) implies menu_map@[id].id == id
                        && root_entry_of(after, menu_map@[id]) by {
                        assert(root_entry_of(before, menu_map@[id]));
                    }
                    assert forall|p: i32| #[trigger] kids_of(children_map@, p) == children_of(after, p) by {
                        assert(kids_of(old_kids, p) == children_of(before, p));
                        if p == parent {
                            assert(kids_of(children_map@, p) =~= kids_of(old_kids, p).push(entry_of(rows@[i as int])));
                        }
                    }
                    assert forall|p: i32| #[trigger] children_map@.contains_key(p) implies children_map@[p]@.len() > 0 by {
                        if p != parent {
                            assert(old_kids.contains_key(p));
                        }
                    }
                }
            },
        }
        i = i + 1;
    }
    assert(rows@.take(rows.len() as int) =~= rows@);
    let mut menus: Vec<MenuConfig> = Vec::new();
    let mut k: usize = 0;
    while k < root_ids.len()
        invariant
            0 <= k <= root_ids.len(),
            menus.len() == k,
            forall|l: int| 0 <= l < k ==> #[trigger] root_menu_of(rows@, menus@[l]),
            forall|l: int| 0 <= l < k ==> menus@[l].id == root_ids@[l],
            forall|id: i32| #[trigger]
                menu_map@.contains_key(id) ==> menu_map@[id].id == id && root_entry_of(rows@, menu_map@[id]),
            forall|l: int| 0 <= l < root_ids.len() ==> menu_map@.contains_key(#[trigger] root_ids@[l]),
            forall|l: int, m: int| 0 <= l < m < root_ids.len() ==> root_ids@[l] != root_ids@[m],
            forall|l: int|
                k <= l < root_ids.len() ==> #[trigger] kids_of(children_map@, root_ids@[l]) == children_of(
                    rows@,
                    root_ids@[l],
                ),
            forall|p: i32| #[trigger] children_map@.contains_key(p) ==> children_map@[p]@.len() > 0,
        decreases root_ids.len() - k,
    {
        let id = root_ids[k];
        let ghost old_kids = children_map@;
        let ghost old_menus = menus@;
        assert(menu_map@.contains_key(root_ids@[k as int]));
        let root = menu_map.get(&id).unwrap();
        let items = children_map.remove(&id);
        proof {
            assert(kids_of(old_kids, id) == children_of(rows@, id));
            assert forall|l: int| k + 1 <= l < root_ids.len() implies #[trigger] kids_of(
                children_map@,
                root_ids@[l],
            ) == children_of(rows@, root_ids@[l]) by {
                assert(root_ids@[l] != id);
                assert(kids_of(old_kids, root_ids@[l]) == children_of(rows@, root_ids@[l]));
            }
        }
        menus.push(
            MenuConfig {
                id,
                title: root.title.clone(),
                url: clone_text(&root.url),
                icon: clone_text(&root.icon),
                is_active: root.is_active,
                items,
            },
        );
        proof {
            assert(root_entry_of(rows@, menu_map@[id]));
            assert forall|l: int| 0 <= l < k + 1 implies #[trigger] root_menu_of(rows@, menus@[l]) by {
                if l < k {
                    assert(menus@[l] == old_menus[l]);
                }
            }
        }
        k = k + 1;
    }
    proof {
        assert forall|l: int, m: int| 0 <= l < m < menus.len() implies menus@[l].id != menus@[m].id by {
            assert(menus@[l].id == root_ids@[l]);
            assert(menus@[m].id == root_ids@[m]);
        }
        assert forall|j: int|
            0 <= j < rows.len() && (#[trigger] rows@[j]).parent_id is None implies exists|l: int|
            0 <= l < menus.len() && menus@[l].id == rows@[j].id by {
            assert(menu_map@.contains_key(rows@[j].id));
            let l = choose|l: int| 0 <= l < root_ids.len() && root_ids@[l] == rows@[j].id;
            assert(menus@[l].id == rows@[j].id);
        }
    }
    menus
}

/// Law: every sub-entry listed under a parent is the entry of a row that
/// names that parent, and every row that names the parent is listed.
pub proof fn law_children_are_the_rows_naming_their_parent(rows: Seq<MenuRow>, parent: i32)
    ensures
        forall|j: int|
            0 <= j < children_of(rows, parent).len() ==> exists|i: int|
                0 <= i < rows.len() && rows[i].parent_id == Some(parent) && #[trigger] children_of(rows, parent)[j]
                    == entry_of(rows[i]),
        forall|i: int|
            0 <= i < rows.len() && (#[trigger] rows[i]).parent_id == Some(parent) ==> children_of(
                rows,
                parent,
            ).contains(entry_of(rows[i])),
    decreases rows.len(),
{
    if rows.len() > 0 {
        let init = rows.drop_last();
        law_children_are_the_rows_naming_their_parent(init, parent);
        let before = children_of(init, parent);
        let after = children_of(rows, parent);
        assert forall|j: int| 0 <= j < after.len() implies exists|i: int|
            0 <= i < rows.len() && rows[i].parent_id == Some(parent) && #[trigger] after[j] == entry_of(
                rows[i],
            ) by {
            if j < before.len() {
                let i = choose|i: int|
                    0 <= i < init.len() && init[i].parent_id == Some(parent) && before[j] == entry_of(init[i]);
                assert(rows[i] == init[i]);
                assert(after[j] == before[j]);
            } else {
                assert(rows[rows.len() - 1] == rows.last());
            }
        }
        assert forall|i: int| 0 <= i < rows.len() && (#[trigger] rows[i]).parent_id == Some(parent) implies after.contains(
            entry_of(rows[i]),
        ) by {
            if i < rows.len() - 1 {
                assert(init[i] == rows[i]);
                assert(before.contains(entry_of(init[i])));
                let j = choose|j: int| 0 <= j < before.len() && before[j] == entry_of(init[i]);
                assert(after[j] == before[j]);
            } else {
                assert(after[after.len() - 1] == entry_of(rows.last()));
            }
        }
    }
}

} // verus!
