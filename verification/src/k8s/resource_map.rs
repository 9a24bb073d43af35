//! Lookups of scope and category by resource type.
use vstd::prelude::*;
use crate::k8s::catalog::{
    find_row, lookup_row, resource_row, resource_table, row_index, ResourceRow, RESOURCE_TYPE_COUNT,
};
use crate::text::str_eq;

verus! {

/// Scope and category of a resource type.
#[derive(Debug, Clone, Copy)]
pub struct ResourceConfig {
    /// Whether this resource type is namespaced (true) or cluster-wide (false)
    pub is_namespaced: bool,
    /// Human-readable category for grouping related resources
    pub category: &'static str,
}

/// The contents of a list of borrowed strings.
pub open spec fn str_views(s: Seq<&str>) -> Seq<Seq<char>> {
    s.map_values(|x: &str| x@)
}

/// The names of all known resource types, in table order.
pub open spec fn supported_types() -> Seq<Seq<char>> {
    resource_table().map_values(|row: ResourceRow| row.resource_type)
}

/// Whether a row belongs to `category`.
pub open spec fn in_category(row: ResourceRow, category: Seq<char>) -> bool {
    row.category == category
}

/// The names of the resource types of `category`, in table order.
pub open spec fn category_types(category: Seq<char>) -> Seq<Seq<char>> {
    resource_table().filter(|row: ResourceRow| in_category(row, category)).map_values(
        |row: ResourceRow| row.resource_type,
    )
}

/// The configuration of `resource_type`, if it is known.
pub fn get_resource_config(resource_type: &str) -> (r: Option<ResourceConfig>)
    ensures
        match find_row(resource_type@) {
            Some(row) => r matches Some(c) && c.is_namespaced == row.is_namespaced && c.category@
                == row.category,
            None => r is None,
        },
{
    proof {
        crate::k8s::catalog::lemma_row_index(resource_type@);
    }
    match lookup_row(resource_type) {
        Some(i) => {
            let row = resource_row(i);
            Some(ResourceConfig { is_namespaced: row.1, category: row.2 })
        },
        None => None,
    }
}

/// Whether `resource_type` is namespaced (`Some(true)`), cluster-wide
/// (`Some(false)`) or unknown (`None`).
pub fn is_resource_namespaced(resource_type: &str) -> (r: Option<bool>)
    ensures
        r == (match find_row(resource_type@) {
            Some(row) => Some(row.is_namespaced),
            None => None::<bool>,
        }),
{
    match get_resource_config(resource_type) {
        Some(c) => Some(c.is_namespaced),
        None => None,
    }
}

/// Every known resource type, in table order.
pub fn get_supported_resource_types() -> (r: Vec<&'static str>)
    ensures
        str_views(r@) == supported_types(),
{
    let mut r: Vec<&'static str> = Vec::new();
    let mut i: usize = 0;
    while i < RESOURCE_TYPE_COUNT
        invariant
            i <= RESOURCE_TYPE_COUNT,
            resource_table().len() == RESOURCE_TYPE_COUNT,
            str_views(r@) == supported_types().take(i as int),
        decreases RESOURCE_TYPE_COUNT - i,
    {
        let row = resource_row(i);
        let ghost before = r@;
        r.push(row.0);
        assert(supported_types().take(i + 1) =~= supported_types().take(i as int).push(
            resource_table()[i as int].resource_type,
        ));
        assert(str_views(r@) =~= str_views(before).push(row.0@));
        i = i + 1;
    }
    assert(supported_types().take(RESOURCE_TYPE_COUNT as int) =~= supported_types());
    r
}

/// The resource types of `category`, in table order.
pub fn get_resources_by_category(category: &str) -> (r: Vec<&'static str>)
    ensures
        str_views(r@) == category_types(category@),
{
    let ghost pred = |row: ResourceRow| in_category(row, category@);
    let mut r: Vec<&'static str> = Vec::new();
    let mut i: usize = 0;
    while i < RESOURCE_TYPE_COUNT
        invariant
            i <= RESOURCE_TYPE_COUNT,
            resource_table().len() == RESOURCE_TYPE_COUNT,
            pred == (|row: ResourceRow| in_category(row, category@)),
            str_views(r@) == resource_table().take(i as int).filter(pred).map_values(
                |row: ResourceRow| row.resource_type,
            ),
        decreases RESOURCE_TYPE_COUNT - i,
    {
        let row = resource_row(i);
        let ghost prev = resource_table().take(i as int);
        proof {
            assert(resource_table().take(i + 1) =~= prev.push(resource_table()[i as int]));
            prev.lemma_filter_push(resource_table()[i as int], pred);
        }
        let ghost before = r@;
        if str_eq(row.2, category) {
            r.push(row.0);
            assert(str_views(r@) =~= str_views(before).push(row.0@));
            assert(prev.filter(pred).push(resource_table()[i as int]).map_values(
                |row: ResourceRow| row.resource_type,
            ) =~= prev.filter(pred).map_values(|row: ResourceRow| row.resource_type).push(row.0@));
        } else {
            assert(str_views(r@) =~= prev.filter(pred).map_values(
                |row: ResourceRow| row.resource_type,
            ));
        }
        i = i + 1;
    }
    assert(resource_table().take(RESOURCE_TYPE_COUNT as int) =~= resource_table());
    r
}

/// A resource type has a scope exactly when it is among the supported
/// types.
pub proof fn lemma_scope_known_iff_supported(resource_type: Seq<char>)
    ensures
        find_row(resource_type) is Some <==> supported_types().contains(resource_type),
{
    crate::k8s::catalog::lemma_row_index(resource_type);
    if supported_types().contains(resource_type) {
        let k = choose|k: int|
            0 <= k < supported_types().len() && supported_types()[k] == resource_type;
        assert(resource_table()[k].resource_type == resource_type);
    }
    match row_index(resource_type) {
        Some(j) => {
            assert(supported_types()[j] == resource_type);
        },
        None => {},
    }
}

/// Every resource type listed for a category is supported, and the table
/// lists it with that category.
pub proof fn lemma_category_types_are_supported(category: Seq<char>, t: Seq<char>)
    requires
        category_types(category).contains(t),
    ensures
        supported_types().contains(t),
        exists|j: int|
            0 <= j < resource_table().len() && #[trigger] resource_table()[j].resource_type == t
                && resource_table()[j].category == category,
{
    broadcast use vstd::seq_lib::group_filter_ensures;

    let pred = |row: ResourceRow| in_category(row, category);
    let filtered = resource_table().filter(pred);
    let k = choose|k: int|
        0 <= k < category_types(category).len() && category_types(category)[k] == t;
    let row = filtered[k];
    assert(filtered.contains(row));
    resource_table().lemma_filter_contains_rev(pred, row);
    assert(pred(row));
    let j = choose|j: int| 0 <= j < resource_table().len() && resource_table()[j] == row;
    assert(supported_types()[j] == t);
}

/// The names of the rows of `category` among the first `k` rows.
spec fn prefix_category_types(category: Seq<char>, k: int) -> Seq<Seq<char>> {
    resource_table().take(k).filter(|row: ResourceRow| in_category(row, category)).map_values(
        |row: ResourceRow| row.resource_type,
    )
}

/// The names of the rows of `category` among the first `k` rows are
/// distinct, and are the names of those rows.
proof fn lemma_category_prefix(category: Seq<char>, k: int)
    requires
        0 <= k <= resource_table().len(),
    ensures
        prefix_category_types(category, k).no_duplicates(),
        forall|t: Seq<char>|
            #[trigger] prefix_category_types(category, k).contains(t) <==> exists|j: int|
                0 <= j < k && #[trigger] resource_table()[j].resource_type == t
                    && resource_table()[j].category == category,
    decreases k,
{
    broadcast use vstd::seq_lib::group_filter_ensures;

    crate::k8s::catalog::lemma_types_distinct();
    let pred = |row: ResourceRow| in_category(row, category);
    let name = |row: ResourceRow| row.resource_type;
    assert(prefix_category_types(category, k) == resource_table().take(k).filter(pred).map_values(name));
    if k == 0 {
        let e = resource_table().take(0);
        assert(e =~= Seq::<ResourceRow>::empty());
        assert(e.filter(pred).len() == 0);
        assert(e.filter(pred).map_values(name) =~= Seq::<Seq<char>>::empty());
    } else {
        lemma_category_prefix(category, k - 1);
        let prev = resource_table().take(k - 1);
        assert(prefix_category_types(category, k - 1) == prev.filter(pred).map_values(name));
        let e = resource_table()[k - 1];
        assert(resource_table().take(k) =~= prev.push(e));
        prev.lemma_filter_push(e, pred);
        let fp = prev.filter(pred).map_values(name);
        if pred(e) {
            let f = fp.push(e.resource_type);
            assert(prev.filter(pred).push(e).map_values(name) =~= f);
            if fp.contains(e.resource_type) {
                let j = choose|j: int|
                    0 <= j < k - 1 && #[trigger] resource_table()[j].resource_type
                        == e.resource_type && resource_table()[j].category == category;
                assert(resource_table()[j].resource_type != resource_table()[k - 1].resource_type);
            }
            assert forall|a: int, b: int| 0 <= a < b < f.len() implies f[a] != f[b] by {
                if b == f.len() - 1 {
                    assert(fp.contains(fp[a]));
                }
            }
            assert forall|t: Seq<char>| #[trigger] f.contains(t) <==> exists|j: int|
                0 <= j < k && #[trigger] resource_table()[j].resource_type == t
                    && resource_table()[j].category == category by {
                if f.contains(t) {
                    let i = choose|i: int| 0 <= i < f.len() && f[i] == t;
                    if i < fp.len() {
                        assert(fp.contains(t));
                    } else {
                        assert(resource_table()[k - 1].resource_type == t);
                    }
                }
                if exists|j: int|
                    0 <= j < k && #[trigger] resource_table()[j].resource_type == t
                        && resource_table()[j].category == category {
                    let j = choose|j: int|
                        0 <= j < k && #[trigger] resource_table()[j].resource_type == t
                            && resource_table()[j].category == category;
                    if j < k - 1 {
                        assert(fp.contains(t));
                        let i = choose|i: int| 0 <= i < fp.len() && fp[i] == t;
                        assert(f[i] == t);
                    } else {
                        assert(f[f.len() - 1] == t);
                    }
                }
            }
        } else {
            assert(prev.filter(pred).map_values(name) =~= fp);
            assert forall|t: Seq<char>| #[trigger] fp.contains(t) <==> exists|j: int|
                0 <= j < k && #[trigger] resource_table()[j].resource_type == t
                    && resource_table()[j].category == category by {
                if exists|j: int|
                    0 <= j < k && #[trigger] resource_table()[j].resource_type == t
                        && resource_table()[j].category == category {
                    let j = choose|j: int|
                        0 <= j < k && #[trigger] resource_table()[j].resource_type == t
                            && resource_table()[j].category == category;
                    assert(j < k - 1);
                }
            }
        }
    }
}

/// The categories split the supported resource types: the types listed for
/// a category are listed once each, and they are exactly the types whose
/// configuration names that category. So an unknown category lists nothing,
/// and every supported type is listed under its own category alone.
pub proof fn lemma_categories_partition_types(category: Seq<char>, t: Seq<char>)
    ensures
        category_types(category).no_duplicates(),
        category_types(category).contains(t) <==> (find_row(t) matches Some(row) && row.category
            == category),
{
    lemma_category_prefix(category, resource_table().len() as int);
    assert(resource_table().take(resource_table().len() as int) =~= resource_table());
    assert(prefix_category_types(category, resource_table().len() as int) == category_types(category));
    crate::k8s::catalog::lemma_row_index(t);
    crate::k8s::catalog::lemma_types_distinct();
    let found = exists|j: int|
        0 <= j < resource_table().len() && #[trigger] resource_table()[j].resource_type == t
            && resource_table()[j].category == category;
    assert(category_types(category).contains(t) == found);
    if found {
        let j = choose|j: int|
            0 <= j < resource_table().len() && #[trigger] resource_table()[j].resource_type == t
                && resource_table()[j].category == category;
        match row_index(t) {
            Some(i) => {
                if i != j {
                    if i < j {
                        assert(resource_table()[i].resource_type != resource_table()[j].resource_type);
                    } else {
                        assert(resource_table()[j].resource_type != resource_table()[i].resource_type);
                    }
                }
            },
            None => {
                assert(resource_table()[j].resource_type != t);
            },
        }
    }
    match row_index(t) {
        Some(i) => {
            if resource_table()[i].category == category {
                assert(resource_table()[i].resource_type == t);
            }
        },
        None => {},
    }
}

} // verus!
