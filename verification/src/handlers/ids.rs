//! What the endpoint decides that looks a label up among items and
//! containers alike.

use vstd::prelude::*;
use vstd::string::StringExecFns;
use crate::error::AppResult;
use crate::models::{Container, Item};

verus! {

/// Where a label was found.
#[derive(Debug, Clone)]
pub struct IdCheckResponse {
    pub exists: bool,
    pub found_in: Vec<String>,
    pub duplicates: Vec<DuplicateItem>,
}

/// An entity that carries the label: its name and its kind.
#[derive(Debug, Clone)]
pub struct DuplicateItem {
    pub name: String,
    pub item_type: String,
}

/// The mathematical value of a [`DuplicateItem`].
pub struct DuplicateItemView {
    pub name: Seq<char>,
    pub item_type: Seq<char>,
}

impl View for DuplicateItem {
    type V = DuplicateItemView;

    open spec fn view(&self) -> DuplicateItemView {
        DuplicateItemView { name: self.name@, item_type: self.item_type@ }
    }
}

/// The tables in which the label was found: `items` before `containers`.
pub open spec fn tables_found(item: bool, container: bool) -> Seq<Seq<char>> {
    let t0 = Seq::<Seq<char>>::empty();
    let t1 = if item { t0.push("items"@) } else { t0 };
    if container { t1.push("containers"@) } else { t1 }
}

/// The entities that carry the label: the item before the container.
pub open spec fn carriers(item: Option<Seq<char>>, container: Option<Seq<char>>) -> Seq<
    DuplicateItemView,
> {
    let d0 = Seq::<DuplicateItemView>::empty();
    let d1 = match item {
        Some(name) => d0.push(DuplicateItemView { name, item_type: "item"@ }),
        None => d0,
    };
    match container {
        Some(name) => d1.push(DuplicateItemView { name, item_type: "container"@ }),
        None => d1,
    }
}

/// The name of what a lookup found; a lookup that failed, for whatever
/// reason, found nothing.
pub open spec fn found_item(lookup: AppResult<Item>) -> Option<Seq<char>> {
    match lookup {
        Ok(item) => Some(item.name@),
        Err(_) => None,
    }
}

/// The name of what a lookup found; a lookup that failed, for whatever
/// reason, found nothing.
pub open spec fn found_container(lookup: AppResult<Container>) -> Option<Seq<char>> {
    match lookup {
        Ok(container) => Some(container.name@),
        Err(_) => None,
    }
}

/// Puts the two lookups of one label together: whether an item or a
/// container carries it, in which tables it was found, and the names of its
/// carriers.
pub fn check_global_id(item: &AppResult<Item>, container: &AppResult<Container>) -> (r:
    IdCheckResponse)
    ensures
        r.exists == (item is Ok || container is Ok),
        crate::text::texts(r.found_in@) == tables_found(item is Ok, container is Ok),
        Seq::new(r.duplicates@.len(), |i: int| r.duplicates@[i]@) == carriers(
            found_item(*item),
            found_container(*container),
        ),
{
    let mut found_in: Vec<String> = Vec::new();
    let mut duplicates: Vec<DuplicateItem> = Vec::new();
    let mut exists = false;
    if let Ok(found) = item {
        found_in.push(String::from_str("items"));
        duplicates.push(
            DuplicateItem { name: found.name.clone(), item_type: String::from_str("item") },
        );
        exists = true;
    }
    if let Ok(found) = container {
        found_in.push(String::from_str("containers"));
        duplicates.push(
            DuplicateItem { name: found.name.clone(), item_type: String::from_str("container") },
        );
        exists = true;
    }
    proof {
        assert(crate::text::texts(found_in@) =~= tables_found(item is Ok, container is Ok));
        assert(Seq::new(duplicates@.len(), |i: int| duplicates@[i]@) =~= carriers(
            found_item(*item),
            found_container(*container),
        ));
    }
    IdCheckResponse { exists, found_in, duplicates }
}

} // verus!
