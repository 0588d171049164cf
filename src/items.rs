//! An in-memory item store: create, read, update, delete and list in
//! creation order.

use crate::error::DatabaseError;
use crate::models::{opt_view, CreateItemRequest, UpdateItemRequest};
use crate::text::{lemma_position, position, same_text};
use vstd::prelude::*;

verus! {

/// A stored item. Times are milliseconds since the Unix epoch.
#[derive(Debug)]
pub struct Item {
    pub id: String,
    pub name: String,
    pub description: Option<String>,
    pub created_at: u64,
    pub updated_at: u64,
}

/// What an item holds.
pub struct ItemView {
    pub id: Seq<char>,
    pub name: Seq<char>,
    pub description: Option<Seq<char>>,
    pub created_at: u64,
    pub updated_at: u64,
}

impl View for Item {
    type V = ItemView;

    open spec fn view(&self) -> ItemView {
        ItemView {
            id: self.id@,
            name: self.name@,
            description: opt_view(self.description),
            created_at: self.created_at,
            updated_at: self.updated_at,
        }
    }
}

fn copy_text(o: &Option<String>) -> (r: Option<String>)
    ensures
        opt_view(r) == opt_view(*o),
{
    match o {
        Some(s) => Some(s.clone()),
        None => None,
    }
}

impl Item {
    /// A copy of the item.
    pub fn duplicate(&self) -> (r: Item)
        ensures
            r@ == self@,
    {
        Item {
            id: self.id.clone(),
            name: self.name.clone(),
            description: copy_text(&self.description),
            created_at: self.created_at,
            updated_at: self.updated_at,
        }
    }
}

/// The ids of `items`, in order.
pub open spec fn ids(items: Seq<ItemView>) -> Seq<Seq<char>> {
    items.map_values(|x: ItemView| x.id)
}

/// An item after an update at `now`: a given name or description replaces
/// the old one, and the update time is `now`.
pub open spec fn updated(it: ItemView, name: Option<Seq<char>>, description: Option<Seq<char>>, now: u64) -> ItemView {
    ItemView {
        id: it.id,
        name: match name {
            Some(n) => n,
            None => it.name,
        },
        description: match description {
            Some(d) => Some(d),
            None => it.description,
        },
        created_at: it.created_at,
        updated_at: now,
    }
}

/// The page of `items` that starts at `offset` and holds at most `limit` items.
pub open spec fn page(items: Seq<ItemView>, limit: int, offset: int) -> Seq<ItemView> {
    let start = if offset < items.len() {
        offset
    } else {
        items.len() as int
    };
    let end = if start + limit < items.len() {
        start + limit
    } else {
        items.len() as int
    };
    items.subrange(start, end)
}

/// Items kept in memory, in the order they were created.
pub struct InMemoryRepository {
    items: Vec<Item>,
}

impl View for InMemoryRepository {
    type V = Seq<ItemView>;

    closed spec fn view(&self) -> Seq<ItemView> {
        self.items@.map_values(|x: Item| x@)
    }
}

impl Default for InMemoryRepository {
    fn default() -> (r: Self)
        ensures
            r@.len() == 0,
    {
        InMemoryRepository::new()
    }
}

impl InMemoryRepository {
    pub fn new() -> (r: Self)
        ensures
            r@.len() == 0,
    {
        let r = InMemoryRepository { items: Vec::new() };
        assert(r@ =~= Seq::<ItemView>::empty());
        r
    }

    fn find(&self, id: &str) -> (r: Option<usize>)
        ensures
            r matches Some(i) ==> position(ids(self@), id@) == Some(i as int) && i < self@.len(),
            r is None ==> position(ids(self@), id@) is None,
    {
        let ghost names = ids(self@);
        let mut i: usize = 0;
        while i < self.items.len()
            invariant
                names == ids(self@),
                i <= self.items@.len(),
                forall|k: int| 0 <= k < i ==> names[k] != id@,
            decreases self.items@.len() - i,
        {
            if same_text(self.items[i].id.as_str(), id) {
                proof {
                    assert(names[i as int] == self.items@[i as int].id@);
                    lemma_position(names, id@, i as int);
                }
                return Some(i);
            }
            proof {
                assert(names[i as int] == self.items@[i as int].id@);
            }
            i = i + 1;
        }
        proof {
            lemma_position(names, id@, i as int);
        }
        None
    }

    /// Stores a new item under `id`, created at `now`; an id already in use
    /// is a query error and stores nothing.
    pub fn create(&mut self, id: String, request: CreateItemRequest, now: u64) -> (r: Result<Item, DatabaseError>)
        ensures
            position(ids(old(self)@), id@) is Some ==> (r matches Err(e) && e is QueryError) && final(self)@
                == old(self)@,
            position(ids(old(self)@), id@) is None ==> (r matches Ok(it) && it@ == ItemView {
                id: id@,
                name: request.name@,
                description: opt_view(request.description),
                created_at: now,
                updated_at: now,
            } && final(self)@ == old(self)@.push(it@)),
    {
        if self.find(id.as_str()).is_some() {
            return Err(DatabaseError::QueryError("Item id already in use".to_owned()));
        }
        let item = Item {
            id,
            name: request.name,
            description: request.description,
            created_at: now,
            updated_at: now,
        };
        let copy = item.duplicate();
        let ghost before = self@;
        self.items.push(item);
        proof {
            assert(self@ =~= before.push(copy@));
        }
        Ok(copy)
    }

    /// The item stored under `id`, or "not found".
    pub fn get(&self, id: &str) -> (r: Result<Item, DatabaseError>)
        ensures
            position(ids(self@), id@) matches Some(i) ==> (r matches Ok(it) && it@ == self@[i]),
            position(ids(self@), id@) is None ==> (r matches Err(e) && e is NotFound),
    {
        match self.find(id) {
            Some(i) => Ok(self.items[i].duplicate()),
            None => Err(DatabaseError::NotFound),
        }
    }

    /// Applies `request` to the item stored under `id` at `now`, or "not found".
    pub fn update(&mut self, id: &str, request: UpdateItemRequest, now: u64) -> (r: Result<Item, DatabaseError>)
        ensures
            position(ids(old(self)@), id@) matches Some(i) ==> {
                let new_item = updated(old(self)@[i], opt_view(request.name), opt_view(request.description), now);
                &&& r matches Ok(it) && it@ == new_item
                &&& final(self)@ == old(self)@.update(i, new_item)
            },
            position(ids(old(self)@), id@) is None ==> (r matches Err(e) && e is NotFound) && final(self)@
                == old(self)@,
    {
        match self.find(id) {
            Some(i) => {
                let old_item = self.items[i].duplicate();
                let name = match request.name {
                    Some(n) => n,
                    None => old_item.name,
                };
                let description = match request.description {
                    Some(d) => Some(d),
                    None => old_item.description,
                };
                let item = Item {
                    id: old_item.id,
                    name,
                    description,
                    created_at: old_item.created_at,
                    updated_at: now,
                };
                let copy = item.duplicate();
                let ghost before = self@;
                self.items.set(i, item);
                proof {
                    assert(self@ =~= before.update(i as int, copy@));
                }
                Ok(copy)
            },
            None => Err(DatabaseError::NotFound),
        }
    }

    /// Removes the item stored under `id`, or "not found".
    pub fn delete(&mut self, id: &str) -> (r: Result<(), DatabaseError>)
        ensures
            position(ids(old(self)@), id@) matches Some(i) ==> r is Ok && final(self)@ == old(self)@.remove(i),
            position(ids(old(self)@), id@) is None ==> (r matches Err(e) && e is NotFound) && final(self)@
                == old(self)@,
    {
        match self.find(id) {
            Some(i) => {
                let ghost before = self@;
                self.items.remove(i);
                proof {
                    assert(self@ =~= before.remove(i as int));
                }
                Ok(())
            },
            None => Err(DatabaseError::NotFound),
        }
    }

    /// At most `limit` items from position `offset` on, in creation order.
    pub fn list(&self, limit: usize, offset: usize) -> (r: Vec<Item>)
        ensures
            r@.map_values(|x: Item| x@) == page(self@, limit as int, offset as int),
    {
        let n = self.items.len();
        let start = if offset < n {
            offset
        } else {
            n
        };
        let end = if limit < n - start {
            start + limit
        } else {
            n
        };
        let mut out: Vec<Item> = Vec::new();
        let mut k = start;
        while k < end
            invariant
                start <= k <= end <= n,
                n == self.items@.len(),
                out@.map_values(|x: Item| x@) == self@.subrange(start as int, k as int),
            decreases end - k,
        {
            let ghost before = out@.map_values(|x: Item| x@);
            out.push(self.items[k].duplicate());
            proof {
                assert(out@.map_values(|x: Item| x@) =~= before.push(self@[k as int]));
                assert(self@.subrange(start as int, k + 1) =~= self@.subrange(start as int, k as int).push(
                    self@[k as int],
                ));
            }
            k = k + 1;
        }
        proof {
            assert(out@.map_values(|x: Item| x@) =~= page(self@, limit as int, offset as int));
        }
        out
    }

    /// The number of stored items.
    pub fn count(&self) -> (r: usize)
        ensures
            r == self@.len(),
    {
        self.items.len()
    }

    /// The store is always reachable.
    pub fn health_check(&self) -> (r: Result<(), DatabaseError>)
        ensures
            r is Ok,
    {
        Ok(())
    }
}

} // verus!
