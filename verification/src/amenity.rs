use vstd::prelude::*;
use crate::errors::DbError;
use crate::response::StandardResponse;

verus! {

/// A simple named resource with an admin-owned lifecycle.
pub struct Amenity {
    pub id: i64,
    pub name: String,
    pub description: String,
    pub icon: Option<String>,
}

impl Clone for Amenity {
    fn clone(&self) -> (r: Self)
        ensures
            r == *self,
    {
        Amenity {
            id: self.id,
            name: self.name.clone(),
            description: self.description.clone(),
            icon: match &self.icon {
                Some(s) => Some(s.clone()),
                None => None,
            },
        }
    }
}

/// The body of an amenity-creation request.
pub struct CreateAmenity {
    pub name: String,
    pub description: String,
    pub icon: Option<String>,
}

/// The body of an amenity-update request.
pub struct UpdateAmenity {
    pub id: i64,
    pub name: String,
    pub description: String,
    pub icon: Option<String>,
}

/// The amenities table.
pub struct AmenityStore {
    pub items: Vec<Amenity>,
    pub next_id: i64,
}

impl AmenityStore {
    /// Ids are unique and below the next id.
    pub open spec fn wf(self) -> bool {
        &&& (forall|i: int, j: int|
            0 <= i < j < self.items@.len() ==> self.items@[i].id != self.items@[j].id)
        &&& (forall|i: int| 0 <= i < self.items@.len() ==> self.items@[i].id < self.next_id)
    }

    /// An empty table.
    pub fn new() -> (r: Self)
        ensures
            r.items@.len() == 0,
            r.next_id == 1,
            r.wf(),
    {
        AmenityStore { items: Vec::new(), next_id: 1 }
    }

    /// Every amenity, in store order.
    pub fn get_all(&self) -> (r: Vec<Amenity>)
        ensures
            r@ == self.items@,
    {
        let n = self.items.len();
        let mut out: Vec<Amenity> = Vec::new();
        let mut i: usize = 0;
        while i < n
            invariant
                0 <= i <= n,
                n == self.items@.len(),
                out@ == self.items@.take(i as int),
            decreases n - i,
        {
            out.push(self.items[i].clone());
            proof {
                assert(self.items@.take(i + 1) =~= self.items@.take(i as int).push(
                    self.items@[i as int],
                ));
            }
            i += 1;
        }
        proof {
            assert(self.items@.take(n as int) =~= self.items@);
        }
        out
    }

    /// The amenity with this id, if any.
    pub fn find_by_id(&self, id: i64) -> (r: Option<Amenity>)
        ensures
            match r {
                Some(a) => self.items@.contains(a) && a.id == id,
                None => forall|i: int| 0 <= i < self.items@.len() ==> self.items@[i].id != id,
            },
    {
        let n = self.items.len();
        let mut i: usize = 0;
        while i < n
            invariant
                0 <= i <= n,
                n == self.items@.len(),
                forall|j: int| 0 <= j < i ==> self.items@[j].id != id,
            decreases n - i,
        {
            if self.items[i].id == id {
                return Some(self.items[i].clone());
            }
            i += 1;
        }
        None
    }

    /// Appends a fresh amenity built from the request body.
    pub fn create(&mut self, data: &CreateAmenity) -> (r: Amenity)
        requires
            old(self).wf(),
            old(self).next_id < i64::MAX,
        ensures
            final(self).wf(),
            r.id == old(self).next_id,
            r.name == data.name,
            r.description == data.description,
            r.icon == data.icon,
            final(self).items@ == old(self).items@.push(r),
            final(self).next_id == old(self).next_id + 1,
    {
        let rec = Amenity {
            id: self.next_id,
            name: data.name.clone(),
            description: data.description.clone(),
            icon: match &data.icon {
                Some(s) => Some(s.clone()),
                None => None,
            },
        };
        let result = rec.clone();
        self.items.push(rec);
        self.next_id = self.next_id + 1;
        result
    }

    /// Rewrites the fields of the amenity with the request's id, or
    /// reports the not-found outcome and changes nothing.
    pub fn update(&mut self, data: &UpdateAmenity) -> (r: Result<Amenity, DbError>)
        requires
            old(self).wf(),
        ensures
            final(self).wf(),
            final(self).next_id == old(self).next_id,
            match r {
                Ok(a) => {
                    &&& a.id == data.id
                    &&& a.name == data.name
                    &&& a.description == data.description
                    &&& a.icon == data.icon
                    &&& exists|i: int|
                        {
                            &&& 0 <= i < old(self).items@.len()
                            &&& old(self).items@[i].id == data.id
                            &&& final(self).items@ == old(self).items@.update(i, a)
                        }
                },
                Err(e) => {
                    &&& e is RowNotFound
                    &&& (forall|i: int|
                        0 <= i < old(self).items@.len() ==> old(self).items@[i].id != data.id)
                    &&& final(self).items@ == old(self).items@
                },
            },
    {
        let n = self.items.len();
        let mut i: usize = 0;
        while i < n
            invariant
                old(self).wf(),
                0 <= i <= n,
                n == self.items@.len(),
                self.items@ == old(self).items@,
                self.next_id == old(self).next_id,
                forall|j: int| 0 <= j < i ==> self.items@[j].id != data.id,
            decreases n - i,
        {
            if self.items[i].id == data.id {
                self.items[i].name = data.name.clone();
                self.items[i].description = data.description.clone();
                self.items[i].icon = match &data.icon {
                    Some(s) => Some(s.clone()),
                    None => None,
                };
                let updated = self.items[i].clone();
                proof {
                    assert(self.items@ =~= old(self).items@.update(i as int, updated));
                }
                return Ok(updated);
            }
            i += 1;
        }
        Err(DbError::RowNotFound)
    }

    /// Removes the amenity with this id and reports how many rows went:
    /// one when it existed, zero otherwise.
    pub fn delete(&mut self, id: i64) -> (r: u64)
        requires
            old(self).wf(),
        ensures
            final(self).wf(),
            final(self).next_id == old(self).next_id,
            r <= 1,
            r == 1 ==> exists|i: int|
                {
                    &&& 0 <= i < old(self).items@.len()
                    &&& old(self).items@[i].id == id
                    &&& final(self).items@ == old(self).items@.remove(i)
                },
            r == 0 ==> {
                &&& (forall|i: int| 0 <= i < old(self).items@.len() ==> old(self).items@[i].id != id)
                &&& final(self).items@ == old(self).items@
            },
    {
        let n = self.items.len();
        let mut i: usize = 0;
        while i < n
            invariant
                old(self).wf(),
                0 <= i <= n,
                n == self.items@.len(),
                self.items@ == old(self).items@,
                self.next_id == old(self).next_id,
                forall|j: int| 0 <= j < i ==> self.items@[j].id != id,
            decreases n - i,
        {
            if self.items[i].id == id {
                self.items.remove(i);
                return 1;
            }
            i += 1;
        }
        0
    }
}

/// The `GET /amenity/{id}` decision: a found amenity answers 200 inside
/// the envelope; a missing id answers 404 with empty data.
pub fn amenity_by_id_response(found: Option<Amenity>) -> (r: (u16, StandardResponse<Amenity>))
    ensures
        match found {
            Some(a) => {
                &&& r.0 == 200
                &&& r.1.success
                &&& r.1.data == Some(a)
                &&& r.1.message@ == "Amenity found."@
            },
            None => {
                &&& r.0 == 404
                &&& !r.1.success
                &&& r.1.data is None
                &&& r.1.message@ == "Amenity not found."@
            },
        },
{
    match found {
        Some(a) => (200, StandardResponse::ok(a, Some("Amenity found.".to_owned()))),
        None => (404, StandardResponse::error("Amenity not found.".to_owned(), None)),
    }
}

/// The `GET /amenity/` decision: the whole list inside the envelope.
pub fn all_amenities_response(items: Vec<Amenity>) -> (r: (u16, StandardResponse<Vec<Amenity>>))
    ensures
        r.0 == 200,
        r.1.success,
        r.1.data == Some(items),
        r.1.message@ == "Amenities found."@,
{
    (200, StandardResponse::ok(items, Some("Amenities found.".to_owned())))
}

} // verus!
