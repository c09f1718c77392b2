//! The lists the client keeps of records that the server identifies by an
//! integer id: finding one, replacing one after an update, and dropping one
//! after a deletion.

use vstd::prelude::*;
use crate::delivery::DeliveryMark;

verus! {

/// A record identified by an integer id.
pub trait Keyed {
    /// The record's id.
    spec fn key(&self) -> i64;

    /// Reads the record's id.
    fn id(&self) -> (r: i64)
        ensures
            r == self.key();
}

/// A student (a single pupil or a group) as the administration lists it.
#[derive(Clone, Debug, PartialEq, Eq)]
pub struct Student {
    pub id: i64,
    pub name: String,
    pub code: String,
    pub project_id: i64,
}

/// A project as the student list needs it: its id and its name.
#[derive(Clone, Debug, PartialEq, Eq)]
pub struct ProjectRef {
    pub id: i64,
    pub name: String,
}

impl Keyed for Student {
    open spec fn key(&self) -> i64 {
        self.id
    }

    fn id(&self) -> (r: i64) {
        self.id
    }
}

impl Keyed for ProjectRef {
    open spec fn key(&self) -> i64 {
        self.id
    }

    fn id(&self) -> (r: i64) {
        self.id
    }
}

impl Keyed for DeliveryMark {
    open spec fn key(&self) -> i64 {
        self.id
    }

    fn id(&self) -> (r: i64) {
        self.id
    }
}

/// `i` is the first position of a record with `id`.
pub open spec fn first_with_id<T: Keyed>(s: Seq<T>, id: i64, i: int) -> bool {
    &&& 0 <= i < s.len()
    &&& s[i].key() == id
    &&& forall|k: int| 0 <= k < i ==> (#[trigger] s[k]).key() != id
}

/// Some record has `id`.
pub open spec fn has_id<T: Keyed>(s: Seq<T>, id: i64) -> bool {
    exists|i: int| 0 <= i < s.len() && (#[trigger] s[i]).key() == id
}

/// The position of the first record with `id`, as `iter().position` finds it.
pub fn position_by_id<T: Keyed>(list: &Vec<T>, id: i64) -> (r: Option<usize>)
    ensures
        match r {
            Some(i) => first_with_id(list@, id, i as int),
            None => !has_id(list@, id),
        },
{
    let mut i: usize = 0;
    while i < list.len()
        invariant
            i <= list@.len(),
            forall|k: int| 0 <= k < i ==> (#[trigger] list@[k]).key() != id,
        decreases list@.len() - i,
    {
        if list[i].id() == id {
            return Some(i);
        }
        i = i + 1;
    }
    None
}

/// After an update: the first record with the updated record's id is
/// replaced by it; when none has that id the list stays as it is.
pub fn replace_by_id<T: Keyed>(list: &mut Vec<T>, item: T) -> (replaced: bool)
    ensures
        replaced == has_id(old(list)@, item.key()),
        replaced ==> exists|i: int|
            first_with_id(old(list)@, item.key(), i) && final(list)@ == old(list)@.update(i, item),
        !replaced ==> final(list)@ == old(list)@,
{
    let id = item.id();
    match position_by_id(list, id) {
        Some(i) => {
            list.set(i, item);
            assert(first_with_id(old(list)@, item.key(), i as int));
            true
        },
        None => false,
    }
}

/// The records whose id is not `id`.
pub open spec fn without_id<T: Keyed>(s: Seq<T>, id: i64) -> Seq<T> {
    s.filter(other_id::<T>(id))
}

/// The test that a record's id is not `id`.
pub open spec fn other_id<T: Keyed>(id: i64) -> spec_fn(T) -> bool {
    |x: T| x.key() != id
}

/// After a deletion: every record with `id` leaves the list, the others stay
/// in their order.
pub fn remove_by_id<T: Keyed>(list: &mut Vec<T>, id: i64)
    ensures
        final(list)@ == without_id(old(list)@, id),
{
    let ghost orig = list@;
    let ghost pred = other_id::<T>(id);
    let mut i: usize = 0;
    let ghost mut j: int = 0;
    assert(orig.take(0) =~= Seq::<T>::empty());
    assert(orig.take(0).filter(pred) =~= Seq::<T>::empty()) by {
        reveal(Seq::filter);
    }
    assert(list@ =~= orig.take(0).filter(pred) + orig.skip(0));
    while i < list.len()
        invariant
            0 <= j <= orig.len(),
            pred == other_id::<T>(id),
            i == orig.take(j).filter(pred).len(),
            list@ == orig.take(j).filter(pred) + orig.skip(j),
        decreases orig.len() - j,
    {
        let ghost before = list@;
        proof {
            assert(orig.skip(j).len() > 0);
            assert(list@[i as int] == orig[j]);
            assert(orig.take(j + 1) =~= orig.take(j).push(orig[j]));
            orig.take(j).lemma_filter_push(orig[j], pred);
            assert(orig.skip(j).drop_first() =~= orig.skip(j + 1));
        }
        if list[i].id() == id {
            let _gone = list.remove(i);
            proof {
                assert(list@ =~= orig.take(j + 1).filter(pred) + orig.skip(j + 1));
                j = j + 1;
            }
        } else {
            proof {
                assert(list@ =~= orig.take(j + 1).filter(pred) + orig.skip(j + 1));
                j = j + 1;
            }
            i = i + 1;
        }
    }
    proof {
        assert(orig.take(j).filter(pred).len() + orig.skip(j).len() == list@.len());
        assert(orig.skip(j).len() == 0);
        assert(j == orig.len());
        assert(orig.take(j) =~= orig);
        assert(list@ =~= orig.filter(pred));
        assert(orig == old(list)@);
    }
}

} // verus!
