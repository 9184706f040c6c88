use vstd::prelude::*;

verus! {

/// A backend that maps keys to values.
///
/// Its state is modelled by `contents`, a finite map from the key's
/// characters to the value's characters.
pub trait Storage: Sized {
    /// What the backend holds.
    spec fn contents(&self) -> Map<Seq<char>, Seq<char>>;

    /// The backend's internal invariant.
    spec fn well_formed(&self) -> bool;

    /// Inserts or overwrites `key`, returning the value it held before.
    fn put(&mut self, key: String, value: String) -> (r: Option<String>)
        requires
            old(self).well_formed(),
        ensures
            final(self).well_formed(),
            final(self).contents() == old(self).contents().insert(key@, value@),
            match r {
                Some(p) => old(self).contents().contains_key(key@) && p@ == old(self).contents()[key@],
                None => !old(self).contents().contains_key(key@),
            },
    ;

    /// The value held for `key`, if any.
    fn get(&self, key: &String) -> (r: Option<String>)
        requires
            self.well_formed(),
        ensures
            match r {
                Some(v) => self.contents().contains_key(key@) && v@ == self.contents()[key@],
                None => !self.contents().contains_key(key@),
            },
    ;

    /// The number of distinct keys held.
    fn len(&self) -> (r: usize)
        requires
            self.well_formed(),
        ensures
            self.contents().dom().finite(),
            r as nat == self.contents().dom().len(),
    ;
}

} // verus!
