//! The decrypted vault: named entries and the operations on them.
//!
//! The codec treats the vault as an opaque byte payload; this module holds the
//! in-memory shape that payload deserializes into, and the entry-list logic
//! the front end drives: add an entry unless its name is taken, look one up by
//! name, remove one by name. Name uniqueness is an invariant of this layer,
//! not of the envelope.

use vstd::prelude::*;

verus! {

/// One stored credential: a name and its secret.
#[derive(Debug, Clone)]
pub struct PasswordEntry {
    pub name: String,
    pub password: String,
}

/// The decrypted vault: the list of entries, in insertion order.
#[derive(Debug, Clone)]
pub struct PasswordData {
    pub passwords: Vec<PasswordEntry>,
}

impl PasswordData {
    /// Whether some entry carries this name.
    pub open spec fn has_name(self, name: Seq<char>) -> bool {
        exists|i: int|
            0 <= i < self.passwords@.len() && #[trigger] self.passwords@[i].name@ == name
    }

    /// Whether `i` is the first index whose entry carries `name`.
    pub open spec fn is_first_match(self, name: Seq<char>, i: int) -> bool {
        &&& 0 <= i < self.passwords@.len()
        &&& self.passwords@[i].name@ == name
        &&& forall|j: int| 0 <= j < i ==> #[trigger] self.passwords@[j].name@ != name
    }

    /// Entry names are pairwise distinct — the invariant the front end keeps
    /// by only adding through [`PasswordData::add_password`].
    pub open spec fn names_unique(self) -> bool {
        forall|i: int, j: int|
            0 <= i < j < self.passwords@.len() ==> #[trigger] self.passwords@[i].name@
                != #[trigger] self.passwords@[j].name@
    }

    /// An empty vault, the payload a fresh setup seals.
    pub fn new() -> (vault: Self)
        ensures
            vault.passwords@.len() == 0,
            vault.names_unique(),
    {
        PasswordData { passwords: Vec::new() }
    }

    /// The index of the first entry named `name`, if any.
    fn find_index(&self, name: &String) -> (r: Option<usize>)
        ensures
            match r {
                Some(i) => self.is_first_match(name@, i as int),
                None => !self.has_name(name@),
            },
    {
        let n = self.passwords.len();
        for i in 0..n
            invariant
                n == self.passwords@.len(),
                forall|j: int| 0 <= j < i ==> #[trigger] self.passwords@[j].name@ != name@,
        {
            if self.passwords[i].name == *name {
                return Some(i);
            }
        }
        None
    }

    /// Add an entry, unless its name is already taken.
    ///
    /// Returns whether the entry was added: true appends it at the end and
    /// leaves everything before untouched, false (a duplicate name) changes
    /// nothing. Adding never breaks name uniqueness.
    pub fn add_password(&mut self, entry: PasswordEntry) -> (added: bool)
        ensures
            added <==> !old(self).has_name(entry.name@),
            added ==> final(self).passwords@ == old(self).passwords@.push(entry),
            !added ==> *final(self) == *old(self),
            old(self).names_unique() ==> final(self).names_unique(),
    {
        match self.find_index(&entry.name) {
            Some(_) => false,
            None => {
                self.passwords.push(entry);
                proof {
                    assert(old(self).names_unique() ==> self.names_unique()) by {
                        if old(self).names_unique() {
                            assert forall|i: int, j: int|
                                0 <= i < j < self.passwords@.len() implies #[trigger] self
                                .passwords@[i].name@ != #[trigger] self.passwords@[j].name@ by {
                                if j + 1 == self.passwords@.len() {
                                    assert(self.passwords@[i] == old(self).passwords@[i]);
                                }
                            }
                        }
                    }
                }
                true
            },
        }
    }

    /// The secret of the first entry named `name`, if any.
    pub fn get_password_by_name(&self, name: &String) -> (r: Option<&String>)
        ensures
            match r {
                Some(password) => exists|i: int|
                    #[trigger] self.is_first_match(name@, i) && password@ == self.passwords@[i]
                        .password@,
                None => !self.has_name(name@),
            },
    {
        match self.find_index(name) {
            Some(i) => {
                let password = &self.passwords[i].password;
                proof {
                    let idx = i as int;
                    assert(self.is_first_match(name@, idx) && password@ == self.passwords@[idx]
                        .password@);
                }
                Some(password)
            },
            None => None,
        }
    }

    /// Replace the secret of the first entry named `name`.
    ///
    /// Returns whether one was replaced: true keeps every entry's name and
    /// every other entry untouched, false (no such name) changes nothing.
    /// Updating never breaks name uniqueness.
    pub fn update_password_by_name(&mut self, name: &String, password: String) -> (updated: bool)
        ensures
            updated <==> old(self).has_name(name@),
            updated ==> final(self).passwords@.len() == old(self).passwords@.len(),
            updated ==> exists|i: int|
                {
                    &&& #[trigger] old(self).is_first_match(name@, i)
                    &&& final(self).passwords@[i].name@ == old(self).passwords@[i].name@
                    &&& final(self).passwords@[i].password@ == password@
                    &&& forall|j: int|
                        0 <= j < old(self).passwords@.len() && j != i ==> final(self).passwords@[j]
                            == old(self).passwords@[j]
                },
            !updated ==> *final(self) == *old(self),
            old(self).names_unique() ==> final(self).names_unique(),
    {
        match self.find_index(name) {
            Some(i) => {
                let old_entry = self.passwords.remove(i);
                self.passwords.insert(i, PasswordEntry { name: old_entry.name, password });
                proof {
                    let idx = i as int;
                    assert(old(self).is_first_match(name@, idx));
                    assert(forall|j: int|
                        0 <= j < old(self).passwords@.len() && j != idx ==> self.passwords@[j]
                            == old(self).passwords@[j]);
                    assert(old(self).names_unique() ==> self.names_unique()) by {
                        if old(self).names_unique() {
                            assert forall|p: int, q: int|
                                0 <= p < q < self.passwords@.len() implies #[trigger] self
                                .passwords@[p].name@ != #[trigger] self.passwords@[q].name@ by {
                                assert(self.passwords@[p].name@ == old(self).passwords@[p].name@);
                                assert(self.passwords@[q].name@ == old(self).passwords@[q].name@);
                            }
                        }
                    }
                }
                true
            },
            None => false,
        }
    }

    /// Remove the first entry named `name`.
    ///
    /// Returns whether one was removed: true takes exactly that entry out and
    /// keeps every other entry in order, false (no such name) changes nothing.
    /// Removing never breaks name uniqueness.
    pub fn remove_password_by_name(&mut self, name: &String) -> (removed: bool)
        ensures
            removed <==> old(self).has_name(name@),
            removed ==> exists|i: int|
                #[trigger] old(self).is_first_match(name@, i) && final(self).passwords@ == old(
                    self,
                ).passwords@.remove(i),
            !removed ==> *final(self) == *old(self),
            old(self).names_unique() ==> final(self).names_unique(),
    {
        match self.find_index(name) {
            Some(i) => {
                self.passwords.remove(i);
                proof {
                    assert(old(self).is_first_match(name@, i as int) && self.passwords@ == old(
                        self,
                    ).passwords@.remove(i as int));
                    assert(old(self).names_unique() ==> self.names_unique()) by {
                        if old(self).names_unique() {
                            assert forall|p: int, q: int|
                                0 <= p < q < self.passwords@.len() implies #[trigger] self
                                .passwords@[p].name@ != #[trigger] self.passwords@[q].name@ by {
                                let old_p = if p < i { p } else { p + 1 };
                                let old_q = if q < i { q } else { q + 1 };
                                assert(self.passwords@[p] == old(self).passwords@[old_p]);
                                assert(self.passwords@[q] == old(self).passwords@[old_q]);
                            }
                        }
                    }
                }
                true
            },
            None => false,
        }
    }
}

} // verus!
