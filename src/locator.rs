use vstd::prelude::*;
use crate::secret::{parse_view, Secret, SecretError, SecretView};

verus! {

/// Errors of the identity store.
#[derive(Debug, Clone, PartialEq, Eq)]
pub enum LocatorError {
    /// No identity has the name.
    IdentityNotFound,
    /// The stored text is not a valid secret.
    InvalidSecretFormat,
}

/// Identities: each name is bound to the text of one secret. Names are
/// unique; writing a name replaces what it was bound to.
pub struct Locator {
    entries: Vec<(String, String)>,
    model: Ghost<Map<Seq<char>, Seq<char>>>,
}

impl View for Locator {
    type V = Map<Seq<char>, Seq<char>>;

    closed spec fn view(&self) -> Map<Seq<char>, Seq<char>> {
        self.model@
    }
}

impl Locator {
    /// The entries hold each name once, and exactly the bindings of the map.
    pub closed spec fn wf(&self) -> bool {
        &&& forall|i: int, j: int|
            0 <= i < j < self.entries@.len() ==> #[trigger] self.entries@[i].0@
                != #[trigger] self.entries@[j].0@
        &&& forall|i: int|
            0 <= i < self.entries@.len() ==> #[trigger] self.model@.contains_key(
                self.entries@[i].0@,
            ) && self.model@[self.entries@[i].0@] == self.entries@[i].1@
        &&& forall|k: Seq<char>|
            #[trigger] self.model@.contains_key(k) ==> exists|i: int|
                0 <= i < self.entries@.len() && #[trigger] self.entries@[i].0@ == k
    }

    /// An empty store.
    pub fn new() -> (r: Locator)
        ensures
            r.wf(),
            r@ == Map::<Seq<char>, Seq<char>>::empty(),
    {
        Locator { entries: Vec::new(), model: Ghost(Map::empty()) }
    }

    /// The position of the entry of `name`, if there is one.
    fn find(&self, name: &String) -> (r: Option<usize>)
        requires
            self.wf(),
        ensures
            match r {
                Some(i) => i < self.entries@.len() && self.entries@[i as int].0@ == name@,
                None => !self@.contains_key(name@),
            },
    {
        let mut i: usize = 0;
        while i < self.entries.len()
            invariant
                i <= self.entries@.len(),
                forall|j: int| 0 <= j < i ==> self.entries@[j].0@ != name@,
            decreases self.entries@.len() - i,
        {
            if self.entries[i].0 == *name {
                return Some(i);
            }
            i = i + 1;
        }
        None
    }

    /// Binds `name` to the text of `secret`, replacing any earlier binding.
    pub fn write_identity(&mut self, name: &str, secret: &Secret)
        requires
            old(self).wf(),
        ensures
            final(self).wf(),
            final(self)@ == old(self)@.insert(name@, secret@.text()),
    {
        let key = String::from_str(name);
        let text = secret.format();
        let ghost m = self.model@.insert(name@, text@);
        let ghost before = self.entries@;
        let ghost old_model = self.model@;
        let ghost at: int;
        match self.find(&key) {
            Some(i) => {
                self.entries.set(i, (key, text));
                proof {
                    at = i as int;
                }
            },
            None => {
                self.entries.push((key, text));
                proof {
                    at = before.len() as int;
                    assert forall|j: int| 0 <= j < before.len() implies before[j].0@ != name@ by {
                        assert(old_model.contains_key(before[j].0@));
                    }
                }
            },
        }
        self.model = Ghost(m);
        assert(self.entries@[at].0@ == name@);
        assert forall|j: int| 0 <= j < self.entries@.len() && j != at implies #[trigger] self.entries@[j]
            == before[j] && self.entries@[j].0@ != name@ by {
            assert(old_model.contains_key(before[j].0@));
        }
        assert forall|i: int, j: int|
            0 <= i < j < self.entries@.len() implies #[trigger] self.entries@[i].0@
                != #[trigger] self.entries@[j].0@ by {
            if i != at && j != at {
                assert(self.entries@[i] == before[i] && self.entries@[j] == before[j]);
            }
        }
        assert forall|i: int| 0 <= i < self.entries@.len() implies #[trigger] self.model@.contains_key(
            self.entries@[i].0@,
        ) && self.model@[self.entries@[i].0@] == self.entries@[i].1@ by {
            if i != at {
                assert(self.entries@[i] == before[i]);
                assert(old_model.contains_key(before[i].0@));
            }
        }
        assert forall|k: Seq<char>| #[trigger] self.model@.contains_key(k) implies exists|i: int|
            0 <= i < self.entries@.len() && #[trigger] self.entries@[i].0@ == k by {
            if k == name@ {
                assert(self.entries@[at].0@ == k);
            } else {
                let j = choose|j: int| 0 <= j < before.len() && #[trigger] before[j].0@ == k;
                assert(self.entries@[j] == before[j]);
            }
        }
    }

    /// The secret bound to `name`.
    pub fn read_identity(&self, name: &str) -> (r: Result<Secret, LocatorError>)
        requires
            self.wf(),
        ensures
            match r {
                Ok(s) => self@.contains_key(name@) && parse_view(self@[name@]) == Some(s@),
                Err(LocatorError::IdentityNotFound) => !self@.contains_key(name@),
                Err(LocatorError::InvalidSecretFormat) => self@.contains_key(name@)
                    && parse_view(self@[name@]) is None,
            },
    {
        let key = String::from_str(name);
        match self.find(&key) {
            None => Err(LocatorError::IdentityNotFound),
            Some(i) => match {
                assert(self.model@.contains_key(self.entries@[i as int].0@));
                Secret::parse(self.entries[i].1.as_str())
            } {
                Ok(s) => Ok(s),
                Err(SecretError::InvalidSecretFormat) => Err(LocatorError::InvalidSecretFormat),
            },
        }
    }

    /// The names of all identities, each once.
    pub fn list_identities(&self) -> (r: Vec<String>)
        requires
            self.wf(),
        ensures
            forall|i: int, j: int| 0 <= i < j < r@.len() ==> #[trigger] r@[i]@ != #[trigger] r@[j]@,
            forall|k: Seq<char>|
                self@.contains_key(k) <==> exists|i: int| 0 <= i < r@.len() && #[trigger] r@[i]@ == k,
    {
        let mut r: Vec<String> = Vec::new();
        let mut i: usize = 0;
        while i < self.entries.len()
            invariant
                i <= self.entries@.len(),
                r@.len() == i,
                forall|j: int| 0 <= j < i ==> #[trigger] r@[j]@ == self.entries@[j].0@,
            decreases self.entries@.len() - i,
        {
            r.push(self.entries[i].0.clone());
            i = i + 1;
        }
        assert forall|k: Seq<char>|
            self@.contains_key(k) <==> exists|i: int| 0 <= i < r@.len() && #[trigger] r@[i]@ == k by {
            if self@.contains_key(k) {
                let j = choose|j: int| 0 <= j < self.entries@.len() && #[trigger] self.entries@[j].0@ == k;
                assert(r@[j]@ == k);
            }
            if exists|i: int| 0 <= i < r@.len() && #[trigger] r@[i]@ == k {
                let j = choose|j: int| 0 <= j < r@.len() && #[trigger] r@[j]@ == k;
                assert(self.entries@[j].0@ == k);
            }
        }
        r
    }
}

/// An identity that was written reads back as the secret written, when the
/// secret is valid.
pub proof fn lemma_write_read(before: Map<Seq<char>, Seq<char>>, name: Seq<char>, s: SecretView)
    requires
        s.valid(),
    ensures
        before.insert(name, s.text()).contains_key(name),
        parse_view(before.insert(name, s.text())[name]) == Some(s),
{
    crate::secret::lemma_parse_format(s);
}

} // verus!
