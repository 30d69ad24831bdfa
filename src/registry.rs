use vstd::prelude::*;
use vstd::string::StringExecFns;

verus! {

/// Client instances kept under names, at most one under each name.
pub struct ClientRegistry<C> {
    names: Vec<String>,
    clients: Vec<C>,
    contents: Ghost<Map<Seq<char>, C>>,
}

impl<C> ClientRegistry<C> {
    /// The clients of the registry, by name.
    pub closed spec fn view(&self) -> Map<Seq<char>, C> {
        self.contents@
    }

    /// The names and clients line up, no name occurs twice, and the map of
    /// contents holds exactly the pairs that the two lists hold.
    pub closed spec fn well_formed(&self) -> bool {
        &&& self.names@.len() == self.clients@.len()
        &&& forall|i: int, j: int|
            0 <= i < j < self.names@.len() ==> self.names@[i]@ != self.names@[j]@
        &&& forall|k: Seq<char>|
            self.contents@.contains_key(k) <==> exists|i: int|
                0 <= i < self.names@.len() && self.names@[i]@ == k
        &&& forall|i: int|
            0 <= i < self.names@.len() ==> self.contents@[#[trigger] self.names@[i]@]
                == self.clients@[i]
    }

    /// An empty registry.
    pub fn new() -> (r: Self)
        ensures
            r.well_formed(),
            r@ == Map::<Seq<char>, C>::empty(),
    {
        ClientRegistry { names: Vec::new(), clients: Vec::new(), contents: Ghost(Map::empty()) }
    }

    fn position(&self, name: &String) -> (r: Option<usize>)
        requires
            self.well_formed(),
        ensures
            r is Some ==> r->Some_0 < self.names@.len() && self.names@[r->Some_0 as int]@
                == name@,
            r is None ==> !self@.contains_key(name@),
    {
        let mut i: usize = 0;
        while i < self.names.len()
            invariant
                i <= self.names@.len(),
                self.well_formed(),
                forall|j: int| 0 <= j < i ==> self.names@[j]@ != name@,
            decreases self.names@.len() - i,
        {
            if self.names[i] == *name {
                return Some(i);
            }
            i = i + 1;
        }
        None
    }

    /// The client kept under `name`, if any.
    pub fn get(&self, name: &str) -> (r: Option<&C>)
        requires
            self.well_formed(),
        ensures
            r is Some <==> self@.contains_key(name@),
            r is Some ==> *r->Some_0 == self@[name@],
    {
        let key = String::from_str(name);
        match self.position(&key) {
            Some(i) => Some(&self.clients[i]),
            None => None,
        }
    }

    /// Keeps `client` under `name` unless a client is kept there already;
    /// says whether it was kept.
    pub fn get_instance(&mut self, name: &str, client: C) -> (added: bool)
        requires
            old(self).well_formed(),
        ensures
            final(self).well_formed(),
            added == !old(self)@.contains_key(name@),
            added ==> final(self)@ == old(self)@.insert(name@, client),
            !added ==> final(self)@ == old(self)@,
    {
        let key = String::from_str(name);
        match self.position(&key) {
            Some(_) => false,
            None => {
                let ghost old_names = self.names@;
                self.names.push(key);
                self.clients.push(client);
                self.contents = Ghost(self.contents@.insert(name@, client));
                assert forall|k: Seq<char>|
                    self.contents@.contains_key(k) <==> exists|i: int|
                        0 <= i < self.names@.len() && self.names@[i]@ == k by {
                    if k == name@ {
                        assert(self.names@[old_names.len() as int]@ == k);
                    } else if self.contents@.contains_key(k) {
                        let i = choose|i: int| 0 <= i < old_names.len() && old_names[i]@ == k;
                        assert(self.names@[i]@ == k);
                    }
                }
                true
            },
        }
    }

    /// Drops the client kept under `name`, if any.
    pub fn remove_instance(&mut self, name: &str)
        requires
            old(self).well_formed(),
        ensures
            final(self).well_formed(),
            final(self)@ == old(self)@.remove(name@),
    {
        let key = String::from_str(name);
        match self.position(&key) {
            None => {
                assert(self.contents@.remove(name@) =~= self.contents@);
            },
            Some(p) => {
                let ghost old_names = self.names@;
                let ghost old_clients = self.clients@;
                self.names.remove(p);
                self.clients.remove(p);
                self.contents = Ghost(self.contents@.remove(name@));
                assert forall|i: int, j: int|
                    0 <= i < j < self.names@.len() implies self.names@[i]@ != self.names@[j]@ by {
                    let oi = if i < p { i } else { i + 1 };
                    let oj = if j < p { j } else { j + 1 };
                    assert(self.names@[i] == old_names[oi]);
                    assert(self.names@[j] == old_names[oj]);
                }
                assert forall|k: Seq<char>|
                    self.contents@.contains_key(k) <==> exists|i: int|
                        0 <= i < self.names@.len() && self.names@[i]@ == k by {
                    if self.contents@.contains_key(k) {
                        let oi = choose|oi: int| 0 <= oi < old_names.len() && old_names[oi]@ == k;
                        assert(oi != p);
                        let i = if oi < p { oi } else { oi - 1 };
                        assert(self.names@[i]@ == k);
                    }
                    if exists|i: int| 0 <= i < self.names@.len() && self.names@[i]@ == k {
                        let i = choose|i: int| 0 <= i < self.names@.len() && self.names@[i]@ == k;
                        let oi = if i < p { i } else { i + 1 };
                        assert(old_names[oi]@ == k);
                        assert(oi != p);
                    }
                }
                assert forall|i: int|
                    0 <= i < self.names@.len() implies self.contents@[#[trigger] self.names@[i]@]
                        == self.clients@[i] by {
                    let oi = if i < p { i } else { i + 1 };
                    assert(self.names@[i] == old_names[oi]);
                    assert(self.clients@[i] == old_clients[oi]);
                    assert(oi != p);
                }
            },
        }
    }

    /// Drops every client.
    pub fn clear_all(&mut self)
        requires
            old(self).well_formed(),
        ensures
            final(self).well_formed(),
            final(self)@ == Map::<Seq<char>, C>::empty(),
    {
        self.names = Vec::new();
        self.clients = Vec::new();
        self.contents = Ghost(Map::empty());
    }
}

} // verus!
