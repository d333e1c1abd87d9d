//! The consumer's own profile and delivery addresses.

use vstd::prelude::*;
use crate::address::{AddressEntry, default_set, first_default, set_default_address, default_address};
use crate::keyed::{without_key, remove_key};

verus! {

/// The consumer's profile and addresses, and whether the local store and
/// the relays were read.
#[derive(Clone, Debug)]
pub struct ConsumerData<P, A> {
    pub loaded_db: bool,
    pub loaded_relays: bool,
    pub profile: Option<P>,
    pub addresses: Vec<AddressEntry<A>>,
}

/// The changes the consumer context receives. New and deleted entries are
/// also saved to or deleted from the local store by the application.
pub enum ConsumerDataAction<P, A> {
    FinishedLoadingDb,
    FinishedLoadingRelays,
    LoadProfile(P),
    LoadAddresses(Vec<AddressEntry<A>>),
    SetDefaultAddress(AddressEntry<A>),
    NewAddress(AddressEntry<A>),
    DeleteAddress(AddressEntry<A>),
    NewProfile(P),
    DeleteProfile(P),
}

impl<P, A> ConsumerData<P, A> {
    /// Nothing loaded yet.
    pub fn new() -> (r: Self)
        ensures
            !r.loaded_db,
            !r.loaded_relays,
            r.profile is None,
            r.addresses@.len() == 0,
    {
        ConsumerData { loaded_db: false, loaded_relays: false, profile: None, addresses: Vec::new() }
    }

    /// Whether both the local store and the relays were read.
    pub fn finished_loading(&self) -> (r: bool)
        ensures
            r == (self.loaded_db && self.loaded_relays),
    {
        self.loaded_db && self.loaded_relays
    }

    /// The consumer's profile, if known.
    pub fn get_profile(&self) -> (r: Option<&P>)
        ensures
            match r {
                Some(p) => self.profile == Some(*p),
                None => self.profile is None,
            },
    {
        match &self.profile {
            Some(p) => Some(p),
            None => None,
        }
    }

    /// The addresses.
    pub fn get_addresses(&self) -> (r: &Vec<AddressEntry<A>>)
        ensures
            r@ == self.addresses@,
    {
        &self.addresses
    }

    /// The first address marked as default.
    pub fn get_default_address(&self) -> (r: Option<&AddressEntry<A>>)
        ensures
            match r {
                Some(a) => first_default(self.addresses@) == Some(*a),
                None => first_default(self.addresses@) is None,
            },
    {
        default_address(&self.addresses)
    }

    /// The address entries.
    pub fn get_address_entrys(&self) -> (r: &Vec<AddressEntry<A>>)
        ensures
            r@ == self.addresses@,
    {
        &self.addresses
    }

    /// Applies one change. Reading the local store counts as reading both
    /// sources; a new profile replaces the one held and a deleted one leaves
    /// none; a deleted address takes every address with its id along; once
    /// read, a source stays read.
    pub fn reduce(&mut self, action: ConsumerDataAction<P, A>)
        ensures
            old(self).loaded_db ==> final(self).loaded_db,
            old(self).loaded_relays ==> final(self).loaded_relays,
            match action {
                ConsumerDataAction::FinishedLoadingDb => {
                    &&& final(self).loaded_db && final(self).loaded_relays
                    &&& final(self).profile == old(self).profile
                    &&& final(self).addresses@ == old(self).addresses@
                },
                ConsumerDataAction::FinishedLoadingRelays => {
                    &&& final(self).loaded_db == old(self).loaded_db && final(self).loaded_relays
                    &&& final(self).profile == old(self).profile
                    &&& final(self).addresses@ == old(self).addresses@
                },
                ConsumerDataAction::LoadProfile(p) | ConsumerDataAction::NewProfile(p) => {
                    &&& final(self).loaded_db == old(self).loaded_db
                    &&& final(self).loaded_relays == old(self).loaded_relays
                    &&& final(self).profile == Some(p)
                    &&& final(self).addresses@ == old(self).addresses@
                },
                ConsumerDataAction::DeleteProfile(_) => {
                    &&& final(self).loaded_db == old(self).loaded_db
                    &&& final(self).loaded_relays == old(self).loaded_relays
                    &&& final(self).profile is None
                    &&& final(self).addresses@ == old(self).addresses@
                },
                ConsumerDataAction::LoadAddresses(addrs) => {
                    &&& final(self).loaded_db == old(self).loaded_db
                    &&& final(self).loaded_relays == old(self).loaded_relays
                    &&& final(self).profile == old(self).profile
                    &&& final(self).addresses@ == addrs@
                },
                ConsumerDataAction::SetDefaultAddress(a) => {
                    &&& final(self).loaded_db == old(self).loaded_db
                    &&& final(self).loaded_relays == old(self).loaded_relays
                    &&& final(self).profile == old(self).profile
                    &&& default_set(old(self).addresses@, final(self).addresses@, a.id@)
                },
                ConsumerDataAction::NewAddress(a) => {
                    &&& final(self).loaded_db == old(self).loaded_db
                    &&& final(self).loaded_relays == old(self).loaded_relays
                    &&& final(self).profile == old(self).profile
                    &&& final(self).addresses@ == old(self).addresses@.push(a)
                },
                ConsumerDataAction::DeleteAddress(a) => {
                    &&& final(self).loaded_db == old(self).loaded_db
                    &&& final(self).loaded_relays == old(self).loaded_relays
                    &&& final(self).profile == old(self).profile
                    &&& final(self).addresses@ == without_key(old(self).addresses@, a.id@)
                },
            },
    {
        match action {
            ConsumerDataAction::FinishedLoadingDb => {
                self.loaded_db = true;
                self.loaded_relays = true;
            },
            ConsumerDataAction::FinishedLoadingRelays => {
                self.loaded_relays = true;
            },
            ConsumerDataAction::LoadProfile(p) => {
                self.profile = Some(p);
            },
            ConsumerDataAction::NewProfile(p) => {
                self.profile = Some(p);
            },
            ConsumerDataAction::DeleteProfile(_) => {
                self.profile = None;
            },
            ConsumerDataAction::LoadAddresses(addrs) => {
                self.addresses = addrs;
            },
            ConsumerDataAction::SetDefaultAddress(a) => {
                set_default_address(&mut self.addresses, &a.id);
            },
            ConsumerDataAction::NewAddress(a) => {
                self.addresses.push(a);
            },
            ConsumerDataAction::DeleteAddress(a) => {
                remove_key(&mut self.addresses, &a.id);
            },
        }
    }
}

/// After the default is set to an address that is stored, that address is
/// the default one a lookup finds.
pub proof fn lemma_set_default_found<A>(s: Seq<AddressEntry<A>>, t: Seq<AddressEntry<A>>, id: Seq<char>, i: int)
    requires
        default_set(s, t, id),
        0 <= i < s.len(),
        s[i].id@ == id,
        forall|j: int| 0 <= j < i ==> #[trigger] s[j].id@ != id,
    ensures
        first_default(t) == Some(t[i]),
        t[i].id@ == id,
    decreases i,
{
    if i > 0 {
        assert(t[0].is_default == (s[0].id@ == id));
        assert(!t[0].is_default);
        let s1 = s.drop_first();
        let t1 = t.drop_first();
        assert forall|j: int| 0 <= j < s1.len() implies {
            &&& (#[trigger] t1[j]).id == s1[j].id
            &&& t1[j].address == s1[j].address
            &&& t1[j].is_default == (s1[j].id@ == id)
        } by {
            assert(t[j + 1].id == s[j + 1].id);
        }
        assert forall|j: int| 0 <= j < i - 1 implies #[trigger] s1[j].id@ != id by {
            assert(s[j + 1].id@ != id);
        }
        lemma_set_default_found(s1, t1, id, i - 1);
    } else {
        assert(t[0].is_default);
    }
}

} // verus!
