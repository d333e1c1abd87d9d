//! The consumers' profiles and addresses that the business app keeps.

use vstd::prelude::*;
use crate::address::{AddressEntry, ProfileEntry, default_set, set_default_address};
use crate::keyed::{without_key, remove_key};

verus! {

/// The stored consumer profiles and addresses, and whether the local store
/// and the relays were read.
#[derive(Clone, Debug)]
pub struct ConsumerData<P, A> {
    pub loaded_db: bool,
    pub loaded_relays: bool,
    pub profile: Vec<ProfileEntry<P>>,
    pub addresses: Vec<AddressEntry<A>>,
}

/// The changes the consumer context receives. New and deleted entries are
/// also saved to or deleted from the local store by the application.
pub enum ConsumerDataAction<P, A> {
    FinishedLoadingDb,
    FinishedLoadingRelays,
    LoadProfile(Vec<ProfileEntry<P>>),
    LoadAddresses(Vec<AddressEntry<A>>),
    SetDefaultAddress(AddressEntry<A>),
    NewAddress(AddressEntry<A>),
    DeleteAddress(AddressEntry<A>),
    NewProfile(ProfileEntry<P>),
    DeleteProfile(ProfileEntry<P>),
}

impl<P, A> ConsumerData<P, A> {
    /// Nothing loaded yet.
    pub fn new() -> (r: Self)
        ensures
            !r.loaded_db,
            !r.loaded_relays,
            r.profile@.len() == 0,
            r.addresses@.len() == 0,
    {
        ConsumerData { loaded_db: false, loaded_relays: false, profile: Vec::new(), addresses: Vec::new() }
    }

    /// Whether both the local store and the relays were read.
    pub fn finished_loading(&self) -> (r: bool)
        ensures
            r == (self.loaded_db && self.loaded_relays),
    {
        self.loaded_db && self.loaded_relays
    }

    /// The stored profiles.
    pub fn get_profiles(&self) -> (r: &Vec<ProfileEntry<P>>)
        ensures
            r@ == self.profile@,
    {
        &self.profile
    }

    /// The stored addresses.
    pub fn get_addresses(&self) -> (r: &Vec<AddressEntry<A>>)
        ensures
            r@ == self.addresses@,
    {
        &self.addresses
    }

    /// The stored profile entries.
    pub fn get_consumer_entries(&self) -> (r: &Vec<ProfileEntry<P>>)
        ensures
            r@ == self.profile@,
    {
        &self.profile
    }

    /// The stored address entries.
    pub fn get_address_entries(&self) -> (r: &Vec<AddressEntry<A>>)
        ensures
            r@ == self.addresses@,
    {
        &self.addresses
    }

    /// Applies one change. Reading the local store counts as reading both
    /// sources; a deleted entry takes every entry with its id or key along;
    /// once read, a source stays read.
    pub fn reduce(&mut self, action: ConsumerDataAction<P, A>)
        ensures
            old(self).loaded_db ==> final(self).loaded_db,
            old(self).loaded_relays ==> final(self).loaded_relays,
            match action {
                ConsumerDataAction::FinishedLoadingDb => {
                    &&& final(self).loaded_db
                    &&& final(self).loaded_relays
                    &&& final(self).profile@ == old(self).profile@
                    &&& final(self).addresses@ == old(self).addresses@
                },
                ConsumerDataAction::FinishedLoadingRelays => {
                    &&& final(self).loaded_db == old(self).loaded_db
                    &&& final(self).loaded_relays
                    &&& final(self).profile@ == old(self).profile@
                    &&& final(self).addresses@ == old(self).addresses@
                },
                ConsumerDataAction::LoadProfile(ps) => {
                    &&& final(self).loaded_db == old(self).loaded_db
                    &&& final(self).loaded_relays == old(self).loaded_relays
                    &&& final(self).profile@ == ps@
                    &&& final(self).addresses@ == old(self).addresses@
                },
                ConsumerDataAction::LoadAddresses(addrs) => {
                    &&& final(self).loaded_db == old(self).loaded_db
                    &&& final(self).loaded_relays == old(self).loaded_relays
                    &&& final(self).profile@ == old(self).profile@
                    &&& final(self).addresses@ == addrs@
                },
                ConsumerDataAction::SetDefaultAddress(a) => {
                    &&& final(self).loaded_db == old(self).loaded_db
                    &&& final(self).loaded_relays == old(self).loaded_relays
                    &&& final(self).profile@ == old(self).profile@
                    &&& default_set(old(self).addresses@, final(self).addresses@, a.id@)
                },
                ConsumerDataAction::NewAddress(a) => {
                    &&& final(self).loaded_db == old(self).loaded_db
                    &&& final(self).loaded_relays == old(self).loaded_relays
                    &&& final(self).profile@ == old(self).profile@
                    &&& final(self).addresses@ == old(self).addresses@.push(a)
                },
                ConsumerDataAction::DeleteAddress(a) => {
                    &&& final(self).loaded_db == old(self).loaded_db
                    &&& final(self).loaded_relays == old(self).loaded_relays
                    &&& final(self).profile@ == old(self).profile@
                    &&& final(self).addresses@ == without_key(old(self).addresses@, a.id@)
                },
                ConsumerDataAction::NewProfile(p) => {
                    &&& final(self).loaded_db == old(self).loaded_db
                    &&& final(self).loaded_relays == old(self).loaded_relays
                    &&& final(self).profile@ == old(self).profile@.push(p)
                    &&& final(self).addresses@ == old(self).addresses@
                },
                ConsumerDataAction::DeleteProfile(p) => {
                    &&& final(self).loaded_db == old(self).loaded_db
                    &&& final(self).loaded_relays == old(self).loaded_relays
                    &&& final(self).profile@ == without_key(old(self).profile@, p.pubkey@)
                    &&& final(self).addresses@ == old(self).addresses@
                },
            },
    {
        match action {
            ConsumerDataAction::FinishedLoadingDb => {
                self.loaded_db = true;
                self.loaded_relays = true;
            },
            ConsumerDataAction::FinishedLoadingRelays => {
                self.loaded_relays = true;
            },
            ConsumerDataAction::LoadProfile(ps) => {
                self.profile = ps;
            },
            ConsumerDataAction::LoadAddresses(addrs) => {
                self.addresses = addrs;
            },
            ConsumerDataAction::SetDefaultAddress(a) => {
                set_default_address(&mut self.addresses, &a.id);
            },
            ConsumerDataAction::NewAddress(a) => {
                self.addresses.push(a);
            },
            ConsumerDataAction::DeleteAddress(a) => {
                remove_key(&mut self.addresses, &a.id);
            },
            ConsumerDataAction::NewProfile(p) => {
                self.profile.push(p);
            },
            ConsumerDataAction::DeleteProfile(p) => {
                remove_key(&mut self.profile, &p.pubkey);
            },
        }
    }
}

} // verus!
