//! The courier's own profile.

use vstd::prelude::*;

verus! {

/// A courier profile as stored: the profile record and the signed note it
/// was published in.
#[derive(Clone, Debug)]
pub struct SignedProfile<P, N> {
    pub profile: P,
    pub note: N,
}

/// The courier's profile, if any, and whether the local store and the
/// relays were read.
#[derive(Clone, Debug)]
pub struct DriverData<P, N> {
    pub loaded_db: bool,
    pub loaded_relays: bool,
    pub profile: Option<SignedProfile<P, N>>,
}

/// The changes the courier context receives. A new profile is also saved
/// to, and a deleted one removed from, the local store by the application.
pub enum DriverDataAction<P, N> {
    FinishedLoadingDb,
    FinishedLoadingRelays,
    LoadProfile(SignedProfile<P, N>),
    NewProfile(SignedProfile<P, N>),
    DeleteProfile(SignedProfile<P, N>),
}

impl<P, N> DriverData<P, N> {
    /// Nothing read yet.
    pub fn new() -> (r: Self)
        ensures
            !r.loaded_db,
            !r.loaded_relays,
            r.profile is None,
    {
        DriverData { loaded_db: false, loaded_relays: false, profile: None }
    }

    /// Whether both the local store and the relays were read.
    pub fn finished_loading(&self) -> (r: bool)
        ensures
            r == (self.loaded_db && self.loaded_relays),
    {
        self.loaded_db && self.loaded_relays
    }

    /// The courier's profile record, if any.
    pub fn get_profile(&self) -> (r: Option<&P>)
        ensures
            match r {
                Some(p) => self.profile matches Some(s) && s.profile == *p,
                None => self.profile is None,
            },
    {
        match &self.profile {
            Some(s) => Some(&s.profile),
            None => None,
        }
    }

    /// The note the courier's profile was published in, if any.
    pub fn get_profile_note(&self) -> (r: Option<&N>)
        ensures
            match r {
                Some(n) => self.profile matches Some(s) && s.note == *n,
                None => self.profile is None,
            },
    {
        match &self.profile {
            Some(s) => Some(&s.note),
            None => None,
        }
    }

    /// Applies one change. Reading the local store counts as reading both
    /// sources; once read, a source stays read.
    pub fn reduce(&mut self, action: DriverDataAction<P, N>)
        ensures
            old(self).loaded_db ==> final(self).loaded_db,
            old(self).loaded_relays ==> final(self).loaded_relays,
            match action {
                DriverDataAction::FinishedLoadingDb => {
                    &&& final(self).loaded_db
                    &&& final(self).loaded_relays
                    &&& final(self).profile == old(self).profile
                },
                DriverDataAction::FinishedLoadingRelays => {
                    &&& final(self).loaded_db == old(self).loaded_db
                    &&& final(self).loaded_relays
                    &&& final(self).profile == old(self).profile
                },
                DriverDataAction::LoadProfile(p) => {
                    &&& final(self).loaded_db == old(self).loaded_db
                    &&& final(self).loaded_relays == old(self).loaded_relays
                    &&& final(self).profile == Some(p)
                },
                DriverDataAction::NewProfile(p) => {
                    &&& final(self).loaded_db == old(self).loaded_db
                    &&& final(self).loaded_relays == old(self).loaded_relays
                    &&& final(self).profile == Some(p)
                },
                DriverDataAction::DeleteProfile(_) => {
                    &&& final(self).loaded_db == old(self).loaded_db
                    &&& final(self).loaded_relays == old(self).loaded_relays
                    &&& final(self).profile is None
                },
            },
    {
        match action {
            DriverDataAction::FinishedLoadingDb => {
                self.loaded_db = true;
                self.loaded_relays = true;
            },
            DriverDataAction::FinishedLoadingRelays => {
                self.loaded_relays = true;
            },
            DriverDataAction::LoadProfile(p) => {
                self.profile = Some(p);
            },
            DriverDataAction::NewProfile(p) => {
                self.profile = Some(p);
            },
            DriverDataAction::DeleteProfile(_) => {
                self.profile = None;
            },
        }
    }
}

} // verus!
