//! The commerce's own profile and product menu.

use vstd::prelude::*;

verus! {

/// The business's own profile and menu, and whether the local store and
/// the relays were checked for them.
#[derive(Clone, Debug)]
pub struct CommerceData<P, M> {
    pub checked_db: bool,
    pub checked_relay: bool,
    pub profile: Option<P>,
    pub menu: Option<M>,
}

/// The changes the commerce context receives. The updates are also saved
/// to the local store by the application.
pub enum CommerceDataAction<P, M> {
    CheckedDb,
    CheckedRelay,
    LoadCommerceData(P),
    LoadProductData(M),
    UpdateCommerceProfile(P),
    UpdateProductList(M),
}

impl<P, M> CommerceData<P, M> {
    /// Nothing checked and nothing known yet.
    pub fn new() -> (r: Self)
        ensures
            !r.checked_db,
            !r.checked_relay,
            r.profile is None,
            r.menu is None,
    {
        CommerceData { checked_db: false, checked_relay: false, profile: None, menu: None }
    }

    /// Whether the local store was read.
    pub fn checked_db(&self) -> (r: bool)
        ensures
            r == self.checked_db,
    {
        self.checked_db
    }

    /// Whether the relays answered.
    pub fn checked_relay(&self) -> (r: bool)
        ensures
            r == self.checked_relay,
    {
        self.checked_relay
    }

    /// The commerce's profile, if known.
    pub fn profile(&self) -> (r: Option<&P>)
        ensures
            match r {
                Some(p) => self.profile == Some(*p),
                None => self.profile is None,
            },
    {
        match &self.profile {
            Some(p) => Some(p),
            None => None,
        }
    }

    /// The commerce's menu, if known.
    pub fn menu(&self) -> (r: Option<&M>)
        ensures
            match r {
                Some(m) => self.menu == Some(*m),
                None => self.menu is None,
            },
    {
        match &self.menu {
            Some(m) => Some(m),
            None => None,
        }
    }

    /// Applies one change. A profile or a menu, loaded or updated, replaces
    /// the one held before; the two checks, once made, stay made.
    pub fn reduce(&mut self, action: CommerceDataAction<P, M>)
        ensures
            old(self).checked_db ==> final(self).checked_db,
            old(self).checked_relay ==> final(self).checked_relay,
            match action {
                CommerceDataAction::CheckedDb => {
                    &&& final(self).checked_db
                    &&& final(self).checked_relay == old(self).checked_relay
                    &&& final(self).profile == old(self).profile
                    &&& final(self).menu == old(self).menu
                },
                CommerceDataAction::CheckedRelay => {
                    &&& final(self).checked_db == old(self).checked_db
                    &&& final(self).checked_relay
                    &&& final(self).profile == old(self).profile
                    &&& final(self).menu == old(self).menu
                },
                CommerceDataAction::LoadCommerceData(p) | CommerceDataAction::UpdateCommerceProfile(p) => {
                    &&& final(self).checked_db == old(self).checked_db
                    &&& final(self).checked_relay == old(self).checked_relay
                    &&& final(self).profile == Some(p)
                    &&& final(self).menu == old(self).menu
                },
                CommerceDataAction::LoadProductData(m) | CommerceDataAction::UpdateProductList(m) => {
                    &&& final(self).checked_db == old(self).checked_db
                    &&& final(self).checked_relay == old(self).checked_relay
                    &&& final(self).profile == old(self).profile
                    &&& final(self).menu == Some(m)
                },
            },
    {
        match action {
            CommerceDataAction::CheckedDb => {
                self.checked_db = true;
            },
            CommerceDataAction::CheckedRelay => {
                self.checked_relay = true;
            },
            CommerceDataAction::LoadCommerceData(p) => {
                self.profile = Some(p);
            },
            CommerceDataAction::UpdateCommerceProfile(p) => {
                self.profile = Some(p);
            },
            CommerceDataAction::LoadProductData(m) => {
                self.menu = Some(m);
            },
            CommerceDataAction::UpdateProductList(m) => {
                self.menu = Some(m);
            },
        }
    }
}

} // verus!
