//! The commerces a courier picks orders up from, and their menus.

use vstd::prelude::*;
use crate::keyed::{lookup, upserted, upsert, find_by_key};
use crate::model::Listing;
use crate::consumer::commerce_data::MenuListing;

verus! {

/// The commerce profiles and menus the courier app keeps, and whether the
/// local store and the relays were read.
#[derive(Clone, Debug)]
pub struct CommerceData<C, P, M> {
    pub loaded_db: bool,
    pub loaded_relays: bool,
    pub commerces: Vec<Listing<C>>,
    pub products_lists: Vec<MenuListing<P, M>>,
}

/// The changes the commerce context receives. Updated profiles and menus
/// are also saved to the local store by the application.
pub enum CommerceDataAction<C, P, M> {
    FinishedLoadingRelays,
    FinishedLoadingDb,
    LoadCommerceData(Vec<Listing<C>>),
    LoadProductData(Vec<MenuListing<P, M>>),
    UpdateCommerceProfile(Listing<C>),
    UpdateProductList(MenuListing<P, M>),
}

impl<C, P, M> CommerceData<C, P, M> {
    /// No commerces yet; the courier app starts out counting both sources as
    /// read.
    pub fn new() -> (r: Self)
        ensures
            r.loaded_db,
            r.loaded_relays,
            r.commerces@.len() == 0,
            r.products_lists@.len() == 0,
    {
        CommerceData { loaded_db: true, loaded_relays: true, commerces: Vec::new(), products_lists: Vec::new() }
    }

    /// Whether both the local store and the relays were read.
    pub fn finished_loading(&self) -> (r: bool)
        ensures
            r == (self.loaded_db && self.loaded_relays),
    {
        self.loaded_db && self.loaded_relays
    }

    /// The commerce profiles.
    pub fn commerces(&self) -> (r: &Vec<Listing<C>>)
        ensures
            r@ == self.commerces@,
    {
        &self.commerces
    }

    /// The menus.
    pub fn products_lists(&self) -> (r: &Vec<MenuListing<P, M>>)
        ensures
            r@ == self.products_lists@,
    {
        &self.products_lists
    }

    /// The first commerce with the given id.
    pub fn find_commerce(&self, id: &str) -> (r: Option<&Listing<C>>)
        ensures
            match r {
                Some(c) => lookup(self.commerces@, id@) == Some(*c),
                None => lookup(self.commerces@, id@) is None,
            },
    {
        let key = id.to_owned();
        find_by_key(&self.commerces, &key)
    }

    /// Applies one change. An updated profile or menu replaces every entry
    /// with its id and goes last; once read, a source stays read.
    pub fn reduce(&mut self, action: CommerceDataAction<C, P, M>)
        ensures
            old(self).loaded_db ==> final(self).loaded_db,
            old(self).loaded_relays ==> final(self).loaded_relays,
            match action {
                CommerceDataAction::FinishedLoadingRelays => {
                    &&& final(self).loaded_db == old(self).loaded_db
                    &&& final(self).loaded_relays
                    &&& final(self).commerces@ == old(self).commerces@
                    &&& final(self).products_lists@ == old(self).products_lists@
                },
                CommerceDataAction::FinishedLoadingDb => {
                    &&& final(self).loaded_db
                    &&& final(self).loaded_relays == old(self).loaded_relays
                    &&& final(self).commerces@ == old(self).commerces@
                    &&& final(self).products_lists@ == old(self).products_lists@
                },
                CommerceDataAction::LoadCommerceData(v) => {
                    &&& final(self).loaded_db == old(self).loaded_db
                    &&& final(self).loaded_relays == old(self).loaded_relays
                    &&& final(self).commerces@ == v@
                    &&& final(self).products_lists@ == old(self).products_lists@
                },
                CommerceDataAction::LoadProductData(v) => {
                    &&& final(self).loaded_db == old(self).loaded_db
                    &&& final(self).loaded_relays == old(self).loaded_relays
                    &&& final(self).commerces@ == old(self).commerces@
                    &&& final(self).products_lists@ == v@
                },
                CommerceDataAction::UpdateCommerceProfile(c) => {
                    &&& final(self).loaded_db == old(self).loaded_db
                    &&& final(self).loaded_relays == old(self).loaded_relays
                    &&& final(self).commerces@ == upserted(old(self).commerces@, c)
                    &&& final(self).products_lists@ == old(self).products_lists@
                },
                CommerceDataAction::UpdateProductList(m) => {
                    &&& final(self).loaded_db == old(self).loaded_db
                    &&& final(self).loaded_relays == old(self).loaded_relays
                    &&& final(self).commerces@ == old(self).commerces@
                    &&& final(self).products_lists@ == upserted(old(self).products_lists@, m)
                },
            },
    {
        match action {
            CommerceDataAction::FinishedLoadingRelays => {
                self.loaded_relays = true;
            },
            CommerceDataAction::FinishedLoadingDb => {
                self.loaded_db = true;
            },
            CommerceDataAction::LoadCommerceData(v) => {
                self.commerces = v;
            },
            CommerceDataAction::LoadProductData(v) => {
                self.products_lists = v;
            },
            CommerceDataAction::UpdateCommerceProfile(c) => {
                upsert(&mut self.commerces, c);
            },
            CommerceDataAction::UpdateProductList(m) => {
                upsert(&mut self.products_lists, m);
            },
        }
    }
}

} // verus!
