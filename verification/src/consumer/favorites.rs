//! The commerces a consumer marked as favorite.

use vstd::prelude::*;
use crate::keyed::{Keyed, lacks_key, lookup, without_key, remove_key, contains_key, deref_all,
    lemma_lookup, lemma_without_key, Selection, kept_by, select_refs, keep_owned};
use crate::model::Listing;

verus! {

/// A favorite: the commerce, the user who marked it, and the stored record.
#[derive(Clone, Debug)]
pub struct Favorite<F> {
    pub commerce_id: String,
    pub user_id: String,
    pub data: F,
}

/// Favorites are looked up by their commerce.
impl<F> Keyed for Favorite<F> {
    open spec fn key_of(&self) -> Seq<char> {
        self.commerce_id@
    }

    fn key(&self) -> (k: &String) {
        &self.commerce_id
    }
}

/// The favorites, and whether they were read from the local store.
#[derive(Clone, Debug)]
pub struct FavoritesData<F> {
    pub has_loaded: bool,
    pub favorites: Vec<Favorite<F>>,
}

/// The changes the favorites context receives. Added and removed favorites
/// are also saved to or deleted from the local store by the application.
pub enum FavoritesAction<F> {
    LoadFavorites(Vec<Favorite<F>>),
    AddFavorite(Favorite<F>),
    RemoveFavorite(String),
    SetLoaded,
}

impl<F> FavoritesData<F> {
    /// No favorites read yet.
    pub fn new() -> (r: Self)
        ensures
            !r.has_loaded,
            r.favorites@.len() == 0,
    {
        FavoritesData { has_loaded: false, favorites: Vec::new() }
    }

    /// Whether the favorites were read.
    pub fn is_loaded(&self) -> (r: bool)
        ensures
            r == self.has_loaded,
    {
        self.has_loaded
    }

    /// The favorites.
    pub fn get_favorites(&self) -> (r: &Vec<Favorite<F>>)
        ensures
            r@ == self.favorites@,
    {
        &self.favorites
    }

    /// Whether the commerce `commerce_id` is a favorite.
    pub fn is_favorite(&self, commerce_id: &str) -> (r: bool)
        ensures
            r == !lacks_key(self.favorites@, commerce_id@),
    {
        contains_key(&self.favorites, &commerce_id.to_owned())
    }

    /// Applies one change. Removing a commerce drops every favorite of it;
    /// once read, the favorites stay read.
    pub fn reduce(&mut self, action: FavoritesAction<F>)
        ensures
            old(self).has_loaded ==> final(self).has_loaded,
            match action {
                FavoritesAction::LoadFavorites(fs) => {
                    &&& final(self).has_loaded == old(self).has_loaded
                    &&& final(self).favorites@ == fs@
                },
                FavoritesAction::AddFavorite(f) => {
                    &&& final(self).has_loaded == old(self).has_loaded
                    &&& final(self).favorites@ == old(self).favorites@.push(f)
                },
                FavoritesAction::RemoveFavorite(id) => {
                    &&& final(self).has_loaded == old(self).has_loaded
                    &&& final(self).favorites@ == without_key(old(self).favorites@, id@)
                },
                FavoritesAction::SetLoaded => {
                    &&& final(self).has_loaded
                    &&& final(self).favorites@ == old(self).favorites@
                },
            },
    {
        match action {
            FavoritesAction::LoadFavorites(fs) => {
                self.favorites = fs;
            },
            FavoritesAction::AddFavorite(f) => {
                self.favorites.push(f);
            },
            FavoritesAction::RemoveFavorite(id) => {
                remove_key(&mut self.favorites, &id);
            },
            FavoritesAction::SetLoaded => {
                self.has_loaded = true;
            },
        }
    }
}

/// A commerce is a favorite right after it is added, and is not right after
/// it is removed; removing one commerce leaves the others as they were.
pub proof fn lemma_favorite_add_remove<F>(s: Seq<Favorite<F>>, f: Favorite<F>, id: Seq<char>, other: Seq<char>)
    requires
        other != id,
    ensures
        !lacks_key(s.push(f), f.commerce_id@),
        lacks_key(without_key(s, id), id),
        lookup(without_key(s, id), other) == lookup(s, other),
{
    assert(s.push(f)[s.len() as int].key_of() == f.commerce_id@);
    lemma_without_key(s, id);
}

/// The test "the favorite was marked by `user`".
pub open spec fn marked_by<F>(user: Seq<char>) -> spec_fn(Favorite<F>) -> bool {
    |f: Favorite<F>| f.user_id@ == user
}

/// Keeps the favorites that `user` marked.
struct MarkedBy<'b> {
    user: &'b String,
}

impl<'b, F> Selection<Favorite<F>> for MarkedBy<'b> {
    closed spec fn keeps(&self, f: Favorite<F>) -> bool {
        f.user_id@ == self.user@
    }

    fn picks(&self, f: &Favorite<F>) -> (b: bool) {
        f.user_id.eq(self.user)
    }
}

/// The stored favorites of `user`, in their order.
pub fn favorites_of_user<F>(all: Vec<Favorite<F>>, user: &String) -> (r: Vec<Favorite<F>>)
    ensures
        r@ == all@.filter(marked_by::<F>(user@)),
{
    let sel = MarkedBy { user };
    let r = keep_owned(all, &sel);
    assert(kept_by::<Favorite<F>, MarkedBy>(sel) =~= marked_by::<F>(user@));
    r
}

/// The test "some favorite is of this commerce".
pub open spec fn is_favorited<C, F>(favs: Seq<Favorite<F>>) -> spec_fn(Listing<C>) -> bool {
    |c: Listing<C>| !lacks_key(favs, c.id@)
}

/// Keeps the commerces that are among `favorites`.
struct Favored<'b, F> {
    favorites: &'b Vec<Favorite<F>>,
}

impl<'b, C, F> Selection<Listing<C>> for Favored<'b, F> {
    closed spec fn keeps(&self, c: Listing<C>) -> bool {
        !lacks_key(self.favorites@, c.id@)
    }

    fn picks(&self, c: &Listing<C>) -> (b: bool) {
        contains_key(self.favorites, &c.id)
    }
}

/// The commerces that are favorites, in the order of the commerce list.
pub fn favorite_commerces<'a, C, F>(commerces: &'a Vec<Listing<C>>, favorites: &Vec<Favorite<F>>) -> (r: Vec<&'a Listing<C>>)
    ensures
        deref_all(r@) == commerces@.filter(is_favorited::<C, F>(favorites@)),
{
    let sel = Favored { favorites };
    let r = select_refs(commerces, &sel);
    assert(kept_by::<Listing<C>, Favored<F>>(sel) =~= is_favorited::<C, F>(favorites@));
    r
}

} // verus!
