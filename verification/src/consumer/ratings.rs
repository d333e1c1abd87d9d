//! The ratings of the platform's participants.

use vstd::prelude::*;
use crate::keyed::{Keyed, lookup, replaced_or_pushed, replace_or_push, find_by_key,
    lemma_replaced_or_pushed};
use crate::model::OrderParticipant;

verus! {

/// A rating of a participant: its public key, its role, and the record.
#[derive(Clone, Debug)]
pub struct Rating<R> {
    pub pubkey: String,
    pub participant: OrderParticipant,
    pub data: R,
}

/// Ratings are looked up by the public key they rate.
impl<R> Keyed for Rating<R> {
    open spec fn key_of(&self) -> Seq<char> {
        self.pubkey@
    }

    fn key(&self) -> (k: &String) {
        &self.pubkey
    }
}

/// The first rating of `pubkey` as a commerce.
pub open spec fn business_rating<R>(s: Seq<Rating<R>>, pubkey: Seq<char>) -> Option<Rating<R>>
    decreases s.len(),
{
    if s.len() == 0 {
        None
    } else if s[0].pubkey@ == pubkey && s[0].participant == OrderParticipant::Commerce {
        Some(s[0])
    } else {
        business_rating(s.drop_first(), pubkey)
    }
}

/// The ratings, and whether the relays answered.
#[derive(Clone, Debug)]
pub struct RatingsData<R> {
    pub has_loaded: bool,
    pub ratings: Vec<Rating<R>>,
}

/// The changes the ratings context receives.
pub enum RatingsAction<R> {
    SetLoaded,
    UpdateRating(Rating<R>),
    LoadRatings(Vec<Rating<R>>),
}

impl<R> RatingsData<R> {
    /// No ratings yet.
    pub fn new() -> (r: Self)
        ensures
            !r.has_loaded,
            r.ratings@.len() == 0,
    {
        RatingsData { has_loaded: false, ratings: Vec::new() }
    }

    /// Whether the relays answered.
    pub fn is_loaded(&self) -> (r: bool)
        ensures
            r == self.has_loaded,
    {
        self.has_loaded
    }

    /// The first rating of `pubkey`.
    pub fn get_rating(&self, pubkey: &str) -> (r: Option<&Rating<R>>)
        ensures
            match r {
                Some(x) => lookup(self.ratings@, pubkey@) == Some(*x),
                None => lookup(self.ratings@, pubkey@) is None,
            },
    {
        find_by_key(&self.ratings, &pubkey.to_owned())
    }

    /// The first rating of `pubkey` as a commerce.
    pub fn get_business_rating(&self, pubkey: &str) -> (r: Option<&Rating<R>>)
        ensures
            match r {
                Some(x) => business_rating(self.ratings@, pubkey@) == Some(*x),
                None => business_rating(self.ratings@, pubkey@) is None,
            },
    {
        let k = pubkey.to_owned();
        let mut i: usize = 0;
        assert(self.ratings@.subrange(0, self.ratings@.len() as int) == self.ratings@);
        while i < self.ratings.len()
            invariant
                i <= self.ratings.len(),
                k@ == pubkey@,
                business_rating(self.ratings@, pubkey@) == business_rating(
                    self.ratings@.subrange(i as int, self.ratings@.len() as int),
                    pubkey@,
                ),
            decreases self.ratings.len() - i,
        {
            let ghost rest = self.ratings@.subrange(i as int, self.ratings@.len() as int);
            assert(rest.drop_first() == self.ratings@.subrange(i + 1, self.ratings@.len() as int));
            let r = &self.ratings[i];
            if r.pubkey.eq(&k) && r.participant == OrderParticipant::Commerce {
                return Some(r);
            }
            i += 1;
        }
        None
    }

    /// Applies one change. A rating replaces the first one of the same
    /// public key in place, or is appended; once loaded, the ratings stay
    /// loaded.
    pub fn reduce(&mut self, action: RatingsAction<R>)
        ensures
            old(self).has_loaded ==> final(self).has_loaded,
            match action {
                RatingsAction::SetLoaded => {
                    &&& final(self).has_loaded
                    &&& final(self).ratings@ == old(self).ratings@
                },
                RatingsAction::UpdateRating(x) => {
                    &&& final(self).has_loaded == old(self).has_loaded
                    &&& final(self).ratings@ == replaced_or_pushed(old(self).ratings@, x)
                },
                RatingsAction::LoadRatings(v) => {
                    &&& final(self).has_loaded == old(self).has_loaded
                    &&& final(self).ratings@ == v@
                },
            },
    {
        match action {
            RatingsAction::SetLoaded => {
                self.has_loaded = true;
            },
            RatingsAction::UpdateRating(x) => {
                replace_or_push(&mut self.ratings, x);
            },
            RatingsAction::LoadRatings(v) => {
                self.ratings = v;
            },
        }
    }
}

/// After a rating update, the rating found for its public key is the new
/// one, and the rating found for any other key is the one found before.
pub proof fn lemma_rating_update<R>(s: Seq<Rating<R>>, x: Rating<R>, other: Seq<char>)
    requires
        other != x.pubkey@,
    ensures
        lookup(replaced_or_pushed(s, x), x.pubkey@) == Some(x),
        lookup(replaced_or_pushed(s, x), other) == lookup(s, other),
{
    lemma_replaced_or_pushed(s, x);
}

} // verus!
