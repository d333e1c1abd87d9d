//! The platform configuration that the admin app keeps: the whitelists and
//! blacklists, the commerces and the couriers that asked to be registered.

use vstd::prelude::*;
use crate::keyed::{Keyed, lookup, upserted, upsert, find_by_key, select_by_list, deref_all, listed_as};
use crate::model::{Note, strings_view, list_contains};
use crate::json::{json_string_list, courier_whitelist_of, json_of_strings, opt_strings_view,
    decode_commerce_whitelist, decode_courier_whitelist, encode_whitelist};

verus! {

/// A courier that published a profile: the note that carried it and the
/// profile read from it.
#[derive(Clone, Debug)]
pub struct Courier<D> {
    pub note: Note,
    pub profile: D,
}

/// Couriers are looked up by the author of their note.
impl<D> Keyed for Courier<D> {
    open spec fn key_of(&self) -> Seq<char> {
        self.note.pubkey@
    }

    fn key(&self) -> (k: &String) {
        &self.note.pubkey
    }
}

/// The kinds of platform configuration that the admin publishes.
#[derive(Clone, Copy, Debug, PartialEq, Eq, Structural)]
pub enum AdminConfigurationType {
    ExchangeRate,
    CommerceWhitelist,
    CourierWhitelist,
    ConsumerBlacklist,
    UserRegistrations,
    AdminWhitelist,
}

/// The platform configuration. The exchange rate, a float, stays with the
/// application around this state.
#[derive(Clone, Debug)]
pub struct ServerConfigs<D> {
    pub admin_whitelist: Vec<String>,
    pub commerce_whitelist: Vec<String>,
    pub commerces: Vec<Note>,
    pub couriers: Vec<Courier<D>>,
    pub couriers_whitelist: Vec<String>,
    pub consumer_blacklist: Vec<String>,
    pub user_registrations: Vec<String>,
    pub loaded: bool,
}

/// The changes the configuration context receives.
pub enum ServerConfigsAction<D> {
    FinishLoading,
    UpdateCommerceWhitelist(Vec<String>),
    UpdateCouriersWhitelist(Vec<String>),
    AddCommerce(Note),
    AddCourier(Courier<D>),
}

/// A copy of a list of strings.
pub fn copy_strings(v: &Vec<String>) -> (r: Vec<String>)
    ensures
        r@ == v@,
{
    let mut out: Vec<String> = Vec::new();
    let mut i: usize = 0;
    while i < v.len()
        invariant
            i <= v.len(),
            out@ == v@.subrange(0, i as int),
        decreases v.len() - i,
    {
        out.push(v[i].clone());
        assert(out@ == v@.subrange(0, i + 1));
        i += 1;
    }
    assert(v@.subrange(0, v@.len() as int) == v@);
    out
}

impl<D> ServerConfigs<D> {
    /// The same configuration, apart from the fields that an action changes.
    pub open spec fn same_lists(&self, other: &Self) -> bool {
        &&& self.admin_whitelist@ == other.admin_whitelist@
        &&& self.consumer_blacklist@ == other.consumer_blacklist@
        &&& self.user_registrations@ == other.user_registrations@
    }

    /// The configuration before anything was loaded.
    pub fn new() -> (r: Self)
        ensures
            r.admin_whitelist@.len() == 0,
            r.commerce_whitelist@.len() == 0,
            r.commerces@.len() == 0,
            r.couriers@.len() == 0,
            r.couriers_whitelist@.len() == 0,
            r.consumer_blacklist@.len() == 0,
            r.user_registrations@.len() == 0,
            !r.loaded,
    {
        ServerConfigs {
            admin_whitelist: Vec::new(),
            commerce_whitelist: Vec::new(),
            commerces: Vec::new(),
            couriers: Vec::new(),
            couriers_whitelist: Vec::new(),
            consumer_blacklist: Vec::new(),
            user_registrations: Vec::new(),
            loaded: false,
        }
    }

    /// The first courier whose note was written by `pubkey`.
    pub fn find_courier(&self, pubkey: &str) -> (r: Option<&Courier<D>>)
        ensures
            match r {
                Some(c) => lookup(self.couriers@, pubkey@) == Some(*c),
                None => lookup(self.couriers@, pubkey@) is None,
            },
    {
        let k = pubkey.to_owned();
        find_by_key(&self.couriers, &k)
    }

    /// The commerce notes whose author is not on the commerce whitelist.
    pub fn get_unregistered_commerces(&self) -> (r: Vec<&Note>)
        ensures
            deref_all(r@) == self.commerces@.filter(
                listed_as::<Note>(strings_view(self.commerce_whitelist@), false),
            ),
    {
        select_by_list(&self.commerces, &self.commerce_whitelist, false)
    }

    /// The commerce notes whose author is on the commerce whitelist.
    pub fn get_whitelisted_commerces(&self) -> (r: Vec<&Note>)
        ensures
            deref_all(r@) == self.commerces@.filter(
                listed_as::<Note>(strings_view(self.commerce_whitelist@), true),
            ),
    {
        select_by_list(&self.commerces, &self.commerce_whitelist, true)
    }

    /// The couriers on the courier whitelist.
    pub fn get_whitelisted_couriers(&self) -> (r: Vec<&Courier<D>>)
        ensures
            deref_all(r@) == self.couriers@.filter(
                listed_as::<Courier<D>>(strings_view(self.couriers_whitelist@), true),
            ),
    {
        select_by_list(&self.couriers, &self.couriers_whitelist, true)
    }

    /// The couriers not on the courier whitelist, as the couriers page lists
    /// them for registration.
    pub fn get_unregistered_couriers(&self) -> (r: Vec<&Courier<D>>)
        ensures
            deref_all(r@) == self.couriers@.filter(
                listed_as::<Courier<D>>(strings_view(self.couriers_whitelist@), false),
            ),
    {
        select_by_list(&self.couriers, &self.couriers_whitelist, false)
    }

    /// Whether `pubkey` is on the commerce whitelist.
    pub fn check_commerce_whitelist(&self, pubkey: &str) -> (r: bool)
        ensures
            r == strings_view(self.commerce_whitelist@).contains(pubkey@),
    {
        list_contains(&self.commerce_whitelist, &pubkey.to_owned())
    }

    /// The commerce whitelist.
    pub fn get_commerce_whitelist(&self) -> (r: Vec<String>)
        ensures
            r@ == self.commerce_whitelist@,
    {
        copy_strings(&self.commerce_whitelist)
    }

    /// Whether `pubkey` is on the courier whitelist.
    pub fn check_courier_whitelist(&self, pubkey: &str) -> (r: bool)
        ensures
            r == strings_view(self.couriers_whitelist@).contains(pubkey@),
    {
        list_contains(&self.couriers_whitelist, &pubkey.to_owned())
    }

    /// Whether `pubkey` is on the consumer blacklist.
    pub fn check_consumer_blacklist(&self, pubkey: &str) -> (r: bool)
        ensures
            r == strings_view(self.consumer_blacklist@).contains(pubkey@),
    {
        list_contains(&self.consumer_blacklist, &pubkey.to_owned())
    }

    /// Whether `pubkey` is on the admin whitelist.
    pub fn check_admin_whitelist(&self, pubkey: &str) -> (r: bool)
        ensures
            r == strings_view(self.admin_whitelist@).contains(pubkey@),
    {
        list_contains(&self.admin_whitelist, &pubkey.to_owned())
    }

    /// The user registrations.
    pub fn get_user_registrations(&self) -> (r: Vec<String>)
        ensures
            r@ == self.user_registrations@,
    {
        copy_strings(&self.user_registrations)
    }

    /// The admin whitelist.
    pub fn get_admin_whitelist(&self) -> (r: Vec<String>)
        ensures
            r@ == self.admin_whitelist@,
    {
        copy_strings(&self.admin_whitelist)
    }

    /// The courier whitelist.
    pub fn get_couriers_whitelist(&self) -> (r: Vec<String>)
        ensures
            r@ == self.couriers_whitelist@,
    {
        copy_strings(&self.couriers_whitelist)
    }

    /// Whether the configuration is still loading.
    pub fn loading(&self) -> (r: bool)
        ensures
            r == !self.loaded,
    {
        !self.loaded
    }

    /// All couriers that published a profile.
    pub fn get_all_couriers(&self) -> (r: &Vec<Courier<D>>)
        ensures
            r@ == self.couriers@,
    {
        &self.couriers
    }

    /// Applies one change to the configuration. A commerce or a courier
    /// replaces the earlier one of the same author; once loaded, the
    /// configuration stays loaded.
    pub fn reduce(&mut self, action: ServerConfigsAction<D>)
        ensures
            final(self).same_lists(old(self)),
            old(self).loaded ==> final(self).loaded,
            match action {
                ServerConfigsAction::FinishLoading => {
                    &&& final(self).loaded
                    &&& final(self).commerce_whitelist@ == old(self).commerce_whitelist@
                    &&& final(self).couriers_whitelist@ == old(self).couriers_whitelist@
                    &&& final(self).commerces@ == old(self).commerces@
                    &&& final(self).couriers@ == old(self).couriers@
                },
                ServerConfigsAction::UpdateCommerceWhitelist(w) => {
                    &&& final(self).loaded == old(self).loaded
                    &&& final(self).commerce_whitelist@ == w@
                    &&& final(self).couriers_whitelist@ == old(self).couriers_whitelist@
                    &&& final(self).commerces@ == old(self).commerces@
                    &&& final(self).couriers@ == old(self).couriers@
                },
                ServerConfigsAction::UpdateCouriersWhitelist(w) => {
                    &&& final(self).loaded == old(self).loaded
                    &&& final(self).commerce_whitelist@ == old(self).commerce_whitelist@
                    &&& final(self).couriers_whitelist@ == w@
                    &&& final(self).commerces@ == old(self).commerces@
                    &&& final(self).couriers@ == old(self).couriers@
                },
                ServerConfigsAction::AddCommerce(n) => {
                    &&& final(self).loaded == old(self).loaded
                    &&& final(self).commerce_whitelist@ == old(self).commerce_whitelist@
                    &&& final(self).couriers_whitelist@ == old(self).couriers_whitelist@
                    &&& final(self).commerces@ == upserted(old(self).commerces@, n)
                    &&& final(self).couriers@ == old(self).couriers@
                },
                ServerConfigsAction::AddCourier(c) => {
                    &&& final(self).loaded == old(self).loaded
                    &&& final(self).commerce_whitelist@ == old(self).commerce_whitelist@
                    &&& final(self).couriers_whitelist@ == old(self).couriers_whitelist@
                    &&& final(self).commerces@ == old(self).commerces@
                    &&& final(self).couriers@ == upserted(old(self).couriers@, c)
                },
            },
    {
        match action {
            ServerConfigsAction::FinishLoading => {
                self.loaded = true;
            },
            ServerConfigsAction::UpdateCommerceWhitelist(w) => {
                self.commerce_whitelist = w;
            },
            ServerConfigsAction::UpdateCouriersWhitelist(w) => {
                self.couriers_whitelist = w;
            },
            ServerConfigsAction::AddCommerce(n) => {
                upsert(&mut self.commerces, n);
            },
            ServerConfigsAction::AddCourier(c) => {
                upsert(&mut self.couriers, c);
            },
        }
    }
}

/// The change that a configuration note of type `kind` with text `content`
/// brings: a whitelist that parses from it. The exchange rate is read by the
/// application; the other types change nothing here.
pub fn config_note_action<D>(kind: AdminConfigurationType, content: &str) -> (r: Option<ServerConfigsAction<D>>)
    ensures
        match kind {
            AdminConfigurationType::CommerceWhitelist => match r {
                Some(ServerConfigsAction::UpdateCommerceWhitelist(w)) =>
                    json_string_list(content@) == Some(strings_view(w@)),
                None => json_string_list(content@) is None,
                _ => false,
            },
            AdminConfigurationType::CourierWhitelist => match r {
                Some(ServerConfigsAction::UpdateCouriersWhitelist(w)) =>
                    courier_whitelist_of(content@) == Some(strings_view(w@)),
                None => courier_whitelist_of(content@) is None,
                _ => false,
            },
            _ => r is None,
        },
{
    match kind {
        AdminConfigurationType::CommerceWhitelist => match decode_commerce_whitelist(content) {
            Some(w) => Some(ServerConfigsAction::UpdateCommerceWhitelist(w)),
            None => None,
        },
        AdminConfigurationType::CourierWhitelist => match decode_courier_whitelist(content) {
            Some(w) => Some(ServerConfigsAction::UpdateCouriersWhitelist(w)),
            None => None,
        },
        _ => None,
    }
}

/// A whitelist with `id` added at the end, as registering a commerce or a
/// courier asks for it.
pub open spec fn with_id(list: Seq<Seq<char>>, id: Seq<char>) -> Seq<Seq<char>> {
    list.push(id)
}

/// The test "the entry is not `id`".
pub open spec fn differs_from(id: Seq<char>) -> spec_fn(Seq<char>) -> bool {
    |x: Seq<char>| x != id
}

/// A whitelist without any entry equal to `id`, as unregistering asks for it.
pub open spec fn without_id(list: Seq<Seq<char>>, id: Seq<char>) -> Seq<Seq<char>> {
    list.filter(differs_from(id))
}

/// The new whitelist after registering (`register`) or unregistering `id`.
pub open spec fn updated_whitelist(list: Seq<Seq<char>>, id: Seq<char>, register: bool) -> Seq<Seq<char>> {
    if register {
        with_id(list, id)
    } else {
        without_id(list, id)
    }
}

/// The content of the admin request that registers (`register`) or
/// unregisters `id` on `whitelist`: the JSON text of the new list, from
/// which both whitelist readers read the new list back.
pub fn whitelist_update_content(whitelist: &Vec<String>, id: &str, register: bool) -> (r: String)
    ensures
        r@ == json_of_strings(updated_whitelist(strings_view(whitelist@), id@, register)),
        json_string_list(r@) == Some(updated_whitelist(strings_view(whitelist@), id@, register)),
        courier_whitelist_of(r@) == Some(updated_whitelist(strings_view(whitelist@), id@, register)),
{
    let id_owned = id.to_owned();
    let mut list: Vec<String> = Vec::new();
    let ghost wl = strings_view(whitelist@);
    let ghost pred = differs_from(id@);
    let mut i: usize = 0;
    while i < whitelist.len()
        invariant
            i <= whitelist.len(),
            wl == strings_view(whitelist@),
            pred == differs_from(id@),
            id_owned@ == id@,
            strings_view(list@) == (if register {
                wl.subrange(0, i as int)
            } else {
                wl.subrange(0, i as int).filter(pred)
            }),
        decreases whitelist.len() - i,
    {
        proof {
            reveal(Seq::filter);
        }
        let ghost before = strings_view(list@);
        assert(wl.subrange(0, i + 1).drop_last() == wl.subrange(0, i as int));
        assert(wl.subrange(0, i + 1).last() == whitelist@[i as int]@);
        let item = whitelist[i].clone();
        let keep = register || !item.eq(&id_owned);
        if keep {
            list.push(item);
            assert(strings_view(list@) == before.push(whitelist@[i as int]@));
        }
        assert(wl.subrange(0, i + 1) == wl.subrange(0, i as int).push(whitelist@[i as int]@));
        i += 1;
    }
    assert(wl.subrange(0, wl.len() as int) == wl);
    let ghost before = strings_view(list@);
    if register {
        list.push(id_owned);
        assert(strings_view(list@) == before.push(id@));
    }
    encode_whitelist(&list)
}

} // verus!
