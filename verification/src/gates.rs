//! The checks each app makes before it shows its pages: whether its data
//! is loaded, whether a key is signed in, and whether the key may use it.

use vstd::prelude::*;
use crate::model::{strings_view, list_contains};
use crate::text::{listed_line, is_listed_line};

verus! {

/// What an app shows in place of, or as, its pages.
#[derive(Clone, Copy, Debug, PartialEq, Eq, Structural)]
pub enum GateView {
    /// Something is still loading.
    Loading,
    /// No key is signed in: the sign-in page.
    SignIn,
    /// The user has no profile yet: the profile form.
    NewProfile,
    /// The key waits for an administrator to approve it.
    AwaitingApproval,
    /// The key may not use this app.
    NotAuthorized,
    /// The app's pages.
    Pages,
}

/// The courier app's sign-in check: loading until the keys and the admin
/// configuration are read, the sign-in page without a key, the waiting
/// screen for a key that is not on the courier whitelist, else the pages.
pub fn courier_login_gate(keys_loaded: bool, configs_loaded: bool, pubkey: Option<&String>, courier_whitelist: &Vec<String>) -> (r: GateView)
    ensures
        r == if !keys_loaded || !configs_loaded {
            GateView::Loading
        } else {
            match pubkey {
                None => GateView::SignIn,
                Some(k) => if strings_view(courier_whitelist@).contains(k@) {
                    GateView::Pages
                } else {
                    GateView::AwaitingApproval
                },
            }
        },
{
    if !keys_loaded || !configs_loaded {
        return GateView::Loading;
    }
    match pubkey {
        None => GateView::SignIn,
        Some(k) => if list_contains(courier_whitelist, k) {
            GateView::Pages
        } else {
            GateView::AwaitingApproval
        },
    }
}

/// The courier app's profile check: loading until the profile and the
/// orders are read, the profile form without a profile, else the pages.
pub fn courier_profile_gate(profile_loaded: bool, orders_loaded: bool, has_profile: bool) -> (r: GateView)
    ensures
        r == if !profile_loaded || !orders_loaded {
            GateView::Loading
        } else if !has_profile {
            GateView::NewProfile
        } else {
            GateView::Pages
        },
{
    if !profile_loaded || !orders_loaded {
        GateView::Loading
    } else if !has_profile {
        GateView::NewProfile
    } else {
        GateView::Pages
    }
}

/// The business app's sign-in check: loading until the keys and the admin
/// configuration are read, the sign-in page without a key, loading until
/// the local store was read, the profile form when neither the store nor
/// the relays have a profile, the waiting screen for a key that is not on
/// the commerce whitelist, else the pages.
pub fn business_login_gate(
    keys_loaded: bool,
    configs_loaded: bool,
    pubkey: Option<&String>,
    checked_db: bool,
    checked_relay: bool,
    has_profile: bool,
    commerce_whitelist: &Vec<String>,
) -> (r: GateView)
    ensures
        r == if !keys_loaded || !configs_loaded {
            GateView::Loading
        } else {
            match pubkey {
                None => GateView::SignIn,
                Some(k) => if !checked_db {
                    GateView::Loading
                } else if !has_profile && checked_relay {
                    GateView::NewProfile
                } else if strings_view(commerce_whitelist@).contains(k@) {
                    GateView::Pages
                } else {
                    GateView::AwaitingApproval
                },
            }
        },
{
    if !keys_loaded || !configs_loaded {
        return GateView::Loading;
    }
    match pubkey {
        None => GateView::SignIn,
        Some(k) => if !checked_db {
            GateView::Loading
        } else if !has_profile && checked_relay {
            GateView::NewProfile
        } else if list_contains(commerce_whitelist, k) {
            GateView::Pages
        } else {
            GateView::AwaitingApproval
        },
    }
}

/// The admin app's sign-in check: loading until the keys are read, the
/// sign-in page without a key, loading while the configuration or the
/// statistics load, a refusal for a key that is not a line of the admin
/// list, else the pages.
pub fn admin_login_gate(keys_loaded: bool, pubkey: Option<&String>, configs_loading: bool, stats_loading: bool, admin_list: &str) -> (r: GateView)
    ensures
        r == if !keys_loaded {
            GateView::Loading
        } else {
            match pubkey {
                None => GateView::SignIn,
                Some(k) => if configs_loading || stats_loading {
                    GateView::Loading
                } else if listed_line(admin_list@, k@) {
                    GateView::Pages
                } else {
                    GateView::NotAuthorized
                },
            }
        },
{
    if !keys_loaded {
        return GateView::Loading;
    }
    match pubkey {
        None => GateView::SignIn,
        Some(k) => if configs_loading || stats_loading {
            GateView::Loading
        } else if is_listed_line(admin_list, k) {
            GateView::Pages
        } else {
            GateView::NotAuthorized
        },
    }
}

/// The consumer app's loading check: loading until the keys, the admin
/// configuration and the commerces are read, else the pages.
pub fn consumer_loading_gate(keys_loaded: bool, configs_loaded: bool, commerces_loaded: bool) -> (r: GateView)
    ensures
        r == if keys_loaded && configs_loaded && commerces_loaded {
            GateView::Pages
        } else {
            GateView::Loading
        },
{
    if !keys_loaded || !configs_loaded || !commerces_loaded {
        GateView::Loading
    } else {
        GateView::Pages
    }
}

} // verus!
