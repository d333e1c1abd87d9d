//! Whether the sign-in prompt is shown.

use vstd::prelude::*;

verus! {

/// Whether the sign-in prompt is shown.
#[derive(Clone, Copy, Debug, PartialEq, Eq, Structural)]
pub struct LoginState {
    pub show_modal: bool,
}

/// Show or hide the sign-in prompt.
#[derive(Clone, Copy, Debug, PartialEq, Eq, Structural)]
pub enum LoginStateAction {
    Show,
    Hide,
}

impl LoginState {
    /// The prompt hidden.
    pub fn new() -> (r: Self)
        ensures
            !r.show_modal,
    {
        LoginState { show_modal: false }
    }

    /// The state after `action`.
    pub fn reduce(self, action: LoginStateAction) -> (r: Self)
        ensures
            r.show_modal == (action == LoginStateAction::Show),
    {
        match action {
            LoginStateAction::Show => LoginState { show_modal: true },
            LoginStateAction::Hide => LoginState { show_modal: false },
        }
    }
}

/// What a page that needs a signed-in user does: for a signed-in user it
/// renders its content; otherwise it asks for the sign-in prompt.
pub fn require_auth(is_authenticated: bool) -> (r: Option<LoginStateAction>)
    ensures
        r == (if is_authenticated { None } else { Some(LoginStateAction::Show) }),
{
    if is_authenticated {
        None
    } else {
        Some(LoginStateAction::Show)
    }
}

} // verus!
