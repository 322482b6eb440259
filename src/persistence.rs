use crate::util::{AccessToken, MastodonInstance};
use vstd::prelude::*;

verus! {

/// The credentials kept for one chat user: enough to act on their account.
pub struct UserInfo {
    pub access_token: AccessToken,
    pub instance: MastodonInstance,
}

} // verus!
