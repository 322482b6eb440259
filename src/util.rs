use vstd::prelude::*;

verus! {
/// An access token granted by a Mastodon instance.
#[derive(Clone, Debug, PartialEq, Eq, Hash)]
pub struct AccessToken(String);

impl View for AccessToken {
    type V = Seq<char>;

    closed spec fn view(&self) -> Seq<char> {
        self.0@
    }
}

impl AccessToken {
    pub fn new(s: String) -> (r: Self)
        ensures
            r@ == s@,
    {
        AccessToken(s)
    }

    pub fn as_str(&self) -> (r: &str)
        ensures
            r@ == self@,
    {
        self.0.as_str()
    }

    pub fn to_string_value(&self) -> (r: String)
        ensures
            r@ == self@,
    {
        self.0.clone()
    }

    pub fn into_string(self) -> (r: String)
        ensures
            r@ == self@,
    {
        self.0
    }
}

/// The client id of an application registered on a Mastodon instance.
#[derive(Clone, Debug, PartialEq, Eq, Hash)]
pub struct ClientId(String);

impl View for ClientId {
    type V = Seq<char>;

    closed spec fn view(&self) -> Seq<char> {
        self.0@
    }
}

impl ClientId {
    pub fn new(s: String) -> (r: Self)
        ensures
            r@ == s@,
    {
        ClientId(s)
    }

    pub fn as_str(&self) -> (r: &str)
        ensures
            r@ == self@,
    {
        self.0.as_str()
    }

    pub fn to_string_value(&self) -> (r: String)
        ensures
            r@ == self@,
    {
        self.0.clone()
    }

    pub fn into_string(self) -> (r: String)
        ensures
            r@ == self@,
    {
        self.0
    }
}

/// The client secret of an application registered on a Mastodon instance.
#[derive(Clone, Debug, PartialEq, Eq, Hash)]
pub struct ClientSecret(String);

impl View for ClientSecret {
    type V = Seq<char>;

    closed spec fn view(&self) -> Seq<char> {
        self.0@
    }
}

impl ClientSecret {
    pub fn new(s: String) -> (r: Self)
        ensures
            r@ == s@,
    {
        ClientSecret(s)
    }

    pub fn as_str(&self) -> (r: &str)
        ensures
            r@ == self@,
    {
        self.0.as_str()
    }

    pub fn to_string_value(&self) -> (r: String)
        ensures
            r@ == self@,
    {
        self.0.clone()
    }

    pub fn into_string(self) -> (r: String)
        ensures
            r@ == self@,
    {
        self.0
    }
}

/// The identifier of a chat user.
#[derive(Clone, Debug, PartialEq, Eq, Hash)]
pub struct UserId(String);

impl View for UserId {
    type V = Seq<char>;

    closed spec fn view(&self) -> Seq<char> {
        self.0@
    }
}

impl UserId {
    pub fn new(s: String) -> (r: Self)
        ensures
            r@ == s@,
    {
        UserId(s)
    }

    pub fn as_str(&self) -> (r: &str)
        ensures
            r@ == self@,
    {
        self.0.as_str()
    }

    pub fn to_string_value(&self) -> (r: String)
        ensures
            r@ == self@,
    {
        self.0.clone()
    }

    pub fn into_string(self) -> (r: String)
        ensures
            r@ == self@,
    {
        self.0
    }
}

/// The host name of a Mastodon instance.
#[derive(Clone, Debug, PartialEq, Eq, Hash)]
pub struct MastodonInstance(String);

impl View for MastodonInstance {
    type V = Seq<char>;

    closed spec fn view(&self) -> Seq<char> {
        self.0@
    }
}

impl MastodonInstance {
    pub fn new(s: String) -> (r: Self)
        ensures
            r@ == s@,
    {
        MastodonInstance(s)
    }

    pub fn as_str(&self) -> (r: &str)
        ensures
            r@ == self@,
    {
        self.0.as_str()
    }

    pub fn to_string_value(&self) -> (r: String)
        ensures
            r@ == self@,
    {
        self.0.clone()
    }

    pub fn into_string(self) -> (r: String)
        ensures
            r@ == self@,
    {
        self.0
    }
}

/// The opaque correlation token sent as the OAuth2 `state` parameter.
#[derive(Clone, Debug, PartialEq, Eq, Hash)]
pub struct OauthState(String);

impl View for OauthState {
    type V = Seq<char>;

    closed spec fn view(&self) -> Seq<char> {
        self.0@
    }
}

impl OauthState {
    pub fn new(s: String) -> (r: Self)
        ensures
            r@ == s@,
    {
        OauthState(s)
    }

    pub fn as_str(&self) -> (r: &str)
        ensures
            r@ == self@,
    {
        self.0.as_str()
    }

    pub fn to_string_value(&self) -> (r: String)
        ensures
            r@ == self@,
    {
        self.0.clone()
    }

    pub fn into_string(self) -> (r: String)
        ensures
            r@ == self@,
    {
        self.0
    }
}

/// What the deployment knows of itself.
pub struct ServiceInfo {
    pub name: String,
}

} // verus!
