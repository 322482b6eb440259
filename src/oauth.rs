use crate::login_state::{
    added, is_state_token, keys_unique, lemma_position, lemma_take_once, lookup, taken, Entry,
    LoginInfo, LoginState,
};
use crate::persistence::UserInfo;
use crate::util::{AccessToken, ClientId, ClientSecret, MastodonInstance, UserId};
use mastodon_async::registration::Registered;
use mastodon_async::scopes::Scopes;
use vstd::prelude::*;

verus! {

/// The ways in which a login, a callback or a repost can fail.
#[derive(Clone, Copy, Debug, PartialEq, Eq, Structural)]
pub enum FlowError {
    Registration,
    UnknownState,
    Exchange,
    Persistence,
    NotLoggedIn,
    AttachmentFetch,
    MediaUpload,
    Processing,
    PostCreation,
}

impl FlowError {
    /// The fixed message shown to the user for this failure.
    pub fn message(&self) -> (r: &'static str)
        ensures
            r@ == message_of(*self),
    {
        match self {
            FlowError::Registration => "We couldn't register ourselves with your Mastodon instance.",
            FlowError::UnknownState => "No login is waiting for this callback.",
            FlowError::Exchange => "Couldn't complete the OAuth flow with your Mastodon instance.",
            FlowError::Persistence => "Couldn't store your user info on our backend.",
            FlowError::NotLoggedIn => "You are not logged in to a Mastodon account.",
            FlowError::AttachmentFetch => "Couldn't download one of the attachments.",
            FlowError::MediaUpload => "Couldn't upload one of the attachments to your Mastodon instance.",
            FlowError::Processing => "Your Mastodon instance couldn't process one of the attachments.",
            FlowError::PostCreation => "Couldn't create the post on your Mastodon account.",
        }
    }
}

pub open spec fn message_of(e: FlowError) -> Seq<char> {
    match e {
        FlowError::Registration => "We couldn't register ourselves with your Mastodon instance."@,
        FlowError::UnknownState => "No login is waiting for this callback."@,
        FlowError::Exchange => "Couldn't complete the OAuth flow with your Mastodon instance."@,
        FlowError::Persistence => "Couldn't store your user info on our backend."@,
        FlowError::NotLoggedIn => "You are not logged in to a Mastodon account."@,
        FlowError::AttachmentFetch => "Couldn't download one of the attachments."@,
        FlowError::MediaUpload => "Couldn't upload one of the attachments to your Mastodon instance."@,
        FlowError::Processing => "Your Mastodon instance couldn't process one of the attachments."@,
        FlowError::PostCreation => "Couldn't create the post on your Mastodon account."@,
    }
}

/// The base URL of an instance's API.
pub open spec fn base_url_of(instance: Seq<char>) -> Seq<char> {
    "https://"@ + instance
}

/// An authorize URL that carries the correlation token as `state`.
pub open spec fn url_with_state(url: Seq<char>, state: Seq<char>) -> Seq<char> {
    url + "&state="@ + state
}

/// The base URL of the API of `instance`.
pub fn instance_base_url(instance: &MastodonInstance) -> (r: String)
    ensures
        r@ == base_url_of(instance@),
{
    let mut s = "https://".to_owned();
    s.append(instance.as_str());
    s
}

/// The authorize URL of an application registered with the write scope and
/// without forced login.
pub open spec fn authorize_url_of(base: Seq<char>, client_id: Seq<char>, redirect: Seq<char>) -> Seq<
    char,
> {
    base + "/oauth/authorize?client_id="@ + client_id + "&redirect_uri="@ + redirect
        + "&scope=write&response_type=code"@
}

/// Relies on mastodon_async's Registered::from_parts and
/// Registered::authorize_url, for the write scope without forced login: the
/// URL is formatted from the base, the client id and the redirect URI (the
/// scope "write" needs no percent-encoding), and the call never fails.
#[verifier::external_body]
fn write_authorize_url(base: &str, client_id: &str, client_secret: &str, redirect: &str) -> (r:
    Result<String, ()>)
    ensures
        r is Ok,
        r->Ok_0@ == authorize_url_of(base@, client_id@, redirect@),
{
    Registered::from_parts(base, client_id, client_secret, redirect, Scopes::write_all(), false)
        .authorize_url()
        .map_err(|_| ())
}

/// What a successful application registration hands back.
pub struct RegisteredApp {
    pub client_id: ClientId,
    pub client_secret: ClientSecret,
}

/// The query of the OAuth2 redirect callback.
pub struct CallbackQuery {
    pub code: String,
    pub state: String,
}

/// Everything needed to exchange an authorization code for a token, and to
/// store the token afterwards.
pub struct ExchangeRequest {
    pub base: String,
    pub client_id: ClientId,
    pub client_secret: ClientSecret,
    pub redirect_uri: String,
    pub code: String,
    pub user_id: UserId,
    pub instance: MastodonInstance,
}

/// What taking token `k` out of the entries `e` yields for the callback.
pub open spec fn complete_outcome(e: Seq<Entry>, k: Seq<char>) -> Result<LoginInfo, FlowError> {
    match lookup(e, k) {
        Some(info) => Ok(info),
        None => Err(FlowError::UnknownState),
    }
}

/// `req` exchanges `code` for the login `info`, with `redirect_uri`.
pub open spec fn exchange_for(
    req: ExchangeRequest,
    info: LoginInfo,
    code: Seq<char>,
    redirect_uri: Seq<char>,
) -> bool {
    &&& req.base@ == base_url_of(info.mastodon_instance@)
    &&& req.client_id == info.client_id
    &&& req.client_secret == info.client_secret
    &&& req.redirect_uri@ == redirect_uri
    &&& req.code@ == code
    &&& req.user_id == info.user_id
    &&& req.instance == info.mastodon_instance
}

impl LoginState {
    /// The part of a login that follows the registration of an application
    /// on `instance` with `redirect_uri`: a failed registration creates no
    /// session; a successful one stores the session under a fresh token and
    /// returns the authorize URL with that token as its `state`.
    pub fn login(
        &mut self,
        registration: Result<RegisteredApp, ()>,
        instance: MastodonInstance,
        user_id: UserId,
        redirect_uri: &str,
    ) -> (r: Result<String, FlowError>)
        requires
            old(self).wf(),
        ensures
            final(self).wf(),
            final(self).spec_capacity() == old(self).spec_capacity(),
            registration is Err ==> r == Err::<String, FlowError>(FlowError::Registration)
                && final(self).entries() == old(self).entries(),
            registration is Ok ==> r is Ok && exists|t: Seq<char>|
                #![trigger is_state_token(t)]
                {
                    &&& is_state_token(t)
                    &&& r->Ok_0@ == url_with_state(
                        authorize_url_of(
                            base_url_of(instance@),
                            registration->Ok_0.client_id@,
                            redirect_uri@,
                        ),
                        t,
                    )
                    &&& final(self).entries() == added(
                        old(self).entries(),
                        old(self).spec_capacity(),
                        t,
                        (LoginInfo {
                            client_id: registration->Ok_0.client_id,
                            client_secret: registration->Ok_0.client_secret,
                            mastodon_instance: instance,
                            user_id,
                        }),
                    )
                },
    {
        match registration {
            Err(()) => Err(FlowError::Registration),
            Ok(app) => {
                let RegisteredApp { client_id, client_secret } = app;
                let base = instance_base_url(&instance);
                match write_authorize_url(
                    base.as_str(),
                    client_id.as_str(),
                    client_secret.as_str(),
                    redirect_uri,
                ) {
                    Err(()) => Err(FlowError::Registration),
                    Ok(authorize_url) => {
                        let info = LoginInfo {
                            client_id,
                            client_secret,
                            mastodon_instance: instance,
                            user_id,
                        };
                        let state = self.add(info);
                        let mut url = authorize_url;
                        url.append("&state=");
                        url.append(state.as_str());
                        Ok(url)
                    },
                }
            },
        }
    }

    /// The first step of the callback: takes the login that waits for
    /// `query.state` out of the store. An unknown token fails with
    /// `UnknownState`; a known one yields the code exchange to perform.
    pub fn begin_complete(&mut self, query: CallbackQuery, redirect_uri: &str) -> (r: Result<
        ExchangeRequest,
        FlowError,
    >)
        requires
            old(self).wf(),
        ensures
            final(self).wf(),
            final(self).spec_capacity() == old(self).spec_capacity(),
            final(self).entries() == taken(old(self).entries(), query.state@),
            complete_outcome(old(self).entries(), query.state@) is Err ==> r == Err::<
                ExchangeRequest,
                FlowError,
            >(FlowError::UnknownState),
            complete_outcome(old(self).entries(), query.state@) is Ok ==> r is Ok && exchange_for(
                r->Ok_0,
                complete_outcome(old(self).entries(), query.state@)->Ok_0,
                query.code@,
                redirect_uri@,
            ),
    {
        let CallbackQuery { code, state } = query;
        match self.get_remove(crate::util::OauthState::new(state)) {
            None => Err(FlowError::UnknownState),
            Some(info) => {
                let base = instance_base_url(&info.mastodon_instance);
                let LoginInfo { client_id, client_secret, mastodon_instance, user_id } = info;
                Ok(
                    ExchangeRequest {
                        base,
                        client_id,
                        client_secret,
                        redirect_uri: redirect_uri.to_owned(),
                        code,
                        user_id,
                        instance: mastodon_instance,
                    },
                )
            },
        }
    }
}

impl ExchangeRequest {
    /// The step after the code exchange: a failed exchange fails with
    /// `Exchange`; a granted token becomes the record to store for the user.
    pub fn finish_exchange(self, granted: Result<AccessToken, ()>) -> (r: Result<
        (UserId, UserInfo),
        FlowError,
    >)
        ensures
            granted is Err ==> r == Err::<(UserId, UserInfo), FlowError>(FlowError::Exchange),
            granted is Ok ==> r is Ok && r->Ok_0.0 == self.user_id && r->Ok_0.1.access_token
                == granted->Ok_0 && r->Ok_0.1.instance == self.instance,
    {
        match granted {
            Err(()) => Err(FlowError::Exchange),
            Ok(access_token) => Ok((self.user_id, UserInfo { access_token, instance: self.instance })),
        }
    }
}

/// The last step of the callback: a failed store fails with `Persistence`.
pub fn finish_complete(stored: Result<(), ()>) -> (r: Result<(), FlowError>)
    ensures
        stored is Ok ==> r is Ok,
        stored is Err ==> r == Err::<(), FlowError>(FlowError::Persistence),
{
    match stored {
        Ok(()) => Ok(()),
        Err(()) => Err(FlowError::Persistence),
    }
}

pub open spec fn callback_text_of(outcome: Result<(), FlowError>) -> Seq<char> {
    if outcome is Ok {
        "you are now logged in and can use the repost function!"@
    } else {
        "couldn't complete the login, please try again :("@
    }
}

/// The body of the callback's answer: one fixed text for success and one
/// for any failure, so that no internal detail reaches the user.
pub fn callback_text(outcome: &Result<(), FlowError>) -> (r: &'static str)
    ensures
        r@ == callback_text_of(*outcome),
{
    match outcome {
        Ok(()) => "you are now logged in and can use the repost function!",
        Err(_) => "couldn't complete the login, please try again :(",
    }
}

/// A callback whose token was never issued fails with `UnknownState`, and
/// the store stays as it was: no record is ever stored for it.
pub proof fn lemma_unissued_state_rejected(e: Seq<Entry>, k: Seq<char>)
    requires
        forall|i: int| 0 <= i < e.len() ==> e[i].0 != k,
    ensures
        complete_outcome(e, k) == Err::<LoginInfo, FlowError>(FlowError::UnknownState),
        taken(e, k) == e,
{
    lemma_position(e, k);
}

/// Completing twice with the same token succeeds at most once: the second
/// attempt fails with `UnknownState`.
pub proof fn lemma_complete_at_most_once(e: Seq<Entry>, k: Seq<char>)
    requires
        keys_unique(e),
    ensures
        complete_outcome(taken(e, k), k) == Err::<LoginInfo, FlowError>(FlowError::UnknownState),
{
    lemma_take_once(e, k);
}

} // verus!
