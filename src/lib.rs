//! Links a chat identity to a Mastodon account through OAuth2 and reposts
//! chat messages, with their attachments, to the linked account.
//!
//! The library holds the logic: the bounded correlation store that carries a
//! login from the chat command to the HTTP callback, the decisions of the
//! OAuth completion, and the decisions of the repost pipeline. Network,
//! storage and chat plumbing run around it and hand it plain values.

pub mod commands;
pub mod login_state;
pub mod oauth;
pub mod persistence;
pub mod repost;
pub mod util;

pub use commands::{login_reply, logout_reply, repost_reply, ChatCommand};
pub use login_state::{LoginInfo, LoginState, MAX_SIZE, STATE_LEN};
pub use oauth::{
    callback_text, finish_complete, instance_base_url, CallbackQuery, ExchangeRequest, FlowError,
    RegisteredApp,
};
pub use persistence::UserInfo;
pub use repost::{
    finish_post, AttachmentOutcome, ClientContext, NewPost, RepostPipeline, RepostRequest,
    RepostStep,
};
pub use util::{
    AccessToken, ClientId, ClientSecret, MastodonInstance, OauthState, ServiceInfo, UserId,
};
