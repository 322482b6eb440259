use crate::oauth::{message_of, FlowError};
use vstd::prelude::*;

verus! {

/// The chat commands the bot answers.
#[derive(Clone, Copy, Debug, PartialEq, Eq, Structural)]
pub enum ChatCommand {
    Login,
    Logout,
    Repost,
}

pub open spec fn command_of(name: Seq<char>) -> Option<ChatCommand> {
    if name == "login"@ {
        Some(ChatCommand::Login)
    } else if name == "logout"@ {
        Some(ChatCommand::Logout)
    } else if name == "Repost to Mastodon"@ {
        Some(ChatCommand::Repost)
    } else {
        None
    }
}

pub open spec fn name_of(c: ChatCommand) -> Seq<char> {
    match c {
        ChatCommand::Login => "login"@,
        ChatCommand::Logout => "logout"@,
        ChatCommand::Repost => "Repost to Mastodon"@,
    }
}

impl ChatCommand {
    /// The name the command is registered under.
    pub fn name(&self) -> (r: &'static str)
        ensures
            r@ == name_of(*self),
    {
        match *self {
            ChatCommand::Login => "login",
            ChatCommand::Logout => "logout",
            ChatCommand::Repost => "Repost to Mastodon",
        }
    }

    /// The command registered under `name`, if any.
    pub fn parse(name: &str) -> (r: Option<ChatCommand>)
        ensures
            r == command_of(name@),
    {
        let n = name.to_owned();
        if n == "login".to_owned() {
            Some(ChatCommand::Login)
        } else if n == "logout".to_owned() {
            Some(ChatCommand::Logout)
        } else if n == "Repost to Mastodon".to_owned() {
            Some(ChatCommand::Repost)
        } else {
            None
        }
    }
}

pub open spec fn login_reply_of(outcome: Result<Seq<char>, FlowError>) -> Seq<char> {
    match outcome {
        Ok(url) => "We successfully registered ourselves with your instance! Use this URL to grant us permission: "@
            + url,
        Err(e) => message_of(e),
    }
}

/// The reply to a login command.
pub fn login_reply(outcome: &Result<String, FlowError>) -> (r: String)
    ensures
        r@ == login_reply_of(
            match outcome {
                Ok(url) => Ok(url@),
                Err(e) => Err(*e),
            },
        ),
{
    match outcome {
        Ok(url) => {
            let mut s =
                "We successfully registered ourselves with your instance! Use this URL to grant us permission: ".to_owned();
            s.append(url.as_str());
            s
        },
        Err(e) => e.message().to_owned(),
    }
}

pub open spec fn repost_reply_of(outcome: Result<Seq<char>, FlowError>) -> Seq<char> {
    match outcome {
        Ok(url) => "We reposted the message for you on your Mastodon account! "@ + url,
        Err(e) => "We unfortunately couldn't repost the message to your Mastodon account! "@
            + message_of(e),
    }
}

/// The reply to a repost command.
pub fn repost_reply(outcome: &Result<String, FlowError>) -> (r: String)
    ensures
        r@ == repost_reply_of(
            match outcome {
                Ok(url) => Ok(url@),
                Err(e) => Err(*e),
            },
        ),
{
    match outcome {
        Ok(url) => {
            let mut s = "We reposted the message for you on your Mastodon account! ".to_owned();
            s.append(url.as_str());
            s
        },
        Err(e) => {
            let mut s =
                "We unfortunately couldn't repost the message to your Mastodon account! ".to_owned();
            s.append(e.message());
            s
        },
    }
}

/// The reply to a logout command, after the record was cleared or not.
pub fn logout_reply(cleared: Result<(), ()>) -> (r: &'static str)
    ensures
        cleared is Ok ==> r@ == "Successfully removed your login"@,
        cleared is Err ==> r@ == "There was a problem removing your login"@,
{
    match cleared {
        Ok(()) => "Successfully removed your login",
        Err(()) => "There was a problem removing your login",
    }
}

} // verus!
