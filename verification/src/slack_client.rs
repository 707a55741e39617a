//! The client facade: a credential and a destination channel, from which a
//! message payload or a fully configured upload request is composed.

use vstd::prelude::*;

use crate::slack_message::MessagePayload;
use crate::slack_upload::Builder;
use crate::slack_upload::Uploader;

verus! {

/// A credential and the channel every call of this client addresses.
pub struct SlackClient {
    pub token: String,
    pub channel: String,
}

impl SlackClient {
    pub fn new(token: &String, channel: &String) -> (c: SlackClient)
        ensures
            c.token@ == token@,
            c.channel@ == channel@,
    {
        SlackClient { token: token.clone(), channel: channel.clone() }
    }

    /// A builder already carrying this client's credential and channel.
    fn uploader(&self) -> (b: Builder)
        ensures
            b.uploader.token@ == self.token@,
            b.uploader.channel@ == self.channel@,
            b.uploader.message@ == Seq::<char>::empty(),
            b.uploader.build_path@ == Seq::<char>::empty(),
            b.uploader.new_name is None,
            !b.uploader.show_commit_message,
    {
        Uploader::builder().token(self.token.clone()).channel(self.channel.clone())
    }

    /// The fully configured request for one file upload through this
    /// client; the caller then drives the delivery protocol with it.
    pub fn upload_file(&self, message: String, file_path: String, name: String, include_git: bool)
        -> (u: Uploader)
        ensures
            u.message@ == message@,
            u.token@ == self.token@,
            u.channel@ == self.channel@,
            u.build_path@ == file_path@,
            u.new_name matches Some(n) && n@ == name@,
            u.show_commit_message == include_git,
    {
        self.uploader().message(message).build_path(file_path).show_commit_message(
            include_git,
        ).new_name(name).build()
    }

    /// The payload of one chat message through this client.
    pub fn send_message(&self, msg: &String) -> (p: MessagePayload)
        ensures
            p.channel@ == self.channel@,
            p.text@ == msg@,
    {
        MessagePayload { channel: self.channel.clone(), text: msg.clone() }
    }
}

} // verus!
