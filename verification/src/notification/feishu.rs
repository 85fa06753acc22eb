//! The Feishu webhook channel: the message that is posted and what the
//! webhook's answer means.
use crate::fetch::HTTP_OK;
use crate::notification::Error;
use vstd::prelude::*;

verus! {

/// The `msg_type` of a plain text message.
pub const TEXT_MESSAGE: &'static str = "text";

/// The Feishu channel: a webhook that messages are posted to.
#[derive(Clone, Debug, PartialEq)]
pub struct FeiShu {
    webhook: String,
}

/// The body that is posted to the webhook.
#[derive(Clone, Debug, PartialEq)]
pub struct FeiShuMessage {
    pub msg_type: String,
    pub content: FeiShuContent,
}

/// What a message says.
#[derive(Clone, Debug, PartialEq)]
pub enum FeiShuContent {
    Text { text: String },
}

impl FeiShuMessage {
    /// Whether this is the plain text message that says `text`.
    pub open spec fn is_text(self, text: Seq<char>) -> bool {
        &&& self.msg_type@ == TEXT_MESSAGE@
        &&& self.content matches FeiShuContent::Text { text: said }
        &&& said@ == text
    }
}

impl FeiShu {
    /// The URL that messages are posted to.
    pub closed spec fn url(&self) -> String {
        self.webhook
    }

    /// The channel of the webhook at `webhook`.
    pub fn new(webhook: String) -> (notifier: Self)
        ensures
            notifier.url() == webhook,
    {
        Self { webhook }
    }

    /// The URL that messages are posted to.
    pub fn webhook(&self) -> (url: &String)
        ensures
            *url == self.url(),
    {
        &self.webhook
    }

    /// Gives up the notifier for the URL that messages are posted to.
    pub fn into_webhook(self) -> (url: String)
        ensures
            url == self.url(),
    {
        self.webhook
    }

    /// The body to post to the webhook, as JSON, to say `message`.
    pub fn send(&self, message: String) -> (body: FeiShuMessage)
        ensures
            body.is_text(message@),
            body.content == (FeiShuContent::Text { text: message }),
    {
        FeiShuMessage {
            msg_type: TEXT_MESSAGE.to_owned(),
            content: FeiShuContent::Text { text: message },
        }
    }

    /// What the answer of the webhook means. `body` is the text of the
    /// answer, or `None` where it could not be read. A message is refused
    /// when the status is not 200 and the answer could be read: the answer
    /// is then the error. Every other answer counts as success.
    pub fn received(status: u16, body: Option<String>) -> (r: Result<(), Error>)
        ensures
            match body {
                Some(text) if status != HTTP_OK => r matches Err(e) && e.text() == text@,
                _ => r is Ok,
            },
    {
        if status != HTTP_OK {
            if let Some(val) = body {
                return Err(Error::new(val));
            }
        }
        Ok(())
    }
}

} // verus!
