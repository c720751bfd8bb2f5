use vstd::prelude::*;
use vstd::string::{StrSliceExecFns, StringSliceAdditionalSpecFns};
use vstd::utf8::encode_utf8;

use super::wire::{mail_event_json, mail_event_read, write_event};
use crate::model::MailEvent;
use crate::util::text::text_view;

verus! {

/// The direct exchange that mail events are published to.
pub const EXCHANGE_NAME: &'static str = "rasrme.events";

/// The durable queue that holds mail events until they are handled.
pub const QUEUE_EVENT_MAIL: &'static str = "rasrme.event.user.mail.validation";

/// The routing key that binds the queue to the exchange.
pub const ROUTING_KEY_EVENT_MAIL: &'static str = "event.user.mail.validation";

/// A message for the broker: where it goes and what it holds.
#[derive(Debug)]
pub struct Publication {
    pub exchange: String,
    pub routing_key: String,
    pub body: Vec<u8>,
}

/// How the broker is reached, and what is published to it.
#[derive(Debug)]
pub struct NotifierAmqp {
    pub amqp_host: String,
    pub amqp_port: u16,
    pub amqp_username: String,
    pub amqp_password: String,
}

impl NotifierAmqp {
    /// Holds when `publication` carries the JSON text `json` to the mail
    /// queue, or is missing where there is no text.
    pub open spec fn published(json: Option<Seq<char>>, publication: Option<Publication>) -> bool {
        match json {
            Some(text) => {
                &&& publication matches Some(p)
                &&& p.exchange@ == EXCHANGE_NAME@
                &&& p.routing_key@ == ROUTING_KEY_EVENT_MAIL@
                &&& p.body@ == encode_utf8(text)
            },
            None => publication is None,
        }
    }

    /// The settings of the broker.
    pub fn new(amqp_host: String, amqp_port: u16, amqp_username: String, amqp_password: String) -> (notifier:
        NotifierAmqp)
        ensures
            notifier.amqp_host == amqp_host,
            notifier.amqp_port == amqp_port,
            notifier.amqp_username == amqp_username,
            notifier.amqp_password == amqp_password,
    {
        NotifierAmqp { amqp_host, amqp_port, amqp_username, amqp_password }
    }

    /// The message that carries the JSON text of an event. Where the
    /// event could not be written there is nothing to publish.
    pub fn publication(json: Option<String>) -> (publication: Option<Publication>)
        ensures
            Self::published(text_view(json), publication),
    {
        match json {
            Some(text) => Some(
                Publication {
                    exchange: EXCHANGE_NAME.to_owned(),
                    routing_key: ROUTING_KEY_EVENT_MAIL.to_owned(),
                    body: text.as_str().as_bytes_vec(),
                },
            ),
            None => None,
        }
    }

    /// The message to publish for `event`: its JSON text, addressed to the
    /// exchange under the routing key of the mail queue. A message that
    /// is made reads back as `event`.
    pub fn send_mail_event(&self, event: MailEvent) -> (publication: Option<Publication>)
        ensures
            Self::published(mail_event_json(event@), publication),
            publication matches Some(p) ==> mail_event_read(p.body@) == Some(event@),
    {
        Self::publication(write_event(&event))
    }
}

} // verus!
