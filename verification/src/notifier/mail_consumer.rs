use vstd::prelude::*;

use super::wire::{mail_event_read, read_event};
use crate::model::MailEvent;

verus! {

/// The template of the validation mail.
pub const MAIL_VALIDATION_TEMPLATE: &'static str = "mail_validation.html";

/// The tag under which the consumer subscribes to the mail queue.
pub const CONSUMER_TAG: &'static str = "consumer.event.mail";

/// How the connection to the mail server is secured.
#[derive(Clone, Copy, PartialEq, Eq, Debug, Structural)]
pub enum MailEncryption {
    /// Start in the clear and upgrade with STARTTLS.
    StartTls,
    /// Wrap the whole connection in TLS.
    Wrapper,
    /// No encryption.
    Plain,
}

/// The name and password the mail server asks for.
#[derive(Debug)]
pub struct MailCredentials {
    pub username: String,
    pub password: String,
}

/// How to reach the mail server for one mail.
#[derive(Debug)]
pub struct MailTransport {
    pub host: String,
    pub port: u16,
    pub encryption: MailEncryption,
    pub credentials: Option<MailCredentials>,
}

/// A mail that is ready to go.
#[derive(Debug)]
pub struct Mail {
    pub from: String,
    pub to: String,
    pub subject: String,
    pub html: String,
    pub transport: MailTransport,
}

/// The settings of the mail sender.
#[derive(Debug)]
pub struct MailConfig {
    pub host: String,
    pub port: u16,
    pub enable_auth: bool,
    pub enable_starttls: bool,
    pub username: String,
    pub password: Option<String>,
    pub template_dir: String,
}

impl MailConfig {
    /// Settings that can be used: where the server asks for a login,
    /// there is a password.
    pub open spec fn wf(&self) -> bool {
        self.enable_auth ==> self.password is Some
    }

    /// The encryption these settings ask for: STARTTLS where it is
    /// enabled; else a TLS wrapper with a login and no encryption
    /// without one.
    pub open spec fn encryption(&self) -> MailEncryption {
        if self.enable_starttls {
            MailEncryption::StartTls
        } else if self.enable_auth {
            MailEncryption::Wrapper
        } else {
            MailEncryption::Plain
        }
    }

    /// Holds when `transport` is the way to the server that these
    /// settings describe.
    pub open spec fn describes(&self, transport: MailTransport) -> bool {
        &&& transport.host@ == self.host@
        &&& transport.port == self.port
        &&& transport.encryption == self.encryption()
        &&& if self.enable_auth {
            &&& transport.credentials matches Some(c)
            &&& c.username@ == self.username@
            &&& c.password@ == self.password->0@
        } else {
            transport.credentials is None
        }
    }

    pub fn new(
        host: String,
        port: u16,
        enable_auth: bool,
        enable_starttls: bool,
        username: String,
        password: Option<String>,
        template_dir: String,
    ) -> (config: MailConfig)
        ensures
            config.host == host,
            config.port == port,
            config.enable_auth == enable_auth,
            config.enable_starttls == enable_starttls,
            config.username == username,
            config.password == password,
            config.template_dir == template_dir,
    {
        MailConfig { host, port, enable_auth, enable_starttls, username, password, template_dir }
    }

    /// Whether these settings can be used.
    pub fn is_complete(&self) -> (ok: bool)
        ensures
            ok == self.wf(),
    {
        !self.enable_auth || self.password.is_some()
    }

    /// The way to the mail server that these settings describe.
    pub fn transport(&self) -> (transport: MailTransport)
        requires
            self.wf(),
        ensures
            self.describes(transport),
    {
        let credentials = if self.enable_auth {
            match &self.password {
                Some(password) => Some(
                    MailCredentials { username: self.username.clone(), password: password.clone() },
                ),
                None => None,
            }
        } else {
            None
        };
        let encryption = if self.enable_starttls {
            MailEncryption::StartTls
        } else if self.enable_auth {
            MailEncryption::Wrapper
        } else {
            MailEncryption::Plain
        };
        MailTransport { host: self.host.clone(), port: self.port, encryption, credentials }
    }
}

/// Where the handling of a delivery stands and what has just come in.
#[derive(Debug)]
#[allow(inconsistent_fields)]
pub enum ConsumeStep {
    /// The broker has delivered a message.
    Delivered { delivery_tag: u64, content: Vec<u8> },
    /// The templating has answered: the body of the mail, or nothing
    /// where it failed.
    Rendered { delivery_tag: u64, event: MailEvent, rendered: Option<String> },
    /// The mailer has answered whether the mail went out.
    Sent { delivery_tag: u64, sent: bool },
}

/// What the handling of a delivery needs done next, or how it ends.
#[derive(Debug)]
#[allow(inconsistent_fields)]
pub enum ConsumeAction {
    /// Render the validation template from `template_dir` for the name
    /// and the code of `event`, then come back with
    /// [`ConsumeStep::Rendered`].
    Render { delivery_tag: u64, template_dir: String, event: MailEvent },
    /// Send the mail, then come back with [`ConsumeStep::Sent`].
    Send { delivery_tag: u64, mail: Mail },
    /// Acknowledge the delivery, and no other.
    Ack { delivery_tag: u64, multiple: bool },
    /// Leave the delivery unacknowledged, so that the broker delivers it
    /// again.
    Leave,
}

/// Handles the mail events of the queue, one delivery at a time.
#[derive(Debug)]
pub struct UserMailValidationConsumer {
    pub mail_config: MailConfig,
}

impl UserMailValidationConsumer {
    /// What the consumer does at `step`: a message that is no mail event
    /// is left; an event is rendered, then sent, then acknowledged, and
    /// left where the rendering or the sending fails.
    pub open spec fn consumed(&self, step: ConsumeStep, action: ConsumeAction) -> bool {
        match step {
            ConsumeStep::Delivered { delivery_tag, content } => match mail_event_read(content@) {
                None => action is Leave,
                Some(read) => {
                    &&& action matches ConsumeAction::Render {
                        delivery_tag: tag,
                        template_dir,
                        event,
                    }
                    &&& tag == delivery_tag
                    &&& template_dir@ == self.mail_config.template_dir@
                    &&& event@ == read
                },
            },
            ConsumeStep::Rendered { delivery_tag, event, rendered } => match rendered {
                None => action is Leave,
                Some(html) => {
                    &&& action matches ConsumeAction::Send { delivery_tag: tag, mail }
                    &&& tag == delivery_tag
                    &&& mail.from@ == self.mail_config.username@
                    &&& mail.to == event.to
                    &&& mail.subject == event.subject
                    &&& mail.html == html
                    &&& self.mail_config.describes(mail.transport)
                },
            },
            ConsumeStep::Sent { delivery_tag, sent } => if sent {
                action == (ConsumeAction::Ack { delivery_tag, multiple: false })
            } else {
                action is Leave
            },
        }
    }

    /// A consumer with the settings `mail_config`.
    pub fn new(mail_config: MailConfig) -> (consumer: UserMailValidationConsumer)
        ensures
            consumer.mail_config == mail_config,
    {
        UserMailValidationConsumer { mail_config }
    }

    /// What to do with the event read from a delivery: render it, or
    /// leave the delivery where no event could be read.
    pub fn received(&self, delivery_tag: u64, event: Option<MailEvent>) -> (action: ConsumeAction)
        ensures
            match event {
                None => action is Leave,
                Some(read) => {
                    &&& action matches ConsumeAction::Render {
                        delivery_tag: tag,
                        template_dir,
                        event: e,
                    }
                    &&& tag == delivery_tag
                    &&& template_dir@ == self.mail_config.template_dir@
                    &&& e == read
                },
            },
    {
        match event {
            None => ConsumeAction::Leave,
            Some(event) => ConsumeAction::Render {
                delivery_tag,
                template_dir: self.mail_config.template_dir.clone(),
                event,
            },
        }
    }

    /// One step of the handling of a delivery: from where it stands to
    /// what is done next.
    pub fn consume(&self, step: ConsumeStep) -> (action: ConsumeAction)
        requires
            self.mail_config.wf(),
        ensures
            self.consumed(step, action),
    {
        match step {
            ConsumeStep::Delivered { delivery_tag, content } => {
                let event = read_event(content.as_slice());
                self.received(delivery_tag, event)
            },
            ConsumeStep::Rendered { delivery_tag, event, rendered } => match rendered {
                None => ConsumeAction::Leave,
                Some(html) => ConsumeAction::Send {
                    delivery_tag,
                    mail: Mail {
                        from: self.mail_config.username.clone(),
                        to: event.to,
                        subject: event.subject,
                        html,
                        transport: self.mail_config.transport(),
                    },
                },
            },
            ConsumeStep::Sent { delivery_tag, sent } => {
                if sent {
                    ConsumeAction::Ack { delivery_tag, multiple: false }
                } else {
                    ConsumeAction::Leave
                }
            },
        }
    }
}

} // verus!
