//! The mail notification pipeline: what is published after a registration
//! and what the consumer does with each delivery.

pub mod amqp;
pub mod mail_consumer;
pub mod wire;

pub use amqp::{
    NotifierAmqp, Publication, EXCHANGE_NAME, QUEUE_EVENT_MAIL, ROUTING_KEY_EVENT_MAIL,
};
pub use mail_consumer::{
    ConsumeAction, ConsumeStep, Mail, MailConfig, MailCredentials, MailEncryption, MailTransport,
    UserMailValidationConsumer,
};
