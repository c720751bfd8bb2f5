use vstd::prelude::*;

verus! {

/// The message that asks for a validation mail: its subject, the address
/// it goes to, the name of the person and the validation code.
#[derive(Debug)]
pub struct MailEvent {
    pub subject: String,
    pub to: String,
    pub name: String,
    pub token: String,
}

/// A mail event as mathematical values.
pub ghost struct MailEventView {
    pub subject: Seq<char>,
    pub to: Seq<char>,
    pub name: Seq<char>,
    pub token: Seq<char>,
}

impl View for MailEvent {
    type V = MailEventView;

    open spec fn view(&self) -> MailEventView {
        MailEventView {
            subject: self.subject@,
            to: self.to@,
            name: self.name@,
            token: self.token@,
        }
    }
}

} // verus!
