//! A message left through the contact form, and the words that answer it.
use vstd::prelude::*;
use vstd::string::*;

verus! {

/// A message from the contact form.
#[derive(Debug, PartialEq, Eq)]
pub struct Message {
    pub name: Option<String>,
    pub email: Option<String>,
    pub message: String,
}

impl Default for Message {
    fn default() -> (message: Self)
        ensures
            message.name is None,
            message.email is None,
            message.message@ == Seq::<char>::empty(),
    {
        Message { name: None, email: None, message: String::new() }
    }
}

/// The thanks for a message from a sender of the given name, if the sender gave one.
pub open spec fn thanks_of(name: Option<Seq<char>>) -> Seq<char> {
    "Thanks for reaching out"@ + match name {
        Some(name) => ", "@ + name,
        None => Seq::empty(),
    } + "! I'll get back to you soon :)"@
}

impl Message {
    /// The words that thank the sender, by name where the message carries one.
    pub fn thanks_text(&self) -> (text: String)
        ensures
            text@ == thanks_of(self.name.deep_view()),
    {
        let mut text = String::from_str("Thanks for reaching out");
        if let Some(name) = &self.name {
            text.append(", ");
            text.append(name.as_str());
        }
        text.append("! I'll get back to you soon :)");
        text
    }

    /// The sender's name as the notification mail shows it: `Missing` where the message
    /// carries none.
    pub fn sender_name(&self) -> (name: &str)
        ensures
            name@ == match self.name {
                Some(name) => name@,
                None => "Missing"@,
            },
    {
        match &self.name {
            Some(name) => name.as_str(),
            None => "Missing",
        }
    }

    /// The address to answer to as a `mailto:` link, where the message carries one.
    pub fn mailto(&self) -> (link: Option<String>)
        ensures
            link.deep_view() == match self.email {
                Some(email) => Some("mailto:"@ + email@),
                None => None,
            },
    {
        match &self.email {
            Some(email) => {
                let mut link = String::from_str("mailto:");
                link.append(email.as_str());
                Some(link)
            },
            None => None,
        }
    }
}

} // verus!
