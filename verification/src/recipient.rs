//! Recipients: one line of input each, and the destination that the line
//! stands for.

use vstd::prelude::*;
use ethers::types::NameOrAddress;

verus! {

/// Where a transfer goes: an account address, or a name that the endpoint
/// resolves when the transaction is sent.
#[derive(Debug, PartialEq, Eq)]
pub enum Destination {
    /// The twenty bytes of an account address.
    Address([u8; 20]),
    /// A name of the chain's name service. Its form is not checked.
    Name(String),
}

/// A destination as a mathematical value.
#[verifier::ext_equal]
pub enum DestinationView {
    Address(Seq<u8>),
    Name(Seq<char>),
}

impl View for Destination {
    type V = DestinationView;

    open spec fn view(&self) -> DestinationView {
        match self {
            Destination::Address(bytes) => DestinationView::Address(bytes@),
            Destination::Name(name) => DestinationView::Name(name@),
        }
    }
}

impl Clone for Destination {
    fn clone(&self) -> (r: Self)
        ensures
            r == *self,
    {
        match self {
            Destination::Address(bytes) => Destination::Address(*bytes),
            Destination::Name(name) => Destination::Name(name.clone()),
        }
    }
}

/// One recipient of a batch: the line as it was read, and the destination it
/// was parsed into. A line that is no destination has none.
#[derive(Debug, PartialEq, Eq)]
pub struct Recipient {
    pub line: String,
    pub destination: Option<Destination>,
}

/// A recipient as a mathematical value.
#[verifier::ext_equal]
pub struct RecipientView {
    pub line: Seq<char>,
    pub destination: Option<DestinationView>,
}

impl View for Recipient {
    type V = RecipientView;

    open spec fn view(&self) -> RecipientView {
        RecipientView {
            line: self.line@,
            destination: destination_view(self.destination),
        }
    }
}

/// The destination that was read, if any, as a mathematical value.
pub open spec fn destination_view(destination: Option<Destination>) -> Option<DestinationView> {
    match destination {
        Some(d) => Some(d@),
        None => None,
    }
}

/// Whether a text begins with the two characters `0x`, which mark an address
/// written in hexadecimal.
pub open spec fn has_hex_prefix(text: Seq<char>) -> bool {
    text.len() >= 2 && text[0] == '0' && text[1] == 'x'
}

/// What `ethers` reads a text as: a destination, or nothing where the text
/// is a malformed address.
pub uninterp spec fn name_or_address(text: Seq<char>) -> Option<DestinationView>;

/// Calls `<ethers::types::NameOrAddress as FromStr>::from_str`.
///
/// Trusted: the result is a function of the text alone, named
/// [`name_or_address`]. A text without the prefix `0x` is taken as a name,
/// unchanged and unchecked; a text with the prefix is read as an address by
/// `H160`'s `from_str` and gives an address or an error, never a name.
#[verifier::external_body]
fn parse_name_or_address(text: &str) -> (r: Option<Destination>)
    ensures
        destination_view(r) == name_or_address(text@),
        !has_hex_prefix(text@) ==> destination_view(r) == Some(DestinationView::Name(text@)),
        has_hex_prefix(text@) ==> !(destination_view(r) matches Some(DestinationView::Name(_))),
{
    match text.parse::<NameOrAddress>() {
        Ok(NameOrAddress::Address(address)) => Some(Destination::Address(address.0)),
        Ok(NameOrAddress::Name(name)) => Some(Destination::Name(name)),
        Err(_) => None,
    }
}

impl Recipient {
    /// Reads one line of input as a recipient. The line is kept as it is,
    /// also where it is no destination.
    pub fn parse(line: String) -> (r: Recipient)
        ensures
            r.line@ == line@,
            r@.destination == name_or_address(line@),
            !has_hex_prefix(line@) ==> r@.destination == Some(DestinationView::Name(line@)),
            has_hex_prefix(line@) ==> !(r@.destination matches Some(DestinationView::Name(_))),
    {
        let destination = parse_name_or_address(line.as_str());
        Recipient { line, destination }
    }

    /// Whether the line could be read as a destination.
    pub fn is_valid(&self) -> (r: bool)
        ensures
            r == self@.destination is Some,
    {
        self.destination.is_some()
    }
}

/// Reads every line as a recipient, in the order of the input.
pub fn parse_recipients(lines: &Vec<String>) -> (recipients: Vec<Recipient>)
    ensures
        recipients.len() == lines.len(),
        forall|i: int|
            0 <= i < lines.len() ==> {
                &&& (#[trigger] recipients[i]).line@ == lines[i]@
                &&& recipients[i]@.destination == name_or_address(lines[i]@)
                &&& !has_hex_prefix(lines[i]@) ==> recipients[i]@.destination == Some(
                    DestinationView::Name(lines[i]@),
                )
                &&& has_hex_prefix(lines[i]@) ==> !(recipients[i]@.destination matches Some(
                    DestinationView::Name(_),
                ))
            },
{
    let mut recipients: Vec<Recipient> = Vec::new();
    let mut i: usize = 0;
    while i < lines.len()
        invariant
            i <= lines.len(),
            recipients.len() == i,
            forall|j: int|
                0 <= j < i ==> {
                    &&& (#[trigger] recipients[j]).line@ == lines[j]@
                    &&& recipients[j]@.destination == name_or_address(lines[j]@)
                    &&& !has_hex_prefix(lines[j]@) ==> recipients[j]@.destination == Some(
                        DestinationView::Name(lines[j]@),
                    )
                    &&& has_hex_prefix(lines[j]@) ==> !(recipients[j]@.destination matches Some(
                        DestinationView::Name(_),
                    ))
                },
        decreases lines.len() - i,
    {
        let recipient = Recipient::parse(lines[i].clone());
        recipients.push(recipient);
        i += 1;
    }
    recipients
}

} // verus!
