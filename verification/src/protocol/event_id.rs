//! The identifier of an event.

use crate::meta::Meta;
use crate::processor::action::ProcessingResult;
use crate::processor::model::Tree;
use crate::processor::state::ProcessingState;
use crate::processor::traits::{Node, ProcessValue, Processor};
use crate::value_type::ValueTypeSet;
use vstd::prelude::*;

verus! {

/// The error type of the crate `uuid`.
#[verifier::external_type_specification]
#[verifier::external_body]
pub struct ExUuidError(uuid::Error);

/// A text is not the text of an identifier.
#[derive(Clone, Copy, PartialEq, Eq, Structural, Debug)]
pub struct InvalidEventId;

/// The number of the UUID that the text `text` stands for, where the crate
/// `uuid` takes the text for one.
pub uninterp spec fn uuid_number(text: Seq<char>) -> Option<u128>;

/// The hexadecimal digit, in lower case, for a value below sixteen.
pub open spec fn hex_digit(d: u128) -> char {
    if d < 10 {
        crate::text::digit_char(d as nat)
    } else if d == 10 {
        'a'
    } else if d == 11 {
        'b'
    } else if d == 12 {
        'c'
    } else if d == 13 {
        'd'
    } else if d == 14 {
        'e'
    } else {
        'f'
    }
}

/// The 32 hexadecimal digits of a 128-bit number, the highest first.
pub open spec fn simple_hex(id: u128) -> Seq<char> {
    Seq::new(32, |i: int| hex_digit((id >> ((4 * (31 - i)) as u128)) & 0xf))
}

/// Trusted: `Uuid::parse_str` of the crate `uuid`, followed by
/// `Uuid::as_u128`. Whether a text is taken, and for which number, is a
/// function of the text alone; the contract gives it the name `uuid_number`
/// and says nothing else of it.
#[verifier::external_body]
fn parse_uuid(text: &str) -> (r: Result<u128, uuid::Error>)
    ensures
        match r {
            Ok(id) => uuid_number(text@) == Some(id),
            Err(_) => uuid_number(text@) is None,
        },
{
    uuid::Uuid::parse_str(text).map(|id| id.as_u128())
}

/// Trusted: `Uuid::from_u128` of the crate `uuid`, followed by
/// `Uuid::as_simple` and the text that its `Display` writes: the 32
/// hexadecimal digits of the number in lower case, without hyphens.
#[verifier::external_body]
fn simple_uuid_text(id: u128) -> (r: String)
    ensures
        r@ == simple_hex(id),
{
    uuid::Uuid::from_u128(id).as_simple().to_string()
}

/// The identifier of an event: a UUID, held as the 128-bit number that its
/// sixteen bytes make, the first byte highest.
#[derive(Clone, Copy, PartialEq, Eq, Structural, PartialOrd, Ord, Hash, Debug)]
pub struct EventId(pub u128);

/// The bits of a UUID that hold its version and its variant.
pub const UUID_FORM_MASK: u128 = 0x0000_0000_0000_f000_c000_0000_0000_0000u128;

/// What those bits are in a random UUID: version 4, and the variant of RFC
/// 4122.
pub const UUID_RANDOM_FORM: u128 = 0x0000_0000_0000_4000_8000_0000_0000_0000u128;

/// Trusted: `Uuid::new_v4` of the crate `uuid`, followed by `Uuid::as_u128`.
/// The number is random; in every outcome the version is 4 and the variant
/// is that of RFC 4122.
#[verifier::external_body]
fn random_uuid() -> (r: u128)
    ensures
        r & UUID_FORM_MASK == UUID_RANDOM_FORM,
{
    uuid::Uuid::new_v4().as_u128()
}

impl EventId {
    /// A new random identifier.
    pub fn new() -> (r: EventId)
        ensures
            r.0 & UUID_FORM_MASK == UUID_RANDOM_FORM,
            !r.spec_is_nil(),
    {
        let id = random_uuid();
        assert(id != 0) by (bit_vector)
            requires
                id & 0x0000_0000_0000_f000_c000_0000_0000_0000u128
                    == 0x0000_0000_0000_4000_8000_0000_0000_0000u128,
        ;
        EventId(id)
    }

    /// The identifier that `text` stands for.
    pub fn parse(text: &str) -> (r: Result<EventId, InvalidEventId>)
        ensures
            match r {
                Ok(id) => uuid_number(text@) == Some(id.0),
                Err(_) => uuid_number(text@) is None,
            },
    {
        match parse_uuid(text) {
            Ok(id) => Ok(EventId(id)),
            Err(_) => Err(InvalidEventId),
        }
    }

    /// The identifier as text: its 32 hexadecimal digits in lower case,
    /// without hyphens.
    pub fn to_string(&self) -> (r: String)
        ensures
            r@ == simple_hex(self.0),
    {
        simple_uuid_text(self.0)
    }

    /// The identifier of which every bit is zero.
    pub fn nil() -> (r: EventId)
        ensures
            r.0 == 0,
    {
        EventId(0)
    }

    /// Whether every bit of the identifier is zero.
    pub open spec fn spec_is_nil(&self) -> bool {
        self.0 == 0
    }

    /// Whether every bit of the identifier is zero.
    #[verifier::when_used_as_spec(spec_is_nil)]
    pub fn is_nil(&self) -> (r: bool)
        ensures
            r == self.spec_is_nil(),
    {
        self.0 == 0
    }
}

impl Default for EventId {
    /// A new random identifier.
    fn default() -> (r: EventId)
        ensures
            !r.is_nil(),
    {
        EventId::new()
    }
}

impl std::str::FromStr for EventId {
    type Err = InvalidEventId;

    fn from_str(text: &str) -> (r: Result<EventId, InvalidEventId>)
        ensures
            match r {
                Ok(id) => uuid_number(text@) == Some(id.0),
                Err(_) => uuid_number(text@) is None,
            },
    {
        EventId::parse(text)
    }
}

impl Node for EventId {
    open spec fn tree(&self) -> Tree {
        crate::protocol::types::atom(self.0 as int)
    }
}

impl ProcessValue for EventId {
    fn value_type(&self) -> (r: ValueTypeSet) {
        ValueTypeSet::empty()
    }

    fn process_value<P: Processor>(
        &mut self,
        meta: &mut Meta,
        processor: &mut P,
        state: &ProcessingState<'_>,
    ) -> (r: ProcessingResult) {
        Ok(())
    }

    fn process_child_values<P: Processor>(
        &mut self,
        processor: &mut P,
        state: &ProcessingState<'_>,
    ) -> (r: ProcessingResult) {
        Ok(())
    }
}

} // verus!
