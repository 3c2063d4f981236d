//! The field policy that a traversal carries down the tree.

use vstd::prelude::*;

verus! {

/// Whether a field may hold personal data.
#[derive(Clone, Copy, PartialEq, Eq, Structural, Debug)]
pub enum Pii {
    /// The field holds personal data.
    True,
    /// The field holds no personal data.
    False,
    /// The field may hold personal data, depending on what it carries.
    Maybe,
}

/// The policy declared for one field of the schema.
///
/// The engine hands the policy to the hooks. It enforces none of the limits
/// itself.
#[derive(Clone, Copy, PartialEq, Eq, Structural, Debug)]
pub struct FieldAttrs {
    /// The field must be present.
    pub required: bool,
    /// The field must not be empty.
    pub nonempty: bool,
    /// Surrounding whitespace is removed from the field.
    pub trim_whitespace: bool,
    /// The largest number of characters, if limited.
    pub max_chars: Option<usize>,
    /// How far `max_chars` may be exceeded before the value is cut.
    pub max_chars_allowance: usize,
    /// The largest nesting depth below the field, if limited.
    pub max_depth: Option<usize>,
    /// The largest size of the field in bytes, if limited.
    pub max_bytes: Option<usize>,
    /// Whether the field may hold personal data.
    pub pii: Pii,
    /// The field is kept even when it is empty.
    pub retain: bool,
    /// The field may be shortened to meet the limits of its ancestors.
    pub trim: bool,
    /// The field is the open bag that takes what the schema does not declare.
    pub additional_properties: bool,
}

impl FieldAttrs {
    /// The policy of a field that declares nothing.
    #[verifier::allow_in_spec]
    pub fn new() -> FieldAttrs
        returns
            (FieldAttrs {
                required: false,
                nonempty: false,
                trim_whitespace: false,
                max_chars: None,
                max_chars_allowance: 0,
                max_depth: None,
                max_bytes: None,
                pii: Pii::False,
                retain: false,
                trim: true,
                additional_properties: false,
            }),
    {
        FieldAttrs {
            required: false,
            nonempty: false,
            trim_whitespace: false,
            max_chars: None,
            max_chars_allowance: 0,
            max_depth: None,
            max_bytes: None,
            pii: Pii::False,
            retain: false,
            trim: true,
            additional_properties: false,
        }
    }

    /// This policy with the personal-data marker set to `pii`.
    #[verifier::allow_in_spec]
    pub fn pii(self, pii: Pii) -> FieldAttrs
        returns
            (FieldAttrs { pii: pii, ..self }),
    {
        FieldAttrs { pii: pii, ..self }
    }

    /// This policy with the field marked as required or not.
    #[verifier::allow_in_spec]
    pub fn required(self, required: bool) -> FieldAttrs
        returns
            (FieldAttrs { required: required, ..self }),
    {
        FieldAttrs { required: required, ..self }
    }

    /// This policy with the field marked as non-empty or not.
    #[verifier::allow_in_spec]
    pub fn nonempty(self, nonempty: bool) -> FieldAttrs
        returns
            (FieldAttrs { nonempty: nonempty, ..self }),
    {
        FieldAttrs { nonempty: nonempty, ..self }
    }

    /// This policy with whitespace trimming switched on or off.
    #[verifier::allow_in_spec]
    pub fn trim_whitespace(self, trim_whitespace: bool) -> FieldAttrs
        returns
            (FieldAttrs { trim_whitespace: trim_whitespace, ..self }),
    {
        FieldAttrs { trim_whitespace: trim_whitespace, ..self }
    }

    /// This policy with a limit on the number of characters.
    #[verifier::allow_in_spec]
    pub fn max_chars(self, limit: usize) -> FieldAttrs
        returns
            (FieldAttrs { max_chars: Some(limit), ..self }),
    {
        FieldAttrs { max_chars: Some(limit), ..self }
    }

    /// This policy with the allowance by which `max_chars` may be exceeded.
    #[verifier::allow_in_spec]
    pub fn max_chars_allowance(self, allowance: usize) -> FieldAttrs
        returns
            (FieldAttrs { max_chars_allowance: allowance, ..self }),
    {
        FieldAttrs { max_chars_allowance: allowance, ..self }
    }

    /// This policy with a limit on the nesting depth.
    #[verifier::allow_in_spec]
    pub fn max_depth(self, limit: usize) -> FieldAttrs
        returns
            (FieldAttrs { max_depth: Some(limit), ..self }),
    {
        FieldAttrs { max_depth: Some(limit), ..self }
    }

    /// This policy with a limit on the size in bytes.
    #[verifier::allow_in_spec]
    pub fn max_bytes(self, limit: usize) -> FieldAttrs
        returns
            (FieldAttrs { max_bytes: Some(limit), ..self }),
    {
        FieldAttrs { max_bytes: Some(limit), ..self }
    }

    /// This policy with the field kept when empty, or not.
    #[verifier::allow_in_spec]
    pub fn retain(self, retain: bool) -> FieldAttrs
        returns
            (FieldAttrs { retain: retain, ..self }),
    {
        FieldAttrs { retain: retain, ..self }
    }

    /// This policy with shortening allowed or not.
    #[verifier::allow_in_spec]
    pub fn trim(self, trim: bool) -> FieldAttrs
        returns
            (FieldAttrs { trim: trim, ..self }),
    {
        FieldAttrs { trim: trim, ..self }
    }

    /// This policy marked as that of the open bag of undeclared fields.
    #[verifier::allow_in_spec]
    pub fn additional_properties(self) -> FieldAttrs
        returns
            (FieldAttrs { additional_properties: true, ..self }),
    {
        FieldAttrs { additional_properties: true, ..self }
    }
}

} // verus!
