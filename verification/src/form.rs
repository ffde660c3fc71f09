//! Form input with one mandatory and one optional text field.

use crate::text::{lemma_trimmed_is_idempotent, trim, trimmed};
use vstd::prelude::*;

verus! {

/// The fields of a submitted form.
pub struct FormData {
    pub mandatory_field: String,
    pub optional_field: Option<String>,
}

/// The text of a form's fields.
pub struct FormText {
    pub mandatory_field: Seq<char>,
    pub optional_field: Option<Seq<char>>,
}

impl View for FormData {
    type V = FormText;

    open spec fn view(&self) -> FormText {
        FormText {
            mandatory_field: self.mandatory_field@,
            optional_field: match self.optional_field {
                Some(text) => Some(text@),
                None => None,
            },
        }
    }
}

/// What sanitizing makes of the text of two fields: each field that is present loses
/// its leading and trailing white space, and an absent field stays absent.
pub open spec fn sanitized(mandatory_field: Seq<char>, optional_field: Option<Seq<char>>) -> FormText {
    FormText {
        mandatory_field: trimmed(mandatory_field),
        optional_field: match optional_field {
            Some(text) => Some(trimmed(text)),
            None => None,
        },
    }
}

/// Builds the form from raw field input, trimming white space off both ends of each
/// field that is present.
pub fn sanitize_form_data(mandatory_field: &String, optional_field: &Option<String>) -> (form:
    FormData)
    ensures
        form@ == sanitized(
            mandatory_field@,
            match *optional_field {
                Some(text) => Some(text@),
                None => None,
            },
        ),
{
    let sanitized_mandatory_field = trim(mandatory_field.as_str()).to_owned();
    let sanitized_optional_field: Option<String> = match optional_field {
        Some(field_value) => Some(trim(field_value.as_str()).to_owned()),
        None => None,
    };
    FormData {
        mandatory_field: sanitized_mandatory_field,
        optional_field: sanitized_optional_field,
    }
}

/// Sanitizing is idempotent: sanitized fields come out of it unchanged.
pub proof fn lemma_sanitized_is_idempotent(
    mandatory_field: Seq<char>,
    optional_field: Option<Seq<char>>,
)
    ensures
        ({
            let once = sanitized(mandatory_field, optional_field);
            sanitized(once.mandatory_field, once.optional_field) == once
        }),
{
    lemma_trimmed_is_idempotent(mandatory_field);
    if let Some(text) = optional_field {
        lemma_trimmed_is_idempotent(text);
    }
}

} // verus!
