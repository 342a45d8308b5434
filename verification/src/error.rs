//! The ways in which a conversion fails.

use vstd::prelude::*;

verus! {

/// Why an input could not be converted.
#[derive(Debug, Clone, PartialEq, Eq)]
pub enum ConversionError {
    /// The input, once wrapped, is not well-formed XML. Holds the parser's
    /// description of the fault.
    Parse(String),
    /// A top-level node that is no comment is not a `dependency` element. Holds
    /// the node's tag name, which is empty where the node is not an element.
    Structure(String),
    /// A `dependency` has no child of the given name, or that child has no text.
    MissingField(String),
}

/// The mathematical value of a [`ConversionError`].
pub enum ConversionErrorView {
    Parse(Seq<char>),
    Structure(Seq<char>),
    MissingField(Seq<char>),
}

impl View for ConversionError {
    type V = ConversionErrorView;

    open spec fn view(&self) -> ConversionErrorView {
        match self {
            ConversionError::Parse(fault) => ConversionErrorView::Parse(fault@),
            ConversionError::Structure(tag) => ConversionErrorView::Structure(tag@),
            ConversionError::MissingField(field) => ConversionErrorView::MissingField(field@),
        }
    }
}

/// The text that [`ConversionError::message`] gives for an error.
pub open spec fn message_of(e: ConversionErrorView) -> Seq<char> {
    match e {
        ConversionErrorView::Parse(fault) => "Error parsing XML: "@ + fault,
        ConversionErrorView::Structure(tag) => {
            "The provided string is not a correct maven dependency: <"@ + tag + ">"@
        },
        ConversionErrorView::MissingField(field) => "Missing "@ + field + "!"@,
    }
}

/// The mathematical value of what a conversion returns.
pub open spec fn outcome(r: Result<String, ConversionError>) -> Result<
    Seq<char>,
    ConversionErrorView,
> {
    match r {
        Ok(text) => Ok(text@),
        Err(e) => Err(e@),
    }
}

impl ConversionError {
    /// A sentence for the user that names the failure.
    pub fn message(&self) -> (text: String)
        ensures
            text@ == message_of(self@),
    {
        match self {
            ConversionError::Parse(fault) => {
                let mut text = String::from_str("Error parsing XML: ");
                text.append(fault.as_str());
                text
            },
            ConversionError::Structure(tag) => {
                let mut text = String::from_str(
                    "The provided string is not a correct maven dependency: <",
                );
                text.append(tag.as_str());
                text.append(">");
                text
            },
            ConversionError::MissingField(field) => {
                let mut text = String::from_str("Missing ");
                text.append(field.as_str());
                text.append("!");
                text
            },
        }
    }
}

} // verus!
