//! The host-facing response model: event attributes for observability and an
//! optional data payload carrying the batch's accumulated results.

use vstd::prelude::*;
use crate::ics999::{ActionResult, ActionResultView};

verus! {

/// One key/value event attribute.
#[derive(Debug)]
pub struct Attribute {
    pub key: String,
    pub value: String,
}

/// The mathematical value of an [`Attribute`].
pub struct AttributeView {
    pub key: Seq<char>,
    pub value: Seq<char>,
}

impl View for Attribute {
    type V = AttributeView;

    open spec fn view(&self) -> AttributeView {
        AttributeView { key: self.key@, value: self.value@ }
    }
}

impl DeepView for Attribute {
    type V = AttributeView;

    open spec fn deep_view(&self) -> AttributeView {
        self.view()
    }
}

/// The pair an attribute abstracts to.
pub open spec fn attr(key: Seq<char>, value: Seq<char>) -> AttributeView {
    AttributeView { key, value }
}

/// What an invocation hands back to the hosting platform: descriptive
/// attributes, and, once a batch has finished, its results as the data
/// payload.
#[derive(Debug)]
pub struct Response {
    pub attributes: Vec<Attribute>,
    pub data: Option<Vec<ActionResult>>,
}

/// The mathematical value of a [`Response`].
pub struct ResponseView {
    pub attributes: Seq<AttributeView>,
    pub data: Option<Seq<ActionResultView>>,
}

impl View for Response {
    type V = ResponseView;

    open spec fn view(&self) -> ResponseView {
        ResponseView {
            attributes: self.attributes.deep_view(),
            data: match &self.data {
                Some(d) => Some(d.deep_view()),
                None => None,
            },
        }
    }
}

impl Response {
    /// A response with no attributes and no data.
    pub fn new() -> (r: Response)
        ensures
            r@.attributes == Seq::<AttributeView>::empty(),
            r@.data is None,
    {
        let r = Response { attributes: Vec::new(), data: None };
        proof {
            assert(r@.attributes =~= Seq::<AttributeView>::empty());
        }
        r
    }

    /// Appends one attribute.
    pub fn add_attribute(self, key: String, value: String) -> (r: Response)
        ensures
            r@.attributes == self@.attributes.push(attr(key@, value@)),
            r@.data == self@.data,
    {
        let mut attributes = self.attributes;
        let ghost prior = attributes.deep_view();
        attributes.push(Attribute { key, value });
        proof {
            assert(attributes.deep_view() =~= prior.push(attributes@.last()@));
        }
        Response { attributes, data: self.data }
    }

    /// Replaces the data payload.
    pub fn set_data(self, data: Vec<ActionResult>) -> (r: Response)
        ensures
            r@.attributes == self@.attributes,
            r@.data == Some(data.deep_view()),
    {
        Response { attributes: self.attributes, data: Some(data) }
    }
}

/// The decimal digit character of `d`.
pub open spec fn spec_digit(d: int) -> Seq<char> {
    if d == 0 {
        "0"@
    } else if d == 1 {
        "1"@
    } else if d == 2 {
        "2"@
    } else if d == 3 {
        "3"@
    } else if d == 4 {
        "4"@
    } else if d == 5 {
        "5"@
    } else if d == 6 {
        "6"@
    } else if d == 7 {
        "7"@
    } else if d == 8 {
        "8"@
    } else {
        "9"@
    }
}

/// The decimal representation of `n`, most significant digit first, with no
/// leading zeroes (except for zero itself).
pub open spec fn spec_dec(n: int) -> Seq<char>
    decreases n,
{
    if n < 10 {
        spec_digit(n)
    } else {
        spec_dec(n / 10) + spec_digit(n % 10)
    }
}

fn digit_str(d: u64) -> (r: &'static str)
    requires
        d < 10,
    ensures
        r@ == spec_digit(d as int),
{
    match d {
        0 => "0",
        1 => "1",
        2 => "2",
        3 => "3",
        4 => "4",
        5 => "5",
        6 => "6",
        7 => "7",
        8 => "8",
        _ => "9",
    }
}

/// Renders `n` in decimal.
pub fn u64_to_dec_string(n: u64) -> (s: String)
    ensures
        s@ == spec_dec(n as int),
    decreases n,
{
    if n < 10 {
        digit_str(n).to_owned()
    } else {
        let mut s = u64_to_dec_string(n / 10);
        s.append(digit_str(n % 10));
        s
    }
}

/// The text of a boolean.
pub open spec fn spec_bool_text(b: bool) -> Seq<char> {
    if b {
        "true"@
    } else {
        "false"@
    }
}

/// Renders a boolean as text.
pub fn bool_to_string(b: bool) -> (s: String)
    ensures
        s@ == spec_bool_text(b),
{
    if b {
        "true".to_owned()
    } else {
        "false".to_owned()
    }
}

} // verus!
