use vstd::prelude::*;

verus! {

/// One titled block of a card.
#[derive(Debug)]
pub struct CardField {
    pub name: String,
    pub value: String,
    pub inline: bool,
}

/// The attribution line at the bottom of a card.
#[derive(Debug)]
pub struct CardFooter {
    pub text: String,
    pub icon_url: String,
}

/// A structured reply card. `color` is 0xRRGGBB; `None` leaves the platform's
/// default.
#[derive(Debug)]
pub struct Card {
    pub title: String,
    pub url: Option<String>,
    pub description: Option<String>,
    pub color: Option<i32>,
    pub thumbnail: Option<String>,
    pub fields: Vec<CardField>,
    pub footer: Option<CardFooter>,
}

/// Whether a field has the given name, text and layout.
pub open spec fn field_is(f: CardField, name: Seq<char>, value: Seq<char>, inline: bool) -> bool {
    f.name@ == name && f.value@ == value && f.inline == inline
}

pub open spec fn footer_text() -> Seq<char> {
    "Powered by Tomato.gg"@
}

pub open spec fn footer_icon() -> Seq<char> {
    "https://tomato.gg/_next/image?url=%2Ftomato.png&w=48&q=75"@
}

/// A string holding the given text.
pub fn owned(s: &str) -> (r: String)
    ensures
        r@ == s@,
{
    String::from_str(s)
}

impl CardField {
    pub fn new(name: String, value: String, inline: bool) -> (r: CardField)
        ensures
            r.name == name,
            r.value == value,
            r.inline == inline,
    {
        CardField { name, value, inline }
    }
}

impl CardFooter {
    /// The upstream attribution.
    pub fn attribution() -> (r: CardFooter)
        ensures
            r.text@ == footer_text(),
            r.icon_url@ == footer_icon(),
    {
        CardFooter {
            text: owned("Powered by Tomato.gg"),
            icon_url: owned("https://tomato.gg/_next/image?url=%2Ftomato.png&w=48&q=75"),
        }
    }
}

impl Card {
    /// A card with only a title.
    pub fn titled(title: String) -> (r: Card)
        ensures
            r.title == title,
            r.url is None,
            r.description is None,
            r.color is None,
            r.thumbnail is None,
            r.fields@.len() == 0,
            r.footer is None,
    {
        Card {
            title,
            url: None,
            description: None,
            color: None,
            thumbnail: None,
            fields: Vec::new(),
            footer: None,
        }
    }
}

} // verus!
