//! The structured embed template: a tagged value with a fixed field set,
//! validated at configuration-write time, plus the conversion of a CSS
//! color string to the packed integer form the delivery format expects.

use vstd::prelude::*;
use crate::text::{clone_opt_string, opt_str_view};

verus! {

/// One name/value pair of an embed body.
#[derive(Debug, PartialEq)]
pub struct EmbedField {
    pub name: String,
    pub value: String,
    pub inline: bool,
}

pub ghost struct EmbedFieldView {
    pub name: Seq<char>,
    pub value: Seq<char>,
    pub inline: bool,
}

impl View for EmbedField {
    type V = EmbedFieldView;

    open spec fn view(&self) -> EmbedFieldView {
        EmbedFieldView { name: self.name@, value: self.value@, inline: self.inline }
    }
}

impl Clone for EmbedField {
    fn clone(&self) -> (r: Self)
        ensures
            r@ == self@,
    {
        EmbedField { name: self.name.clone(), value: self.value.clone(), inline: self.inline }
    }
}

/// The author block of an embed.
#[derive(Debug, PartialEq)]
pub struct EmbedAuthor {
    pub image: Option<String>,
    pub name: Option<String>,
    pub url: Option<String>,
}

pub ghost struct EmbedAuthorView {
    pub image: Option<Seq<char>>,
    pub name: Option<Seq<char>>,
    pub url: Option<Seq<char>>,
}

impl View for EmbedAuthor {
    type V = EmbedAuthorView;

    open spec fn view(&self) -> EmbedAuthorView {
        EmbedAuthorView {
            image: opt_str_view(self.image),
            name: opt_str_view(self.name),
            url: opt_str_view(self.url),
        }
    }
}

impl Clone for EmbedAuthor {
    fn clone(&self) -> (r: Self)
        ensures
            r@ == self@,
    {
        EmbedAuthor {
            image: clone_opt_string(&self.image),
            name: clone_opt_string(&self.name),
            url: clone_opt_string(&self.url),
        }
    }
}

/// The footer block of an embed.
#[derive(Debug, PartialEq)]
pub struct EmbedFooter {
    pub image: Option<String>,
    pub text: Option<String>,
}

pub ghost struct EmbedFooterView {
    pub image: Option<Seq<char>>,
    pub text: Option<Seq<char>>,
}

impl View for EmbedFooter {
    type V = EmbedFooterView;

    open spec fn view(&self) -> EmbedFooterView {
        EmbedFooterView { image: opt_str_view(self.image), text: opt_str_view(self.text) }
    }
}

impl Clone for EmbedFooter {
    fn clone(&self) -> (r: Self)
        ensures
            r@ == self@,
    {
        EmbedFooter { image: clone_opt_string(&self.image), text: clone_opt_string(&self.text) }
    }
}

/// The provider block of an embed.
#[derive(Debug, PartialEq)]
pub struct EmbedProvider {
    pub name: Option<String>,
    pub url: Option<String>,
}

pub ghost struct EmbedProviderView {
    pub name: Option<Seq<char>>,
    pub url: Option<Seq<char>>,
}

impl View for EmbedProvider {
    type V = EmbedProviderView;

    open spec fn view(&self) -> EmbedProviderView {
        EmbedProviderView { name: opt_str_view(self.name), url: opt_str_view(self.url) }
    }
}

impl Clone for EmbedProvider {
    fn clone(&self) -> (r: Self)
        ensures
            r@ == self@,
    {
        EmbedProvider { name: clone_opt_string(&self.name), url: clone_opt_string(&self.url) }
    }
}

/// An embed template: every text-bearing leaf may hold `{token}`
/// placeholders; the remaining fields pass through rendering unchanged.
#[derive(Debug, PartialEq)]
pub struct Embed {
    pub author: Option<EmbedAuthor>,
    pub color: Option<String>,
    pub description: Option<String>,
    pub fields: Vec<EmbedField>,
    pub footer: Option<EmbedFooter>,
    pub image: Option<String>,
    pub provider: Option<EmbedProvider>,
    pub thumbnail: Option<String>,
    pub timestamp: Option<String>,
    pub title: Option<String>,
    pub url: Option<String>,
}

pub ghost struct EmbedView {
    pub author: Option<EmbedAuthorView>,
    pub color: Option<Seq<char>>,
    pub description: Option<Seq<char>>,
    pub fields: Seq<EmbedFieldView>,
    pub footer: Option<EmbedFooterView>,
    pub image: Option<Seq<char>>,
    pub provider: Option<EmbedProviderView>,
    pub thumbnail: Option<Seq<char>>,
    pub timestamp: Option<Seq<char>>,
    pub title: Option<Seq<char>>,
    pub url: Option<Seq<char>>,
}

pub open spec fn opt_author_view(o: Option<EmbedAuthor>) -> Option<EmbedAuthorView> {
    match o {
        Some(a) => Some(a@),
        None => None,
    }
}

pub open spec fn opt_footer_view(o: Option<EmbedFooter>) -> Option<EmbedFooterView> {
    match o {
        Some(f) => Some(f@),
        None => None,
    }
}

pub open spec fn opt_provider_view(o: Option<EmbedProvider>) -> Option<EmbedProviderView> {
    match o {
        Some(p) => Some(p@),
        None => None,
    }
}

impl View for Embed {
    type V = EmbedView;

    open spec fn view(&self) -> EmbedView {
        EmbedView {
            author: opt_author_view(self.author),
            color: opt_str_view(self.color),
            description: opt_str_view(self.description),
            fields: self.fields@.map_values(|f: EmbedField| f@),
            footer: opt_footer_view(self.footer),
            image: opt_str_view(self.image),
            provider: opt_provider_view(self.provider),
            thumbnail: opt_str_view(self.thumbnail),
            timestamp: opt_str_view(self.timestamp),
            title: opt_str_view(self.title),
            url: opt_str_view(self.url),
        }
    }
}

impl Clone for Embed {
    fn clone(&self) -> (r: Self)
        ensures
            r@ == self@,
    {
        let mut fields: Vec<EmbedField> = Vec::new();
        let mut i: usize = 0;
        while i < self.fields.len()
            invariant
                i <= self.fields.len(),
                fields@.len() == i,
                forall|k: int| 0 <= k < i ==> fields@[k]@ == self.fields@[k]@,
            decreases self.fields.len() - i,
        {
            fields.push(self.fields[i].clone());
            i += 1;
        }
        let r = Embed {
            author: match &self.author {
                Some(a) => Some(a.clone()),
                None => None,
            },
            color: clone_opt_string(&self.color),
            description: clone_opt_string(&self.description),
            fields,
            footer: match &self.footer {
                Some(f) => Some(f.clone()),
                None => None,
            },
            image: clone_opt_string(&self.image),
            provider: match &self.provider {
                Some(p) => Some(p.clone()),
                None => None,
            },
            thumbnail: clone_opt_string(&self.thumbnail),
            timestamp: clone_opt_string(&self.timestamp),
            title: clone_opt_string(&self.title),
            url: clone_opt_string(&self.url),
        };
        proof {
            assert(r@.fields =~= self@.fields);
        }
        r
    }
}

/// The view of an optional embed.
pub open spec fn opt_embed_view(o: Option<Embed>) -> Option<EmbedView> {
    match o {
        Some(e) => Some(e@),
        None => None,
    }
}

/// Clones an optional embed, preserving presence and contents.
pub fn clone_opt_embed(o: &Option<Embed>) -> (r: Option<Embed>)
    ensures
        opt_embed_view(r) == opt_embed_view(*o),
{
    match o {
        Some(e) => Some(e.clone()),
        None => None,
    }
}

/// The 8-bit red, green, blue and alpha channels that the CSS color
/// parser derives from a color string, or nothing when the string is
/// not a color. The result depends on the characters alone.
pub uninterp spec fn css_rgba8_of(s: Seq<char>) -> Option<(u8, u8, u8, u8)>;

/// Relies on `csscolorparser::parse` and `Color::to_rgba8`: parses a CSS
/// color string and projects it to its four 8-bit channels.
#[verifier::external_body]
fn parse_css_color(s: &str) -> (r: Option<(u8, u8, u8, u8)>)
    ensures
        r == css_rgba8_of(s@),
{
    match csscolorparser::parse(s) {
        Ok(c) => {
            let a = c.to_rgba8();
            Some((a[0], a[1], a[2], a[3]))
        },
        Err(_) => None,
    }
}

/// Packs red, green and blue channels into one integer, red in the
/// highest of the three occupied bytes; alpha is not represented.
pub fn rgb_to_u32(r: u8, g: u8, b: u8) -> (v: u32)
    ensures
        v == (r as u32) * 0x10000 + (g as u32) * 0x100 + (b as u32),
{
    (r as u32) * 0x10000 + (g as u32) * 0x100 + (b as u32)
}

/// The packed integer form of a CSS color string: its red, green and
/// blue channels, or black when the string does not parse as a color.
pub open spec fn spec_css_to_u32(s: Seq<char>) -> u32 {
    match css_rgba8_of(s) {
        Some((r, g, b, _)) => ((r as u32) * 0x10000 + (g as u32) * 0x100 + (b as u32)) as u32,
        None => 0,
    }
}

/// Converts a CSS color string to packed red-green-blue form; a string
/// that does not parse converts as black.
pub fn css_to_u32(color: &str) -> (v: u32)
    ensures
        v == spec_css_to_u32(color@),
{
    match parse_css_color(color) {
        Some((r, g, b, _)) => rgb_to_u32(r, g, b),
        None => 0,
    }
}

} // verus!
