//! Platform naming for user identities.
//!
//! [`FrontendType`] names the platform a user reached the runtime from;
//! [`normalize_platform`] and [`FrontendType::canonical_name`] give the
//! lower-case keys used when platform identities are compared across trust
//! boundaries.

use vstd::prelude::*;
use crate::text::{
    chars_eq, chars_to_string, is_unicode_whitespace, leading_ws, lemma_leading_ws, lemma_trailing_ws, lower_char,
    lower_chars, lower_seq, str_to_chars, trailing_ws, trim_chars, trim_seq, IntoText,
};

verus! {

/// Supported frontend platforms.
#[derive(Debug, Clone, PartialEq, Eq, Hash)]
pub enum FrontendType {
    /// Discord bot integration
    Discord,
    /// WhatsApp integration
    WhatsApp,
    /// Telegram bot integration
    Telegram,
    /// Slack integration
    Slack,
    /// Web dashboard
    Web,
    /// Command-line interface
    Cli,
    /// Custom/third-party frontend
    Custom(String),
}

/// The canonical key of a platform: the known platforms have fixed
/// lower-case names, and a custom name is trimmed and lower-cased, with
/// `whats_app` read as `whatsapp`.
pub open spec fn canonical_name_of(f: FrontendType) -> Seq<char> {
    match f {
        FrontendType::Discord => "discord"@,
        FrontendType::WhatsApp => "whatsapp"@,
        FrontendType::Telegram => "telegram"@,
        FrontendType::Slack => "slack"@,
        FrontendType::Web => "web"@,
        FrontendType::Cli => "cli"@,
        FrontendType::Custom(name) => {
            let l = lower_seq(trim_seq(name@));
            if l == "whats_app"@ {
                "whatsapp"@
            } else {
                l
            }
        },
    }
}

/// What `Display` shows for a platform.
pub open spec fn frontend_display(f: FrontendType) -> Seq<char> {
    match f {
        FrontendType::Discord => "discord"@,
        FrontendType::WhatsApp => "whatsapp"@,
        FrontendType::Telegram => "telegram"@,
        FrontendType::Slack => "slack"@,
        FrontendType::Web => "web"@,
        FrontendType::Cli => "cli"@,
        FrontendType::Custom(name) => "custom:"@ + name@,
    }
}

impl FrontendType {
    /// Return a lowercase canonical key for this platform.
    ///
    /// Known variants return their static name; `Custom` values are trimmed
    /// and lowercased, so that `Custom("Telegram")` gives `"telegram"`, and
    /// the alias `whats_app` gives `"whatsapp"`. A `Custom` value that is
    /// empty or whitespace-only gives the empty string.
    pub fn canonical_name(&self) -> (r: String)
        ensures
            r@ == canonical_name_of(*self),
    {
        match self {
            FrontendType::Discord => String::from_str("discord"),
            FrontendType::WhatsApp => String::from_str("whatsapp"),
            FrontendType::Telegram => String::from_str("telegram"),
            FrontendType::Slack => String::from_str("slack"),
            FrontendType::Web => String::from_str("web"),
            FrontendType::Cli => String::from_str("cli"),
            FrontendType::Custom(name) => {
                let chars = str_to_chars(name.as_str());
                let l = lower_chars(&trim_chars(&chars));
                let alias = str_to_chars("whats_app");
                if chars_eq(&l, &alias) {
                    String::from_str("whatsapp")
                } else {
                    chars_to_string(&l)
                }
            },
        }
    }

    /// Returns `true` if `self` and `other` refer to the same logical
    /// platform: their canonical names are equal.
    pub fn is_same_platform(&self, other: &Self) -> (r: bool)
        ensures
            r == (canonical_name_of(*self) == canonical_name_of(*other)),
    {
        let a = self.canonical_name();
        let b = other.canonical_name();
        chars_eq(&str_to_chars(a.as_str()), &str_to_chars(b.as_str()))
    }

    /// A copy of the platform.
    pub fn duplicate(&self) -> (r: Self)
        ensures
            r == *self,
    {
        match self {
            FrontendType::Discord => FrontendType::Discord,
            FrontendType::WhatsApp => FrontendType::WhatsApp,
            FrontendType::Telegram => FrontendType::Telegram,
            FrontendType::Slack => FrontendType::Slack,
            FrontendType::Web => FrontendType::Web,
            FrontendType::Cli => FrontendType::Cli,
            FrontendType::Custom(name) => FrontendType::Custom(name.clone()),
        }
    }

    /// The display form: the platform name, or `custom:{name}`.
    pub fn to_string(&self) -> (r: String)
        ensures
            r@ == frontend_display(*self),
    {
        match self {
            FrontendType::Discord => String::from_str("discord"),
            FrontendType::WhatsApp => String::from_str("whatsapp"),
            FrontendType::Telegram => String::from_str("telegram"),
            FrontendType::Slack => String::from_str("slack"),
            FrontendType::Web => String::from_str("web"),
            FrontendType::Cli => String::from_str("cli"),
            FrontendType::Custom(name) => {
                let mut s = String::from_str("custom:");
                s.append(name.as_str());
                s
            },
        }
    }
}

/// Normalize a platform name: trim whitespace, lowercase (ASCII).
pub fn normalize_platform<S: IntoText>(name: S) -> (r: String)
    ensures
        r@ == lower_seq(trim_seq(name.text_view())),
{
    let s = name.into_text();
    let chars = str_to_chars(s.as_str());
    chars_to_string(&lower_chars(&trim_chars(&chars)))
}



proof fn lemma_lower_char_ws(c: char)
    ensures
        is_unicode_whitespace(lower_char(c)) == is_unicode_whitespace(c),
        lower_char(lower_char(c)) == lower_char(c),
{
}

/// Trimmed text starts and ends with a character that is not whitespace.
proof fn lemma_trim_ends(s: Seq<char>)
    ensures
        trim_seq(s).len() > 0 ==> !is_unicode_whitespace(trim_seq(s)[0]),
        trim_seq(s).len() > 0 ==> !is_unicode_whitespace(trim_seq(s).last()),
{
    lemma_leading_ws(s);
    let u = s.skip(leading_ws(s) as int);
    lemma_trailing_ws(u);
    let t = trim_seq(s);
    if t.len() > 0 {
        assert(t[0] == s[leading_ws(s) as int]);
        assert(t.last() == u[u.len() - trailing_ws(u) - 1]);
    }
}

/// Normalizing a platform name a second time changes nothing: the result
/// of [`normalize_platform`] is its own normal form.
pub proof fn law_normalize_platform_idempotent(name: Seq<char>)
    ensures
        lower_seq(trim_seq(lower_seq(trim_seq(name)))) == lower_seq(trim_seq(name)),
{
    let t = trim_seq(name);
    let l = lower_seq(t);
    lemma_trim_ends(name);
    if l.len() > 0 {
        lemma_lower_char_ws(t[0]);
        lemma_lower_char_ws(t.last());
        assert(l[0] == lower_char(t[0]));
        assert(l.last() == lower_char(t.last()));
    }
    assert(leading_ws(l) == 0);
    assert(trailing_ws(l) == 0);
    assert(trim_seq(l) =~= l);
    assert forall|i: int| 0 <= i < l.len() implies #[trigger] lower_seq(l)[i] == l[i] by {
        lemma_lower_char_ws(t[i]);
    }
    assert(lower_seq(l) =~= l);
}

} // verus!
