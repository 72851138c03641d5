//! What the client of the app store works out before it asks the store.

use crate::text::{
    after_first, alphanumeric, before_first, is_alphanumeric, lowercase_of, push_char, split_first,
    to_lowercase,
};
use vstd::prelude::*;

verus! {

/// The tag of an image reference that names none.
pub open spec fn default_tag() -> Seq<char> {
    "latest"@
}

/// The character that a slug has in the place of `c`.
pub open spec fn slug_char(c: char) -> char {
    if alphanumeric(c) {
        c
    } else {
        '-'
    }
}

/// The slug of a name that is in lower case already.
pub open spec fn slug_of_lowercase(lower: Seq<char>) -> Seq<char> {
    Seq::new(lower.len(), |i: int| slug_char(lower[i]))
}

/// Splits an image reference into name and tag at its first colon. A
/// reference without a colon has the tag `latest`.
pub fn parse_image_reference(image: &str) -> (r: (String, String))
    ensures
        r.0@ == before_first(image@, ':'),
        r.1@ == (if image@.contains(':') {
            after_first(image@, ':')
        } else {
            default_tag()
        }),
{
    match split_first(image, ':') {
        Some((name, tag)) => (name, tag),
        None => (image.to_owned(), "latest".to_owned()),
    }
}

/// The slug of a name that is in lower case already: every character that
/// is neither a letter nor a number becomes a hyphen.
pub fn slug_lowercase(lower: &str) -> (slug: String)
    ensures
        slug@ == slug_of_lowercase(lower@),
{
    let mut slug = String::new();
    for c in it: lower.chars()
        invariant
            it.seq() == lower@,
            slug@.len() == it.index(),
            forall|j: int| 0 <= j < it.index() ==> slug@[j] == slug_char(lower@[j]),
    {
        if is_alphanumeric(c) {
            push_char(&mut slug, c);
        } else {
            push_char(&mut slug, '-');
        }
    }
    assert(slug@ =~= slug_of_lowercase(lower@));
    slug
}

/// The slug under which the store knows an app: its name in lower case,
/// with a hyphen for every character that is neither a letter nor a number.
pub fn slug(name: &str) -> (slug: String)
    ensures
        slug@ == slug_of_lowercase(lowercase_of(name@)),
{
    let lower = to_lowercase(name);
    slug_lowercase(lower.as_str())
}

/// The description of an app that was given none.
pub fn default_description(name: &str) -> (text: String)
    ensures
        text@ == "WASM application: "@ + name@,
{
    let mut text = "WASM application: ".to_owned();
    text.append(name);
    text
}

/// The address under which the store keeps the module of a version.
pub fn wasm_url(slug: &str, version: &str) -> (url: String)
    ensures
        url@ == "https://storage.supabase.co/wasm/"@ + slug@ + "/"@ + version@ + ".wasm"@,
{
    let mut url = "https://storage.supabase.co/wasm/".to_owned();
    url.append(slug);
    url.append("/");
    url.append(version);
    url.append(".wasm");
    url
}

/// The address under which the store keeps the manifest of a version.
pub fn manifest_url(slug: &str, version: &str) -> (url: String)
    ensures
        url@ == "https://storage.supabase.co/manifests/"@ + slug@ + "/"@ + version@ + ".json"@,
{
    let mut url = "https://storage.supabase.co/manifests/".to_owned();
    url.append(slug);
    url.append("/");
    url.append(version);
    url.append(".json");
    url
}

/// Whether a text can be an e-mail address: it holds an `@`.
pub fn is_email(text: &str) -> (b: bool)
    ensures
        b == text@.contains('@'),
{
    split_first(text, '@').is_some()
}

/// The user name offered to someone who registers with this address: what
/// stands before its first `@`.
pub fn default_username(email: &str) -> (name: String)
    ensures
        name@ == before_first(email@, '@'),
{
    match split_first(email, '@') {
        Some((name, _)) => name,
        None => email.to_owned(),
    }
}

} // verus!
