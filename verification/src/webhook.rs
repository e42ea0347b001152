//! Relaying a form to a named webhook: which webhook a name stands for, and
//! whether an embed is small enough to be sent.

use crate::permissions::texts;
use crate::text::same_text;
use vstd::prelude::*;
use vstd::string::StringSliceAdditionalSpecFns;

verus! {

/// A webhook that the relay knows by name.
#[derive(Debug, PartialEq)]
pub struct WebhookEntry {
    pub webhook: String,
    pub url: String,
    pub name: String,
}

/// What the relay is set up with.
#[derive(Debug, PartialEq)]
pub struct Configuration {
    pub port: u16,
    pub webhooks_list: Vec<WebhookEntry>,
}

/// A request to send plain text through a webhook.
#[derive(Debug, PartialEq)]
pub struct WebhookForm {
    pub webhook: String,
    pub content: String,
}

/// A request to send an embed through a webhook.
#[derive(Debug, PartialEq)]
pub struct EmbedWebhookForm {
    pub webhook: String,
    pub content: String,
    pub title: Option<String>,
    pub description: String,
    pub url: Option<String>,
    pub colour: Option<u32>,
    pub footer: Option<String>,
    pub image: Option<String>,
    pub thumbnail: Option<String>,
    pub author: Option<String>,
    pub fields: Option<String>,
}

/// A request for the sheet of a member of the code host.
#[derive(Debug, PartialEq)]
pub struct WebhookQuery {
    pub acces_token: String,
    pub name: String,
    pub surname: String,
    pub id: String,
}

/// Why a form is not relayed.
#[derive(Clone, Copy, Debug, PartialEq, Eq, Structural)]
pub enum WebhookError {
    /// No webhook goes by the name that the form gives.
    UnknownWebhook,
    /// The description of the embed is longer than an embed can hold.
    DescriptionTooLarge,
}

/// The most bytes that the description of an embed may have.
pub const MAX_DESCRIPTION_BYTES: usize = 4096;

/// `text` in lower case, as `str::to_lowercase` gives it.
pub uninterp spec fn lowercase(text: Seq<char>) -> Seq<char>;

/// `str::to_lowercase`: the lower-case form of `text`, which depends on
/// nothing but the characters of `text`.
#[verifier::external_body]
fn to_lowercase(text: &str) -> (lower: String)
    ensures
        lower@ == lowercase(text@),
{
    text.to_lowercase()
}

/// Whether `i` is the first place of `names` at which `wanted` stands.
pub open spec fn is_first_named(names: Seq<Seq<char>>, wanted: Seq<char>, i: int) -> bool {
    0 <= i < names.len() && names[i] == wanted && forall|j: int| 0 <= j < i ==> names[j] != wanted
}

/// The first place of `names` at which `wanted` stands, character for
/// character.
pub fn first_named(names: &Vec<String>, wanted: &str) -> (found: Option<usize>)
    ensures
        match found {
            Some(i) => is_first_named(texts(names@), wanted@, i as int),
            None => !texts(names@).contains(wanted@),
        },
{
    let mut i: usize = 0;
    while i < names.len()
        invariant
            i <= names.len(),
            forall|j: int| 0 <= j < i ==> texts(names@)[j] != wanted@,
        decreases names.len() - i,
    {
        if same_text(names[i].as_str(), wanted) {
            return Some(i);
        }
        i = i + 1;
    }
    None
}

/// The names of the webhooks of a list in lower case, in order.
pub open spec fn lowered_names(list: Seq<WebhookEntry>) -> Seq<Seq<char>> {
    Seq::new(list.len(), |i: int| lowercase(list[i].webhook@))
}

/// The first webhook of `list` whose name is `target_webhook`, whatever the
/// case of the letters of either.
pub fn retrieved_webhook<'a>(list: &'a Vec<WebhookEntry>, target_webhook: &str) -> (found: Option<
    &'a WebhookEntry,
>)
    ensures
        match found {
            Some(entry) => exists|i: int|
                is_first_named(lowered_names(list@), lowercase(target_webhook@), i) && *entry
                    == list@[i],
            None => !lowered_names(list@).contains(lowercase(target_webhook@)),
        },
{
    let wanted = to_lowercase(target_webhook);
    let mut names: Vec<String> = Vec::new();
    let mut i: usize = 0;
    while i < list.len()
        invariant
            i <= list.len(),
            names@.len() == i,
            forall|k: int| 0 <= k < i ==> names@[k]@ == lowercase(list@[k].webhook@),
        decreases list.len() - i,
    {
        names.push(to_lowercase(list[i].webhook.as_str()));
        i = i + 1;
    }
    proof {
        assert(texts(names@) =~= lowered_names(list@));
    }
    match first_named(&names, wanted.as_str()) {
        Some(place) => Some(&list[place]),
        None => None,
    }
}

/// Whether the description of an embed is small enough to be sent.
pub fn description_fits(description: &str) -> (fits: bool)
    ensures
        fits == (description.spec_bytes().len() <= MAX_DESCRIPTION_BYTES),
{
    description.as_bytes().len() <= MAX_DESCRIPTION_BYTES
}

/// Judges an embed before it is sent: the webhook must be known, and the
/// description must fit. An unknown webhook is reported first.
pub fn check_embed<'a>(list: &'a Vec<WebhookEntry>, webhook: &str, description: &str) -> (verdict:
    Result<&'a WebhookEntry, WebhookError>)
    ensures
        match verdict {
            Ok(entry) => description.spec_bytes().len() <= MAX_DESCRIPTION_BYTES && exists|i: int|
                is_first_named(lowered_names(list@), lowercase(webhook@), i) && *entry == list@[i],
            Err(WebhookError::UnknownWebhook) => !lowered_names(list@).contains(
                lowercase(webhook@),
            ),
            Err(WebhookError::DescriptionTooLarge) => lowered_names(list@).contains(
                lowercase(webhook@),
            ) && description.spec_bytes().len() > MAX_DESCRIPTION_BYTES,
        },
{
    match retrieved_webhook(list, webhook) {
        None => Err(WebhookError::UnknownWebhook),
        Some(entry) => {
            if description_fits(description) {
                Ok(entry)
            } else {
                proof {
                    let i = choose|i: int|
                        is_first_named(lowered_names(list@), lowercase(webhook@), i);
                    assert(lowered_names(list@)[i] == lowercase(webhook@));
                }
                Err(WebhookError::DescriptionTooLarge)
            }
        },
    }
}

} // verus!
