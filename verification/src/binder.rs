//! Binding uploads and embeds to a message, within the size limits.

use crate::error::Error;
use crate::model::Embed;
use crate::model::File;
use crate::model::Message;
use crate::model::SendableEmbed;
use crate::model::Text;
use vstd::prelude::*;
use vstd::utf8::encode_utf8;

verus! {

/// The length of a text that may be absent, in bytes of UTF-8.
pub open spec fn text_len(text: Option<String>) -> nat {
    match text {
        Some(t) => encode_utf8(t@).len(),
        None => 0,
    }
}

/// The lengths of the descriptions of `embeds`, added up.
pub open spec fn descriptions_len(embeds: Seq<SendableEmbed>) -> nat
    decreases embeds.len(),
{
    if embeds.len() == 0 {
        0
    } else {
        descriptions_len(embeds.drop_last()) + text_len(embeds.last().description)
    }
}

/// The textual size of a message: its content and every embed description.
pub open spec fn payload_len(content: Option<String>, embeds: Seq<SendableEmbed>) -> nat {
    text_len(content) + descriptions_len(embeds)
}

/// The stored form of a submitted embed whose media, if any, resolved to `media`.
pub open spec fn text_embed(embed: SendableEmbed, media: Option<File>) -> Embed {
    Embed::Text(
        Text {
            icon_url: embed.icon_url,
            url: embed.url,
            title: embed.title,
            description: embed.description,
            media,
            colour: embed.colour,
        },
    )
}

/// The embeds of a message as a sequence; none when the field is absent.
pub open spec fn embeds_of(m: Message) -> Seq<Embed> {
    match m.embeds {
        Some(v) => v@,
        None => Seq::empty(),
    }
}

/// What `use_attachment` is to be asked: bind upload `id` to a message and
/// its author.
#[derive(Clone, Debug, PartialEq, Eq)]
pub struct AttachmentRequest {
    /// The upload to bind.
    pub id: String,
    /// The message that will own it.
    pub message_id: String,
    /// The author of that message.
    pub author_id: String,
}

fn text_len_of(text: &Option<String>) -> (r: usize)
    ensures
        r == text_len(*text),
{
    match text {
        Some(t) => t.as_str().as_bytes().len(),
        None => 0,
    }
}

impl Message {
    /// Checks that content and embed descriptions together are at most
    /// `max_length` bytes long; `PayloadTooLarge` otherwise.
    pub fn validate_sum(content: &Option<String>, embeds: &[SendableEmbed], max_length: usize) -> (r:
        Result<(), Error>)
        ensures
            payload_len(*content, embeds@) <= max_length ==> r is Ok,
            payload_len(*content, embeds@) > max_length ==> r == Err::<(), Error>(
                Error::PayloadTooLarge,
            ),
    {
        let first = text_len_of(content);
        if first > max_length {
            return Err(Error::PayloadTooLarge);
        }
        let mut running_total: usize = first;
        let mut i: usize = 0;
        while i < embeds.len()
            invariant
                i <= embeds.len(),
                running_total <= max_length,
                running_total == text_len(*content) + descriptions_len(embeds@.take(i as int)),
            decreases embeds.len() - i,
        {
            let len = text_len_of(&embeds[i].description);
            assert(embeds@.take(i as int + 1).drop_last() =~= embeds@.take(i as int));
            if len > max_length - running_total {
                proof {
                    lemma_descriptions_len_grows(embeds@, i as int + 1);
                }
                return Err(Error::PayloadTooLarge);
            }
            running_total = running_total + len;
            i = i + 1;
        }
        assert(embeds@.take(i as int) =~= embeds@);
        Ok(())
    }

    /// The request that binds upload `id` to this message.
    pub fn attachment_request(&self, id: &String) -> (r: AttachmentRequest)
        ensures
            r.id == *id,
            r.message_id == self.id,
            r.author_id == self.author,
    {
        AttachmentRequest { id: id.clone(), message_id: self.id.clone(), author_id: self.author.clone() }
    }

    /// Makes the stored embed from a submitted one. `validation` is the
    /// verdict of field validation, `media` what binding the embed's media
    /// answered (`None` where the embed names none). A failed validation
    /// comes first and is reported as `FailedValidation`; a failed binding
    /// is handed on as it is.
    pub fn create_embed(embed: SendableEmbed, validation: Result<(), String>, media: Option<
        Result<File, Error>,
    >) -> (r: Result<Embed, Error>)
        ensures
            validation matches Err(error) ==> r == Err::<Embed, Error>(
                Error::FailedValidation { error },
            ),
            validation is Ok ==> match media {
                Some(Err(e)) => r == Err::<Embed, Error>(e),
                Some(Ok(file)) => r == Ok::<Embed, Error>(text_embed(embed, Some(file))),
                None => r == Ok::<Embed, Error>(text_embed(embed, None)),
            },
    {
        match validation {
            Err(error) => {
                return Err(Error::FailedValidation { error });
            },
            Ok(_) => {},
        }
        let media = match media {
            Some(Err(e)) => {
                return Err(e);
            },
            Some(Ok(file)) => Some(file),
            None => None,
        };
        Ok(
            Embed::Text(
                Text {
                    icon_url: embed.icon_url,
                    url: embed.url,
                    title: embed.title,
                    description: embed.description,
                    media,
                    colour: embed.colour,
                },
            ),
        )
    }

    /// Turns a submitted embed into a text embed and appends it to the
    /// message's embeds. `media` is the upload the embed's media resolved to.
    pub fn attach_sendable_embed(&mut self, embed: SendableEmbed, media: Option<File>)
        ensures
            embeds_of(*final(self)) == embeds_of(*old(self)).push(text_embed(embed, media)),
            final(self).embeds is Some,
            *final(self) == (Message { embeds: final(self).embeds, ..*old(self) }),
    {
        let embed = Embed::Text(
            Text {
                icon_url: embed.icon_url,
                url: embed.url,
                title: embed.title,
                description: embed.description,
                media,
                colour: embed.colour,
            },
        );
        if let Some(embeds) = &mut self.embeds {
            embeds.push(embed);
        } else {
            let mut embeds: Vec<Embed> = Vec::new();
            embeds.push(embed);
            self.embeds = Some(embeds);
        }
    }
}

/// Leaving embeds out never makes the descriptions longer.
pub proof fn lemma_descriptions_len_grows(embeds: Seq<SendableEmbed>, n: int)
    requires
        0 <= n <= embeds.len(),
    ensures
        descriptions_len(embeds.take(n)) <= descriptions_len(embeds),
    decreases embeds.len() - n,
{
    if n < embeds.len() {
        assert(embeds.take(n + 1).drop_last() =~= embeds.take(n));
        lemma_descriptions_len_grows(embeds, n + 1);
    } else {
        assert(embeds.take(n) =~= embeds);
    }
}

} // verus!
