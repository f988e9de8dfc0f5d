//! The image-text side of the pipeline: picking the image attachments out of
//! a message and preparing fetched bytes for the text-recognition
//! collaborator.

use vstd::prelude::*;
use base64::Engine;
use crate::strutil::str_starts_with;

verus! {

/// One inbound attachment, reduced to what the dispatch logic reads: its
/// declared content type, if any, and the address its bytes can be fetched
/// from.
pub struct Attachment {
    pub content_type: Option<String>,
    pub url: String,
}

/// Spec-level image of an `Attachment`.
#[verifier::ext_equal]
pub struct AttachmentView {
    pub content_type: Option<Seq<char>>,
    pub url: Seq<char>,
}

impl View for Attachment {
    type V = AttachmentView;

    open spec fn view(&self) -> AttachmentView {
        AttachmentView {
            content_type: match self.content_type {
                Some(ct) => Some(ct@),
                None => None,
            },
            url: self.url@,
        }
    }
}

/// The views of a run of attachments.
pub open spec fn attachment_views(atts: Seq<Attachment>) -> Seq<AttachmentView> {
    atts.map_values(|a: Attachment| a@)
}

/// An attachment counts as an image exactly when its declared content type
/// starts with `image`; an attachment without a content type does not.
pub open spec fn spec_is_image(a: AttachmentView) -> bool {
    a.content_type matches Some(ct) && "image"@.is_prefix_of(ct)
}

/// The fetch addresses of the image attachments, in arrival order. Other
/// attachments are silently excluded, not reported as errors.
pub open spec fn spec_image_urls(atts: Seq<AttachmentView>) -> Seq<Seq<char>>
    decreases atts.len(),
{
    if atts.len() == 0 {
        Seq::empty()
    } else {
        spec_image_urls(atts.drop_last()) + (if spec_is_image(atts.last()) {
            seq![atts.last().url]
        } else {
            Seq::empty()
        })
    }
}

/// Collect the addresses of the image attachments, in arrival order.
pub fn image_urls(attachments: &Vec<Attachment>) -> (urls: Vec<String>)
    ensures
        urls@.map_values(|u: String| u@) == spec_image_urls(attachment_views(attachments@)),
{
    let mut urls: Vec<String> = Vec::new();
    let mut i: usize = 0;
    proof {
        assert(urls@.map_values(|u: String| u@) =~= Seq::<Seq<char>>::empty());
        assert(attachment_views(attachments@).take(0) =~= Seq::<AttachmentView>::empty());
    }
    while i < attachments.len()
        invariant
            i <= attachments@.len(),
            urls@.map_values(|u: String| u@) == spec_image_urls(
                attachment_views(attachments@).take(i as int),
            ),
        decreases attachments@.len() - i,
    {
        let a = &attachments[i];
        let is_img = match &a.content_type {
            Some(ct) => str_starts_with(ct.as_str(), "image"),
            None => false,
        };
        proof {
            assert(attachment_views(attachments@)[i as int] == attachments@[i as int]@);
            assert(is_img == spec_is_image(attachment_views(attachments@)[i as int]));
        }
        if is_img {
            urls.push(a.url.clone());
        }
        proof {
            let av = attachment_views(attachments@);
            assert(av.take(i as int + 1).drop_last() =~= av.take(i as int));
            assert(av.take(i as int + 1).last() == av[i as int]);
            if is_img {
                assert(urls@.map_values(|u: String| u@) =~= spec_image_urls(
                    av.take(i as int),
                ) + seq![av[i as int].url]);
            }
            assert(urls@.map_values(|u: String| u@) =~= spec_image_urls(av.take(i as int + 1)));
        }
        i = i + 1;
    }
    proof {
        assert(attachment_views(attachments@).take(attachments@.len() as int) =~= attachment_views(
            attachments@,
        ));
    }
    urls
}

/// The standard base64 encoding of a byte run, as the text-recognition
/// collaborator expects its input: a pure function of the bytes alone.
pub uninterp spec fn base64_of(bytes: Seq<u8>) -> Seq<char>;

/// Relies on `base64::engine::general_purpose::STANDARD` (RFC 4648 with
/// padding): encoding depends on the input bytes alone and yields four output
/// characters for every started group of three input bytes.
#[verifier::external_body]
pub(crate) fn base64_standard_encode(bytes: &Vec<u8>) -> (r: String)
    ensures
        r@ == base64_of(bytes@),
        r@.len() == 4 * ((bytes@.len() + 2) / 3),
{
    base64::engine::general_purpose::STANDARD.encode(bytes)
}

} // verus!
