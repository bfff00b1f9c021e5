//! The outgoing chat payload: two messages (system and user), with an
//! optional image embedded in the user message as a PNG data URL.

use vstd::prelude::*;
use vstd::string::*;

use crate::encoding::{base64_decode, base64_of, MAX_BASE64_INPUT_LEN};
use crate::imaging::{image_decodable, image_to_base64, png_reencode_of};
use crate::textfmt::str_eq;

verus! {

/// Who speaks in a chat message.
#[derive(Clone, Copy, Debug, PartialEq, Eq, Structural)]
pub enum Role {
    System,
    User,
}

/// One outgoing chat message: a role, text, and optionally an inline image
/// as a data URL.
#[derive(Clone, Debug)]
pub struct ChatMsg {
    pub role: Role,
    pub text: String,
    pub image_data_url: Option<String>,
}

/// The data URL embedding a base64-encoded PNG.
pub open spec fn data_url_of(b64: Seq<char>) -> Seq<char> {
    "data:image/png;base64,"@ + b64
}

/// Wrap an already base64-encoded PNG as a data URL.
pub fn make_data_url(base64_img: &str) -> (r: String)
    ensures
        r@ == data_url_of(base64_img@),
{
    let mut r = String::from_str("data:image/png;base64,");
    r.append(base64_img);
    r
}

/// Recover the PNG bytes from a data URL: strip the prefix and base64-decode
/// the rest. Any data URL produced from PNG bytes decodes back to exactly
/// those bytes.
pub fn decode_data_url(url: &str) -> (r: Option<Vec<u8>>)
    ensures
        forall|png: Seq<u8>|
            url@ == data_url_of(#[trigger] base64_of(png)) ==> r is Some && r->0@ == png,
{
    proof {
        reveal_strlit("data:image/png;base64,");
    }
    let n = url.unicode_len();
    if n < 22 {
        return None;
    }
    let prefix = url.substring_char(0, 22);
    if !str_eq(prefix, "data:image/png;base64,") {
        proof {
            assert forall|png: Seq<u8>| url@ == data_url_of(#[trigger] base64_of(png)) implies false by {
                assert(url@.subrange(0, 22) =~= "data:image/png;base64,"@);
            }
        }
        return None;
    }
    let suffix = url.substring_char(22, n);
    proof {
        assert forall|png: Seq<u8>| url@ == data_url_of(#[trigger] base64_of(png)) implies suffix@
            == base64_of(png) by {
            assert(url@.subrange(22, url@.len() as int) =~= base64_of(png));
        }
    }
    match base64_decode(suffix) {
        Ok(bytes) => Some(bytes),
        Err(_) => None,
    }
}

/// What the user message's attachment must look like, given the optional
/// image bytes handed in.
pub open spec fn spec_attachment(image: Option<Seq<u8>>) -> Option<Seq<char>> {
    match image {
        None => None,
        Some(bytes) => if image_decodable(bytes) && png_reencode_of(bytes).len()
            <= MAX_BASE64_INPUT_LEN {
            Some(data_url_of(base64_of(png_reencode_of(bytes))))
        } else {
            None
        },
    }
}

/// Spec view of an optional byte vector.
pub open spec fn opt_bytes_view(image: Option<&Vec<u8>>) -> Option<Seq<u8>> {
    match image {
        None => None,
        Some(v) => Some(v@),
    }
}

/// Build the outgoing payload: one system message and one user message.
///
/// Without an image the user message is text-only. With an image that can be
/// normalised to PNG, the user message carries the image as a data URL and
/// the system text for image analysis is used; if the image cannot be
/// decoded, the request degrades gracefully to the text-only form rather
/// than failing.
pub fn build_messages(
    system_plain: &str,
    system_image: &str,
    text: &str,
    image: Option<&Vec<u8>>,
) -> (r: Vec<ChatMsg>)
    ensures
        r@.len() == 2,
        r@[0].role == Role::System,
        r@[0].image_data_url is None,
        r@[1].role == Role::User,
        r@[1].text@ == text@,
        ({
            let att = spec_attachment(opt_bytes_view(image));
            match att {
                Some(u) => r@[1].image_data_url matches Some(du) && du@ == u && r@[0].text@
                    == system_image@,
                None => r@[1].image_data_url is None && r@[0].text@ == system_plain@,
            }
        }),
{
    let attachment: Option<String> = match image {
        Some(bytes) => match image_to_base64(bytes) {
            Ok(b64) => Some(make_data_url(b64.as_str())),
            Err(_) => None,
        },
        None => None,
    };
    match attachment {
        Some(url) => {
            let system = ChatMsg {
                role: Role::System,
                text: system_image.to_owned(),
                image_data_url: None,
            };
            let user = ChatMsg {
                role: Role::User,
                text: text.to_owned(),
                image_data_url: Some(url),
            };
            let mut msgs: Vec<ChatMsg> = Vec::new();
            msgs.push(system);
            msgs.push(user);
            msgs
        },
        None => {
            let system = ChatMsg {
                role: Role::System,
                text: system_plain.to_owned(),
                image_data_url: None,
            };
            let user = ChatMsg { role: Role::User, text: text.to_owned(), image_data_url: None };
            let mut msgs: Vec<ChatMsg> = Vec::new();
            msgs.push(system);
            msgs.push(user);
            msgs
        },
    }
}

} // verus!
