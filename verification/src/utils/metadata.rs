//! A token's metadata, and the form that carries it to the store.

use crate::encoding::put_bytes;
use vstd::prelude::*;
use vstd::string::StringExecFns;
use vstd::utf8::encode_utf8;

verus! {

/// The metadata of a token, as the store keeps them.
#[derive(Debug, Clone, PartialEq, Eq)]
pub struct TokenMetadata {
    /// Name of the token.
    pub name: String,
    /// Symbol of the token.
    pub symbol: String,
    /// Description of the token.
    pub description: String,
    /// Address of the token's image.
    pub image: String,
    /// Whether the token's name is shown.
    pub show_name: bool,
    /// Where the token was created.
    pub created_on: String,
    /// Twitter handle.
    pub twitter: Option<String>,
    /// Telegram handle.
    pub telegram: Option<String>,
    /// Website.
    pub website: Option<String>,
}

/// What the store answers once it has taken a token's metadata.
#[derive(Debug, Clone, PartialEq, Eq)]
pub struct TokenMetadataResponse {
    /// The metadata as stored.
    pub metadata: TokenMetadata,
    /// Address under which the metadata are stored.
    pub metadata_uri: String,
}

/// What a caller says of a token that is to be created.
#[derive(Debug, Clone, PartialEq, Eq)]
pub struct CreateTokenMetadata {
    /// Name of the token.
    pub name: String,
    /// Symbol of the token.
    pub symbol: String,
    /// Description of the token.
    pub description: String,
    /// Path of the file that holds the token's image.
    pub file: String,
    /// Twitter handle.
    pub twitter: Option<String>,
    /// Telegram group.
    pub telegram: Option<String>,
    /// Website.
    pub website: Option<String>,
}

/// The line that separates the parts of the form.
pub const BOUNDARY: &'static str = "------------------------f4d9c2e8b7a5310f";

/// One text field of the form: the boundary, the field's name, and its
/// value.
pub open spec fn text_field(name: Seq<char>, value: Seq<char>) -> Seq<u8> {
    encode_utf8("--"@) + encode_utf8(BOUNDARY@) + encode_utf8("\r\n"@) + encode_utf8(
        "Content-Disposition: form-data; name=\""@,
    ) + encode_utf8(name) + encode_utf8("\"\r\n\r\n"@) + encode_utf8(value) + encode_utf8(
        "\r\n"@,
    )
}

/// A text field that is present only where its value is.
pub open spec fn optional_text_field(name: Seq<char>, value: Option<String>) -> Seq<u8> {
    match value {
        Some(text) => text_field(name, text@),
        None => Seq::empty(),
    }
}

/// The part of the form that carries the file, and the line that closes
/// the form.
pub open spec fn file_part(file_contents: Seq<u8>) -> Seq<u8> {
    encode_utf8("--"@) + encode_utf8(BOUNDARY@) + encode_utf8("\r\n"@) + encode_utf8(
        "Content-Disposition: form-data; name=\"file\"; filename=\"file\"\r\n"@,
    ) + encode_utf8("Content-Type: application/octet-stream\r\n\r\n"@) + file_contents
        + encode_utf8("\r\n--"@) + encode_utf8(BOUNDARY@) + encode_utf8("--\r\n"@)
}

/// The form that carries a token's metadata and image: name, symbol and
/// description, then the handles and the website that are present, then
/// the request to show the name, then the file.
pub open spec fn form_body_spec(metadata: CreateTokenMetadata, file_contents: Seq<u8>) -> Seq<u8> {
    text_field("name"@, metadata.name@) + text_field("symbol"@, metadata.symbol@) + text_field(
        "description"@,
        metadata.description@,
    ) + optional_text_field("twitter"@, metadata.twitter) + optional_text_field(
        "telegram"@,
        metadata.telegram,
    ) + optional_text_field("website"@, metadata.website) + text_field("showName"@, "true"@)
        + file_part(file_contents)
}

/// Appends one text field of the form to `body`.
pub fn append_text_field(body: &mut Vec<u8>, name: &str, value: &str)
    ensures
        final(body)@ == old(body)@ + text_field(name@, value@),
{
    put_bytes(body, "--".as_bytes());
    put_bytes(body, BOUNDARY.as_bytes());
    put_bytes(body, "\r\n".as_bytes());
    put_bytes(body, "Content-Disposition: form-data; name=\"".as_bytes());
    put_bytes(body, name.as_bytes());
    put_bytes(body, "\"\r\n\r\n".as_bytes());
    put_bytes(body, value.as_bytes());
    put_bytes(body, "\r\n".as_bytes());
    assert(body@ =~= old(body)@ + text_field(name@, value@));
}

/// Appends a text field of the form to `body` where its value is present.
pub fn append_optional_text_field(body: &mut Vec<u8>, name: &str, value: &Option<String>)
    ensures
        final(body)@ == old(body)@ + optional_text_field(name@, *value),
{
    match value {
        Some(text) => {
            append_text_field(body, name, text.as_str());
        },
        None => {
            assert(body@ =~= old(body)@ + Seq::<u8>::empty());
        },
    }
}

/// Builds the form that carries `metadata` and the contents of the image
/// file to the store.
pub fn form_body(metadata: &CreateTokenMetadata, file_contents: &[u8]) -> (r: Vec<u8>)
    ensures
        r@ == form_body_spec(*metadata, file_contents@),
{
    let mut body: Vec<u8> = Vec::new();
    append_text_field(&mut body, "name", metadata.name.as_str());
    append_text_field(&mut body, "symbol", metadata.symbol.as_str());
    append_text_field(&mut body, "description", metadata.description.as_str());
    append_optional_text_field(&mut body, "twitter", &metadata.twitter);
    append_optional_text_field(&mut body, "telegram", &metadata.telegram);
    append_optional_text_field(&mut body, "website", &metadata.website);
    append_text_field(&mut body, "showName", "true");
    let ghost fields: Seq<u8> = body@;

    put_bytes(&mut body, "--".as_bytes());
    put_bytes(&mut body, BOUNDARY.as_bytes());
    put_bytes(&mut body, "\r\n".as_bytes());
    put_bytes(
        &mut body,
        "Content-Disposition: form-data; name=\"file\"; filename=\"file\"\r\n".as_bytes(),
    );
    put_bytes(&mut body, "Content-Type: application/octet-stream\r\n\r\n".as_bytes());
    put_bytes(&mut body, file_contents);
    put_bytes(&mut body, "\r\n--".as_bytes());
    put_bytes(&mut body, BOUNDARY.as_bytes());
    put_bytes(&mut body, "--\r\n".as_bytes());
    assert(body@ =~= fields + file_part(file_contents@));
    assert(fields =~= form_body_spec(*metadata, file_contents@).subrange(0, fields.len() as int));
    assert(body@ =~= form_body_spec(*metadata, file_contents@));
    body
}

/// The value of the header that names the form's type and boundary.
pub fn form_content_type() -> (r: String)
    ensures
        r@ == "multipart/form-data; boundary="@ + BOUNDARY@,
{
    let prefix: String = "multipart/form-data; boundary=".to_owned();
    prefix.concat(BOUNDARY)
}

} // verus!
