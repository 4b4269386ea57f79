//! Cover assets: the raw image bytes fetched once per game are stored
//! transport-encoded, and served decoded. The encoding is base64's.

use vstd::prelude::*;

use base64::Engine;

verus! {

/// What base64's standard-alphabet encoder returns for these bytes.
pub uninterp spec fn b64_of(b: Seq<u8>) -> Seq<char>;

/// What base64's standard-alphabet decoder returns for this text:
/// the decoded bytes, or nothing when the text is not valid base64.
pub uninterp spec fn b64_decode_of(s: Seq<char>) -> Option<Seq<u8>>;

/// Relies on base64's `Engine::encode` with the standard alphabet: the
/// encoding is a function of the bytes alone, and decoding an encoding
/// returns the bytes that were encoded.
#[verifier::external_body]
fn b64_encode(b: &Vec<u8>) -> (r: String)
    requires
        b@.len() <= usize::MAX / 4,
    ensures
        r@ == b64_of(b@),
        b64_decode_of(r@) == Some(b@),
{
    base64::prelude::BASE64_STANDARD.encode(b)
}

/// Relies on base64's `Engine::decode` with the standard alphabet: success
/// and the bytes returned are a function of the characters alone.
#[verifier::external_body]
fn b64_decode(s: &str) -> (r: Option<Vec<u8>>)
    ensures
        r matches Some(b) ==> b64_decode_of(s@) == Some(b@),
        r is Some <==> b64_decode_of(s@) is Some,
{
    match base64::prelude::BASE64_STANDARD.decode(s) {
        Ok(v) => Some(v),
        Err(_) => None,
    }
}

/// The mathematical content of a stored cover record.
pub struct CoverRecordView {
    pub game_id: Seq<char>,
    pub data: Seq<char>,
}

/// One stored cover: the owning game's id and the encoded image bytes.
pub struct CoverRecord {
    pub game_id: String,
    pub data: String,
}

impl View for CoverRecord {
    type V = CoverRecordView;

    open spec fn view(&self) -> CoverRecordView {
        CoverRecordView { game_id: self.game_id@, data: self.data@ }
    }
}

/// Build the record to store for a freshly fetched cover image.
pub fn make_cover_record(game_id: &String, bytes: &Vec<u8>) -> (r: CoverRecord)
    requires
        bytes@.len() <= usize::MAX / 4,
    ensures
        r@.game_id == game_id@,
        r@.data == b64_of(bytes@),
        b64_decode_of(r@.data) == Some(bytes@),
{
    CoverRecord { game_id: game_id.clone(), data: b64_encode(bytes) }
}

/// Decode a stored cover's data back to the raw image bytes; `None` when
/// the stored text is not valid base64.
pub fn decode_cover_data(data: &String) -> (r: Option<Vec<u8>>)
    ensures
        r matches Some(b) ==> b64_decode_of(data@) == Some(b@),
        r is Some <==> b64_decode_of(data@) is Some,
{
    b64_decode(data.as_str())
}

} // verus!
