use vstd::prelude::*;
use vstd::utf8::{decode_utf8, encode_utf8, encode_utf8_decode_utf8, encode_utf8_valid_utf8, valid_utf8};
use crate::content::ContentId;
use crate::signature::{
    detect_kind, extension_of, gif87_magic, gif89_magic, jpg_magic, kind_of, occurs_at, pdf_magic,
    png_magic, riff_magic, webp_magic,
};

verus! {

/// The lowercase hexadecimal digit for `n` (below 16).
pub open spec fn hex_digit(n: int) -> char {
    seq!['0', '1', '2', '3', '4', '5', '6', '7', '8', '9', 'a', 'b', 'c', 'd', 'e', 'f'][n]
}

/// Two lowercase digits for each byte, the high half first.
pub open spec fn hex_text(b: Seq<u8>) -> Seq<char>
    decreases b.len(),
{
    if b.len() == 0 {
        seq![]
    } else {
        seq![hex_digit(b[0] as int / 16), hex_digit(b[0] as int % 16)] + hex_text(b.drop_first())
    }
}

/// Relies on hex::encode: two lowercase digits per byte, high half first.
#[verifier::external_body]
fn hex_lower(b: &[u8]) -> (r: String)
    ensures
        r@ == hex_text(b@),
{
    hex::encode(b)
}

/// What `String::from_utf8_lossy` makes of some bytes.
pub uninterp spec fn lossy_text(b: Seq<u8>) -> Seq<char>;

/// Relies on String::from_utf8_lossy: valid UTF-8 is decoded unchanged,
/// anything else gets replacement characters.
#[verifier::external_body]
fn utf8_lossy(b: &[u8]) -> (r: String)
    ensures
        r@ == lossy_text(b@),
        valid_utf8(b@) ==> r@ == decode_utf8(b@),
{
    String::from_utf8_lossy(b).into_owned()
}

/// What `Path::file_name` gives for a path, as text.
pub uninterp spec fn file_name_of(path: Seq<char>) -> Option<Seq<char>>;

/// Relies on std::path::Path::file_name: the last component of a path, if
/// it has one.
#[verifier::external_body]
fn path_file_name(path: &str) -> (r: Option<String>)
    ensures
        match r {
            Some(n) => file_name_of(path@) == Some(n@),
            None => file_name_of(path@) is None,
        },
{
    std::path::Path::new(path).file_name().map(|n| n.to_string_lossy().into_owned())
}

/// The name under which content is saved when no name travels with it.
pub open spec fn received_name(id: Seq<u8>, ext: Seq<char>) -> Seq<char> {
    "received_"@ + hex_text(id.subrange(0, 4)) + "."@ + ext
}

/// The name of a temporary file: a prefix and the hex of a random nonce.
pub open spec fn temp_name(prefix: Seq<char>, nonce: Seq<u8>) -> Seq<char> {
    prefix + hex_text(nonce)
}

/// The name that a sent file travels under: the last component of its path,
/// or the empty name when the path has none.
pub open spec fn sent_name(path: Seq<char>) -> Seq<char> {
    match file_name_of(path) {
        Some(n) => n,
        None => seq![],
    }
}

/// The text of a metadata unit: its UTF-8 decoding, with replacement
/// characters where the bytes are not valid UTF-8.
pub open spec fn meta_text(meta: Seq<u8>) -> Seq<char> {
    if valid_utf8(meta) {
        decode_utf8(meta)
    } else {
        lossy_text(meta)
    }
}

/// The name under which a bundle's payload is saved: the name it carried, or
/// one derived from the payload's id when that name is empty.
pub open spec fn save_name_of(meta: Seq<u8>, payload: Seq<u8>) -> Seq<char> {
    if meta_text(meta).len() == 0 {
        received_name(payload, "bin"@)
    } else {
        meta_text(meta)
    }
}

fn id_prefix(id: &ContentId) -> (r: Vec<u8>)
    ensures
        r@ == id@.subrange(0, 4),
{
    let r = vec![id.bytes[0], id.bytes[1], id.bytes[2], id.bytes[3]];
    assert(r@ =~= id@.subrange(0, 4));
    r
}

fn received_file_name(id: &ContentId, ext: &str) -> (r: String)
    ensures
        r@ == received_name(id@, ext@),
{
    let prefix = id_prefix(id);
    let digits = hex_lower(prefix.as_slice());
    let mut r = String::new();
    r.append("received_");
    r.append(digits.as_str());
    r.append(".");
    r.append(ext);
    r
}

/// The name of content received without a name: `received_`, the hex of the
/// first four bytes of its id, a dot and the extension that its leading bytes
/// select.
pub fn legacy_file_name(id: &ContentId, head: &[u8]) -> (r: String)
    ensures
        r@ == received_name(id@, extension_of(kind_of(head@))),
{
    let kind = detect_kind(head);
    received_file_name(id, kind.extension())
}

/// The name of a temporary file made from a prefix and a random nonce.
pub fn temp_file_name(prefix: &str, nonce: &[u8; 4]) -> (r: String)
    ensures
        r@ == temp_name(prefix@, nonce@),
{
    let digits = hex_lower(nonce);
    let mut r = String::new();
    r.append(prefix);
    r.append(digits.as_str());
    r
}

/// The name that a file sent from `path` travels under.
pub fn sent_file_name(path: &str) -> (r: String)
    ensures
        r@ == sent_name(path@),
{
    match path_file_name(path) {
        Some(n) => n,
        None => String::new(),
    }
}

/// The bytes of the metadata unit for a name: its UTF-8 encoding.
pub fn metadata_bytes(name: &str) -> (r: Vec<u8>)
    ensures
        r@ == encode_utf8(name@),
{
    name.as_bytes_vec()
}

/// The name under which a bundle's payload is saved, from the bytes of its
/// metadata unit.
pub fn save_file_name(meta: &[u8], payload: &ContentId) -> (r: String)
    ensures
        r@ == save_name_of(meta@, payload@),
{
    let name = utf8_lossy(meta);
    if name.as_str().is_empty() {
        received_file_name(payload, "bin")
    } else {
        name
    }
}

/// A name that travels in a metadata unit is the name the payload is saved
/// under, whatever characters it holds, as long as it is not empty.
pub proof fn lemma_name_round_trip(name: Seq<char>, payload: Seq<u8>)
    requires
        name.len() > 0,
    ensures
        save_name_of(encode_utf8(name), payload) == name,
{
    encode_utf8_valid_utf8(name);
    encode_utf8_decode_utf8(name);
}

/// Content that starts with FF D8 FF is saved as a JPEG.
pub proof fn lemma_jpeg_extension(head: Seq<u8>)
    requires
        head.len() >= 3,
        head[0] == 0xFFu8,
        head[1] == 0xD8u8,
        head[2] == 0xFFu8,
    ensures
        extension_of(kind_of(head)) == "jpg"@,
{
    assert(head.subrange(0, 3) =~= jpg_magic());
}

/// Content that matches no signature is saved with the generic extension.
pub proof fn lemma_unknown_extension(head: Seq<u8>)
    requires
        !occurs_at(head, 0, jpg_magic()),
        !occurs_at(head, 0, png_magic()),
        !occurs_at(head, 0, gif87_magic()),
        !occurs_at(head, 0, gif89_magic()),
        !(occurs_at(head, 0, riff_magic()) && occurs_at(head, 8, webp_magic())),
        !occurs_at(head, 0, pdf_magic()),
    ensures
        extension_of(kind_of(head)) == "bin"@,
{
}

/// Identical content gets the identical legacy name.
pub proof fn lemma_legacy_name_deterministic(id1: Seq<u8>, head1: Seq<u8>, id2: Seq<u8>, head2: Seq<u8>)
    requires
        id1 == id2,
        head1 == head2,
    ensures
        received_name(id1, extension_of(kind_of(head1))) == received_name(id2, extension_of(kind_of(head2))),
{
}

} // verus!
