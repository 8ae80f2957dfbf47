use vstd::prelude::*;

verus! {

/// The file types recognised by their leading bytes.
#[derive(Debug, Clone, Copy, PartialEq, Eq, Structural)]
pub enum FileKind {
    Jpg,
    Png,
    Gif,
    Webp,
    Pdf,
    Bin,
}

/// `pat` occurs in `data` at offset `off`.
pub open spec fn occurs_at(data: Seq<u8>, off: int, pat: Seq<u8>) -> bool {
    &&& 0 <= off
    &&& off + pat.len() <= data.len()
    &&& data.subrange(off, off + pat.len()) == pat
}

pub open spec fn jpg_magic() -> Seq<u8> {
    seq![0xFFu8, 0xD8u8, 0xFFu8]
}

pub open spec fn png_magic() -> Seq<u8> {
    seq![0x89u8, 0x50u8, 0x4Eu8, 0x47u8, 0x0Du8, 0x0Au8, 0x1Au8, 0x0Au8]
}

/// "GIF87a"
pub open spec fn gif87_magic() -> Seq<u8> {
    seq![0x47u8, 0x49u8, 0x46u8, 0x38u8, 0x37u8, 0x61u8]
}

/// "GIF89a"
pub open spec fn gif89_magic() -> Seq<u8> {
    seq![0x47u8, 0x49u8, 0x46u8, 0x38u8, 0x39u8, 0x61u8]
}

/// "RIFF"
pub open spec fn riff_magic() -> Seq<u8> {
    seq![0x52u8, 0x49u8, 0x46u8, 0x46u8]
}

/// "WEBP"
pub open spec fn webp_magic() -> Seq<u8> {
    seq![0x57u8, 0x45u8, 0x42u8, 0x50u8]
}

/// "%PDF"
pub open spec fn pdf_magic() -> Seq<u8> {
    seq![0x25u8, 0x50u8, 0x44u8, 0x46u8]
}

/// The kind of content whose first bytes are `head`: the signatures are tried
/// in a fixed order and the first match wins.
pub open spec fn kind_of(head: Seq<u8>) -> FileKind {
    if occurs_at(head, 0, jpg_magic()) {
        FileKind::Jpg
    } else if occurs_at(head, 0, png_magic()) {
        FileKind::Png
    } else if occurs_at(head, 0, gif87_magic()) || occurs_at(head, 0, gif89_magic()) {
        FileKind::Gif
    } else if occurs_at(head, 0, riff_magic()) && occurs_at(head, 8, webp_magic()) {
        FileKind::Webp
    } else if occurs_at(head, 0, pdf_magic()) {
        FileKind::Pdf
    } else {
        FileKind::Bin
    }
}

pub open spec fn extension_of(kind: FileKind) -> Seq<char> {
    match kind {
        FileKind::Jpg => "jpg"@,
        FileKind::Png => "png"@,
        FileKind::Gif => "gif"@,
        FileKind::Webp => "webp"@,
        FileKind::Pdf => "pdf"@,
        FileKind::Bin => "bin"@,
    }
}

impl FileKind {
    /// The file extension, without the dot.
    pub fn extension(&self) -> (r: &'static str)
        ensures
            r@ == extension_of(*self),
    {
        match self {
            FileKind::Jpg => "jpg",
            FileKind::Png => "png",
            FileKind::Gif => "gif",
            FileKind::Webp => "webp",
            FileKind::Pdf => "pdf",
            FileKind::Bin => "bin",
        }
    }
}

fn matches_at(data: &[u8], off: usize, pat: &[u8]) -> (r: bool)
    ensures
        r == occurs_at(data@, off as int, pat@),
{
    if pat.len() > data.len() || off > data.len() - pat.len() {
        return false;
    }
    let mut i: usize = 0;
    while i < pat.len()
        invariant
            off + pat@.len() <= data@.len(),
            data@.len() == data.len(),
            i <= pat@.len(),
            forall|j: int| 0 <= j < i ==> data@[off + j] == pat@[j],
        decreases pat@.len() - i,
    {
        if data[off + i] != pat[i] {
            assert(data@.subrange(off as int, off + pat@.len())[i as int] != pat@[i as int]);
            return false;
        }
        i = i + 1;
    }
    assert(data@.subrange(off as int, off + pat@.len()) =~= pat@);
    true
}

/// Picks the file kind of content from its leading bytes (any number of
/// them; twelve are enough for every signature).
pub fn detect_kind(head: &[u8]) -> (r: FileKind)
    ensures
        r == kind_of(head@),
{
    let jpg: [u8; 3] = [0xFF, 0xD8, 0xFF];
    let png: [u8; 8] = [0x89, 0x50, 0x4E, 0x47, 0x0D, 0x0A, 0x1A, 0x0A];
    let gif87: [u8; 6] = [0x47, 0x49, 0x46, 0x38, 0x37, 0x61];
    let gif89: [u8; 6] = [0x47, 0x49, 0x46, 0x38, 0x39, 0x61];
    let riff: [u8; 4] = [0x52, 0x49, 0x46, 0x46];
    let webp: [u8; 4] = [0x57, 0x45, 0x42, 0x50];
    let pdf: [u8; 4] = [0x25, 0x50, 0x44, 0x46];
    assert(jpg@ =~= jpg_magic());
    assert(png@ =~= png_magic());
    assert(gif87@ =~= gif87_magic());
    assert(gif89@ =~= gif89_magic());
    assert(riff@ =~= riff_magic());
    assert(webp@ =~= webp_magic());
    assert(pdf@ =~= pdf_magic());
    if matches_at(head, 0, &jpg) {
        FileKind::Jpg
    } else if matches_at(head, 0, &png) {
        FileKind::Png
    } else if matches_at(head, 0, &gif87) || matches_at(head, 0, &gif89) {
        FileKind::Gif
    } else if matches_at(head, 0, &riff) && matches_at(head, 8, &webp) {
        FileKind::Webp
    } else if matches_at(head, 0, &pdf) {
        FileKind::Pdf
    } else {
        FileKind::Bin
    }
}

} // verus!
