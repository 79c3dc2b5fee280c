use vstd::prelude::*;

verus! {

/// The encoding label that a codepage marker byte stands for, if any.
pub open spec fn codepage_label(codepage: u8) -> Option<Seq<char>> {
    match codepage {
        1 => Some("cp437"@),
        2 => Some("cp850"@),
        3 => Some("cp1252"@),
        4 => Some("cp10000"@),
        100 => Some("cp852"@),
        101 => Some("cp866"@),
        102 => Some("cp865"@),
        103 => Some("cp861"@),
        104 => Some("cp895"@),
        105 => Some("cp620"@),
        106 => Some("cp737"@),
        107 => Some("cp857"@),
        120 => Some("cp950"@),
        121 => Some("cp949"@),
        122 => Some("cp936"@),
        123 => Some("cp932"@),
        124 => Some("tis620"@),
        125 => Some("cp1255"@),
        126 => Some("cp1256"@),
        150 => Some("cp10007"@),
        151 => Some("cp10029"@),
        152 => Some("cp10006"@),
        200 => Some("cp1250"@),
        201 => Some("cp1251"@),
        202 => Some("cp1254"@),
        203 => Some("cp1253"@),
        _ => None,
    }
}

/// Maps the codepage marker of a table header (byte 29) to an encoding label.
pub fn cp_mapper(codepage: u8) -> (r: Result<&'static str, &'static str>)
    ensures
        match codepage_label(codepage) {
            Some(label) => r matches Ok(s) && s@ == label,
            None => r is Err,
        },
{
    match codepage {
        1 => Ok("cp437"),
        2 => Ok("cp850"),
        3 => Ok("cp1252"),
        4 => Ok("cp10000"),
        100 => Ok("cp852"),
        101 => Ok("cp866"),
        102 => Ok("cp865"),
        103 => Ok("cp861"),
        104 => Ok("cp895"),
        105 => Ok("cp620"),
        106 => Ok("cp737"),
        107 => Ok("cp857"),
        120 => Ok("cp950"),
        121 => Ok("cp949"),
        122 => Ok("cp936"),
        123 => Ok("cp932"),
        124 => Ok("tis620"),
        125 => Ok("cp1255"),
        126 => Ok("cp1256"),
        150 => Ok("cp10007"),
        151 => Ok("cp10029"),
        152 => Ok("cp10006"),
        200 => Ok("cp1250"),
        201 => Ok("cp1251"),
        202 => Ok("cp1254"),
        203 => Ok("cp1253"),
        _ => Err("Unknown codepage found"),
    }
}

/// Largest byte count that the text codecs hand to the encoding library:
/// far above any field width, and low enough that no buffer size computed
/// from it overflows.
pub const MAX_TEXT_BYTES: usize = 0x0100_0000;

/// Whether encoding_rs knows an encoding by this label.
pub uninterp spec fn label_is_known(label: Seq<char>) -> bool;

/// The text that encoding_rs decodes from `bytes` in the encoding with this
/// label (a byte order mark switches encoding; malformed input becomes
/// U+FFFD).
pub uninterp spec fn decoded_text(label: Seq<char>, bytes: Seq<u8>) -> Seq<char>;

/// The bytes that encoding_rs encodes `text` into in the encoding with this
/// label (unmappable characters become numeric character references).
pub uninterp spec fn encoded_text(label: Seq<char>, text: Seq<char>) -> Seq<u8>;

/// Relies on encoding_rs's `Encoding::for_label`: whether it finds an
/// encoding for the label.
#[verifier::external_body]
pub(crate) fn encoding_known(label: &str) -> (r: bool)
    ensures
        r == label_is_known(label@),
{
    encoding_rs::Encoding::for_label(label.as_bytes()).is_some()
}

/// Relies on encoding_rs's `Encoding::decode`, on the encoding that
/// `for_label` finds; it panics only where a buffer size overflows.
#[verifier::external_body]
pub(crate) fn decode_in(label: &str, bytes: &[u8]) -> (r: String)
    requires
        label_is_known(label@),
        bytes@.len() <= MAX_TEXT_BYTES,
    ensures
        r@ == decoded_text(label@, bytes@),
{
    encoding_rs::Encoding::for_label(label.as_bytes()).unwrap().decode(bytes).0.into_owned()
}

/// Relies on encoding_rs's `Encoding::encode`, on the encoding that
/// `for_label` finds; it panics only where a buffer size overflows.
#[verifier::external_body]
pub(crate) fn encode_in(label: &str, text: &str) -> (r: Vec<u8>)
    requires
        label_is_known(label@),
        text@.len() <= MAX_TEXT_BYTES,
    ensures
        r@ == encoded_text(label@, text@),
{
    encoding_rs::Encoding::for_label(label.as_bytes()).unwrap().encode(text).0.into_owned()
}

} // verus!
