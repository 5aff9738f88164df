//! A module that inlines the bytes of a source into ecmascript: the bytes
//! are encoded as unpadded base64 and decoded into a `Uint8Array` at run time.

use vstd::prelude::*;

verus! {

/// The base64 symbol of a six-bit value (RFC 4648 alphabet).
pub open spec fn base64_symbol(v: int) -> char {
    if v < 26 {
        (65 + v) as char
    } else if v < 52 {
        (97 + v - 26) as char
    } else if v < 62 {
        (48 + v - 52) as char
    } else if v == 62 {
        '+'
    } else {
        '/'
    }
}

/// The unpadded base64 encoding of some bytes (RFC 4648): each group of
/// three bytes gives four symbols, most significant bits first; a final
/// group of one or two bytes gives two or three symbols, without `=`.
pub open spec fn base64_nopad(b: Seq<u8>) -> Seq<char>
    decreases b.len(),
{
    if b.len() == 0 {
        seq![]
    } else if b.len() == 1 {
        seq![base64_symbol((b[0] as int) / 4), base64_symbol(((b[0] as int) % 4) * 16)]
    } else if b.len() == 2 {
        seq![
            base64_symbol((b[0] as int) / 4),
            base64_symbol(((b[0] as int) % 4) * 16 + (b[1] as int) / 16),
            base64_symbol(((b[1] as int) % 16) * 4),
        ]
    } else {
        seq![
            base64_symbol((b[0] as int) / 4),
            base64_symbol(((b[0] as int) % 4) * 16 + (b[1] as int) / 16),
            base64_symbol(((b[1] as int) % 16) * 4 + (b[2] as int) / 64),
            base64_symbol((b[2] as int) % 64),
        ] + base64_nopad(b.skip(3))
    }
}

/// A symbol of the base64 alphabet.
pub open spec fn is_base64_symbol(c: char) -> bool {
    ('A' <= c <= 'Z') || ('a' <= c <= 'z') || ('0' <= c <= '9') || c == '+' || c == '/'
}

/// Encodes bytes with data-encoding's `BASE64_NOPAD`.
///
/// The contract claims what data-encoding's documentation and source show:
/// the result is the unpadded base64 encoding of the input (RFC 4648
/// alphabet `A-Z a-z 0-9 + /`, most significant bits first, no padding), and
/// the call panics (so is not admitted) on inputs longer than
/// `usize::MAX / 512` bytes.
#[verifier::external_body]
fn encode_base64_nopad(data: &[u8]) -> (s: String)
    requires
        data@.len() <= usize::MAX / 512,
    ensures
        s@ == base64_nopad(data@),
{
    data_encoding::BASE64_NOPAD.encode(data)
}

/// Every symbol of an encoding is from the base64 alphabet.
pub proof fn lemma_base64_alphabet(b: Seq<u8>)
    ensures
        forall|k: int| 0 <= k < base64_nopad(b).len() ==> is_base64_symbol(
            #[trigger] base64_nopad(b)[k],
        ),
    decreases b.len(),
{
    assert forall|v: int| 0 <= v < 64 implies is_base64_symbol(#[trigger] base64_symbol(v)) by {}
    if b.len() >= 3 {
        lemma_base64_alphabet(b.skip(3));
        assert forall|k: int| 0 <= k < base64_nopad(b).len() implies is_base64_symbol(
            #[trigger] base64_nopad(b)[k],
        ) by {
            if k >= 4 {
                assert(base64_nopad(b)[k] == base64_nopad(b.skip(3))[k - 4]);
            }
        }
    }
}

/// An encoding of `n` bytes has `ceil(8 * n / 6)` symbols.
pub proof fn lemma_base64_len(b: Seq<u8>)
    ensures
        base64_nopad(b).len() == (8 * b.len() + 5) / 6,
    decreases b.len(),
{
    if b.len() >= 3 {
        lemma_base64_len(b.skip(3));
    }
}

/// The source of an inlined bytes module.
#[derive(Debug, Clone, Copy, PartialEq, Eq)]
pub struct InlinedBytesJsModule {
    pub source: u64,
}

/// The code that defines `decode`, from `Uint8Array.fromBase64` where the
/// runtime has it, else from `atob`.
pub open spec fn decode_prelude() -> Seq<char> {
    "\nvar decode = Uint8Array.fromBase64 || function Uint8Array_fromBase64(base64) {\n  var binaryString = atob(base64);\n  var buffer = new Uint8Array(binaryString.length);\n  for (var i = 0; i < binaryString.length; i++) {\n    buffer[i] = binaryString.charCodeAt(i)\n  }\n  return buffer\n};\n"@
}

/// The code that exports the bytes whose base64 text is `encoded`: the
/// prelude, then the call that exports the decoded bytes.
pub open spec fn spec_code_for_encoded(export_value: Seq<char>, encoded: Seq<char>) -> Seq<char> {
    decode_prelude() + export_value + "(decode("@ + seq!['"'] + encoded + seq!['"'] + "));"@
}

/// The code of the chunk item of some bytes.
pub open spec fn spec_chunk_code(export_value: Seq<char>, bytes: Seq<u8>) -> Seq<char> {
    spec_code_for_encoded(export_value, base64_nopad(bytes))
}

/// The content of the module's source.
#[derive(Debug, Clone)]
pub enum FileContent {
    Content(Vec<u8>),
    NotFound,
}

/// Why the chunk item has no content.
#[derive(Debug, Clone, Copy, PartialEq, Eq)]
pub enum InlinedBytesError {
    /// The source file does not exist.
    FileNotFound,
}

impl InlinedBytesError {
    /// The message reported for the module whose ident reads `ident`.
    pub fn message(&self, ident: &str) -> (s: String)
        ensures
            s@ == "File not found: "@ + ident@,
    {
        let mut s = String::from_str("File not found: ");
        s.append(ident);
        s
    }
}

impl InlinedBytesJsModule {
    pub fn new(source: u64) -> (m: Self)
        ensures
            m.source == source,
    {
        InlinedBytesJsModule { source }
    }

    /// The modifier added to the source's ident to name the module.
    pub fn ident_modifier() -> (s: String)
        ensures
            s@ == "static bytes in ecmascript"@,
    {
        String::from_str("static bytes in ecmascript")
    }

    /// The code that exports the bytes whose unpadded base64 text is
    /// `encoded`, where `export_value` is the runtime function that exports
    /// a value.
    pub fn code_for_encoded(export_value: &str, encoded: &str) -> (code: String)
        requires
            forall|k: int| 0 <= k < encoded@.len() ==> is_base64_symbol(#[trigger] encoded@[k]),
        ensures
            code@ == spec_code_for_encoded(export_value@, encoded@),
    {
        let mut code = String::from_str(
            "\nvar decode = Uint8Array.fromBase64 || function Uint8Array_fromBase64(base64) {\n  var binaryString = atob(base64);\n  var buffer = new Uint8Array(binaryString.length);\n  for (var i = 0; i < binaryString.length; i++) {\n    buffer[i] = binaryString.charCodeAt(i)\n  }\n  return buffer\n};\n",
        );
        code.append(export_value);
        code.append("(decode(");
        code.append(js_string_literal(encoded).as_str());
        code.append("));");
        assert(code@ =~= spec_code_for_encoded(export_value@, encoded@));
        code
    }

    /// The code of the module's chunk item, where `export_value` is the
    /// runtime function that exports a value; a missing file is an error.
    pub fn chunk_item_content(content: &FileContent, export_value: &str) -> (r: Result<
        String,
        InlinedBytesError,
    >)
        requires
            content matches FileContent::Content(data) ==> data@.len() <= usize::MAX / 512,
        ensures
            match content {
                FileContent::Content(data) => r matches Ok(code) && code@ == spec_chunk_code(
                    export_value@,
                    data@,
                ),
                FileContent::NotFound => r == Err::<String, InlinedBytesError>(
                    InlinedBytesError::FileNotFound,
                ),
            },
    {
        match content {
            FileContent::Content(data) => {
                let encoded = encode_base64_nopad(data.as_slice());
                proof {
                    lemma_base64_alphabet(data@);
                }
                Ok(Self::code_for_encoded(export_value, encoded.as_str()))
            },
            FileContent::NotFound => Err(InlinedBytesError::FileNotFound),
        }
    }
}

/// The JavaScript string literal of a text made of base64 symbols: the text
/// between double quotes, as no symbol needs escaping.
pub fn js_string_literal(text: &str) -> (s: String)
    requires
        forall|k: int| 0 <= k < text@.len() ==> is_base64_symbol(#[trigger] text@[k]),
    ensures
        s@ == seq!['"'] + text@ + seq!['"'],
{
    let mut s = String::new();
    crate::text::push_char(&mut s, '"');
    s.append(text);
    crate::text::push_char(&mut s, '"');
    assert(s@ =~= seq!['"'] + text@ + seq!['"']);
    s
}

} // verus!
