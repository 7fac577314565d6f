//! Collateral and its export: the record that the `collateral` command
//! prints, and the text it leaves in the export file.

use vstd::prelude::*;
use vstd::utf8::{
    decode_utf8,
    encode_scalar,
    encode_utf8,
    encode_utf8_decode_utf8,
    encode_utf8_first_scalar,
    encode_utf8_valid_utf8,
    is_ascii_chars,
    is_ascii_chars_encode_utf8,
    is_char_boundary,
    pop_first_scalar,
};
use crate::normalize::{encode_hex, hex_string};

verus! {

/// The name of the file that the `collateral` command writes, in the
/// working directory. Despite its name the file need not hold JSON.
pub const EXPORT_FILE_NAME: &'static str = "quote_collateral.json";

/// The number of bytes that the export file leaves out at the start of the
/// record's rendering: the record's name and the space after it.
pub const RECORD_NAME_LEN: usize = 22;

/// The supporting data that a quote is verified against, as the collateral
/// service delivers it. Signatures are raw bytes here.
#[derive(Debug, Clone, PartialEq, Eq)]
pub struct Collateral {
    /// Certificate chain of the issuer of the PCK revocation list (PEM).
    pub pck_crl_issuer_chain: String,
    /// Revocation list of the root authority (DER).
    pub root_ca_crl: Vec<u8>,
    /// Revocation list of the PCK authority (DER).
    pub pck_crl: Vec<u8>,
    /// Certificate chain of the issuer of the TCB info (PEM).
    pub tcb_info_issuer_chain: String,
    /// TCB info (JSON).
    pub tcb_info: String,
    /// Signature over the TCB info.
    pub tcb_info_signature: Vec<u8>,
    /// Certificate chain of the issuer of the QE identity (PEM).
    pub qe_identity_issuer_chain: String,
    /// QE identity (JSON).
    pub qe_identity: String,
    /// Signature over the QE identity.
    pub qe_identity_signature: Vec<u8>,
    /// PCK certificate chain (PEM), where the service supplied one.
    pub pck_certificate_chain: Option<String>,
}

/// A `Collateral` in specifications.
pub ghost struct CollateralView {
    pub pck_crl_issuer_chain: Seq<char>,
    pub root_ca_crl: Seq<u8>,
    pub pck_crl: Seq<u8>,
    pub tcb_info_issuer_chain: Seq<char>,
    pub tcb_info: Seq<char>,
    pub tcb_info_signature: Seq<u8>,
    pub qe_identity_issuer_chain: Seq<char>,
    pub qe_identity: Seq<char>,
    pub qe_identity_signature: Seq<u8>,
    pub pck_certificate_chain: Option<Seq<char>>,
}

impl View for Collateral {
    type V = CollateralView;

    open spec fn view(&self) -> CollateralView {
        CollateralView {
            pck_crl_issuer_chain: self.pck_crl_issuer_chain@,
            root_ca_crl: self.root_ca_crl@,
            pck_crl: self.pck_crl@,
            tcb_info_issuer_chain: self.tcb_info_issuer_chain@,
            tcb_info: self.tcb_info@,
            tcb_info_signature: self.tcb_info_signature@,
            qe_identity_issuer_chain: self.qe_identity_issuer_chain@,
            qe_identity: self.qe_identity@,
            qe_identity_signature: self.qe_identity_signature@,
            pck_certificate_chain: match self.pck_certificate_chain {
                Some(chain) => Some(chain@),
                None => None,
            },
        }
    }
}

/// The export record: the six items that describe the TCB info and the QE
/// identity, with the two signatures written as lower-case hex.
#[derive(Debug)]
pub struct QuoteCollateralV3Json {
    tcb_info_issuer_chain: String,
    tcb_info: String,
    tcb_info_signature: String,
    qe_identity_issuer_chain: String,
    qe_identity: String,
    qe_identity_signature: String,
}

/// A `QuoteCollateralV3Json` in specifications.
pub ghost struct RecordView {
    pub tcb_info_issuer_chain: Seq<char>,
    pub tcb_info: Seq<char>,
    pub tcb_info_signature: Seq<char>,
    pub qe_identity_issuer_chain: Seq<char>,
    pub qe_identity: Seq<char>,
    pub qe_identity_signature: Seq<char>,
}

impl View for QuoteCollateralV3Json {
    type V = RecordView;

    closed spec fn view(&self) -> RecordView {
        RecordView {
            tcb_info_issuer_chain: self.tcb_info_issuer_chain@,
            tcb_info: self.tcb_info@,
            tcb_info_signature: self.tcb_info_signature@,
            qe_identity_issuer_chain: self.qe_identity_issuer_chain@,
            qe_identity: self.qe_identity@,
            qe_identity_signature: self.qe_identity_signature@,
        }
    }
}

/// The export record of `collateral`: the four texts as they are, the two
/// signatures hex-encoded. The revocation lists and the PCK chain are not
/// exported.
pub open spec fn exported(collateral: CollateralView) -> RecordView {
    RecordView {
        tcb_info_issuer_chain: collateral.tcb_info_issuer_chain,
        tcb_info: collateral.tcb_info,
        tcb_info_signature: hex_string(collateral.tcb_info_signature),
        qe_identity_issuer_chain: collateral.qe_identity_issuer_chain,
        qe_identity: collateral.qe_identity,
        qe_identity_signature: hex_string(collateral.qe_identity_signature),
    }
}

/// What formatting a record with `{:?}` gives.
pub uninterp spec fn debug_rendering(record: RecordView) -> Seq<char>;

/// Formats the record with `{:?}`, through the `Debug` impl that `derive`
/// wrote for it. The text depends on the six fields alone; the contract
/// gives it a name and says nothing of its shape.
#[verifier::external_body]
pub(crate) fn render_record(record: &QuoteCollateralV3Json) -> (r: String)
    ensures
        r@ == debug_rendering(record@),
{
    format!("{:?}", record)
}

/// The bytes of the export file for a rendering: the rendering's UTF-8
/// bytes without the first 22. There are none where the rendering is
/// shorter than that or where its 22nd byte ends in the middle of a
/// character.
pub open spec fn export_bytes(rendering: Seq<char>) -> Option<Seq<u8>> {
    let bytes = encode_utf8(rendering);
    if is_char_boundary(bytes, RECORD_NAME_LEN as int) {
        Some(bytes.subrange(RECORD_NAME_LEN as int, bytes.len() as int))
    } else {
        None
    }
}

/// The text of the export file for a rendering: `export_bytes` read as
/// UTF-8.
pub open spec fn export_chars(rendering: Seq<char>) -> Option<Seq<char>> {
    match export_bytes(rendering) {
        Some(bytes) => Some(decode_utf8(bytes)),
        None => None,
    }
}

impl QuoteCollateralV3Json {
    /// Builds the export record of `collateral`.
    pub fn from_collateral(collateral: Collateral) -> (record: QuoteCollateralV3Json)
        ensures
            record@ == exported(collateral@),
    {
        let tcb_info_signature = encode_hex(collateral.tcb_info_signature.as_slice());
        let qe_identity_signature = encode_hex(collateral.qe_identity_signature.as_slice());
        QuoteCollateralV3Json {
            tcb_info_issuer_chain: collateral.tcb_info_issuer_chain,
            tcb_info: collateral.tcb_info,
            tcb_info_signature,
            qe_identity_issuer_chain: collateral.qe_identity_issuer_chain,
            qe_identity: collateral.qe_identity,
            qe_identity_signature,
        }
    }

    /// Certificate chain of the issuer of the TCB info.
    pub fn tcb_info_issuer_chain(&self) -> (text: &str)
        ensures
            text@ == self@.tcb_info_issuer_chain,
    {
        self.tcb_info_issuer_chain.as_str()
    }

    /// TCB info.
    pub fn tcb_info(&self) -> (text: &str)
        ensures
            text@ == self@.tcb_info,
    {
        self.tcb_info.as_str()
    }

    /// Signature over the TCB info, in hex.
    pub fn tcb_info_signature(&self) -> (text: &str)
        ensures
            text@ == self@.tcb_info_signature,
    {
        self.tcb_info_signature.as_str()
    }

    /// Certificate chain of the issuer of the QE identity.
    pub fn qe_identity_issuer_chain(&self) -> (text: &str)
        ensures
            text@ == self@.qe_identity_issuer_chain,
    {
        self.qe_identity_issuer_chain.as_str()
    }

    /// QE identity.
    pub fn qe_identity(&self) -> (text: &str)
        ensures
            text@ == self@.qe_identity,
    {
        self.qe_identity.as_str()
    }

    /// Signature over the QE identity, in hex.
    pub fn qe_identity_signature(&self) -> (text: &str)
        ensures
            text@ == self@.qe_identity_signature,
    {
        self.qe_identity_signature.as_str()
    }

    /// The record as the `collateral` command prints it.
    pub fn rendering(&self) -> (text: String)
        ensures
            text@ == debug_rendering(self@),
    {
        render_record(self)
    }
}

/// The text of the export file for a rendering of the record: the rendering
/// without its first 22 bytes, which hold the record's name. A rendering
/// that cannot be cut there has no export text.
pub fn export_text(rendering: &str) -> (text: Option<String>)
    ensures
        text matches Some(t) ==> export_bytes(rendering@) == Some(encode_utf8(t@)),
        text matches Some(t) ==> export_chars(rendering@) == Some(t@),
        text is None ==> export_bytes(rendering@) is None,
        text is None ==> export_chars(rendering@) is None,
{
    if rendering.is_char_boundary(RECORD_NAME_LEN) {
        let (_, rest) = rendering.split_at(RECORD_NAME_LEN);
        let text = rest.to_owned();
        proof {
            encode_utf8_decode_utf8(text@);
        }
        Some(text)
    } else {
        None
    }
}

/// The UTF-8 bytes of two texts in a row are the bytes of the first and then
/// those of the second, and the second begins on a character boundary.
pub proof fn lemma_encode_concat(head: Seq<char>, tail: Seq<char>)
    ensures
        encode_utf8(head + tail) == encode_utf8(head) + encode_utf8(tail),
        is_char_boundary(encode_utf8(head + tail), encode_utf8(head).len() as int),
    decreases head.len(),
{
    let whole = head + tail;
    let bytes = encode_utf8(whole);
    encode_utf8_valid_utf8(whole);
    if head.len() == 0 {
        assert(whole =~= tail);
        assert(encode_utf8(head) =~= Seq::<u8>::empty());
        assert(bytes =~= encode_utf8(head) + encode_utf8(tail));
    } else {
        let rest = head.drop_first();
        let first = encode_scalar(head[0] as u32);
        assert(whole.drop_first() =~= rest + tail);
        assert(whole[0] == head[0]);
        lemma_encode_concat(rest, tail);
        encode_utf8_first_scalar(whole);
        assert(bytes =~= first + encode_utf8(rest + tail));
        assert(encode_utf8(head) =~= first + encode_utf8(rest));
        assert(bytes =~= encode_utf8(head) + encode_utf8(tail));
        assert(pop_first_scalar(bytes) =~= encode_utf8(rest + tail));
        assert(first.len() > 0);
        assert(encode_utf8(head).len() == first.len() + encode_utf8(rest).len());
    }
}

/// A rendering that begins with 22 bytes of name is exported without them.
pub proof fn theorem_export_drops_the_name(name: Seq<char>, rest: Seq<char>)
    requires
        encode_utf8(name).len() == RECORD_NAME_LEN,
    ensures
        export_chars(name + rest) == Some(rest),
{
    lemma_encode_concat(name, rest);
    let bytes = encode_utf8(name + rest);
    assert(bytes.subrange(RECORD_NAME_LEN as int, bytes.len() as int) =~= encode_utf8(rest));
    encode_utf8_decode_utf8(rest);
}

/// A rendering that begins with the record's name and a space is exported
/// from the opening brace on.
pub proof fn theorem_export_drops_the_record_name(rest: Seq<char>)
    ensures
        export_chars("QuoteCollateralV3Json "@ + rest) == Some(rest),
{
    let name = "QuoteCollateralV3Json "@;
    reveal_strlit("QuoteCollateralV3Json ");
    assert(name.len() == 22);
    assert(is_ascii_chars(name));
    is_ascii_chars_encode_utf8(name);
    theorem_export_drops_the_name(name, rest);
}

} // verus!
