//! The printed form of keys, secrets and identifiers: base64 between double
//! quotes.

use vstd::prelude::*;
use vstd::string::StringExecFns;

verus! {

/// The standard base64 text of `bytes`, with padding (RFC 4648, section 4).
pub uninterp spec fn base64_text(bytes: Seq<u8>) -> Seq<char>;

/// What a key, secret or identifier with the given bytes prints as.
pub open spec fn quoted_base64(bytes: Seq<u8>) -> Seq<char> {
    seq!['"'] + base64_text(bytes) + seq!['"']
}

/// `base64::encode`, which encodes with the standard alphabet and padding.
/// Trusted: the string is the base64 text of the input. The bound keeps away
/// from the input sizes whose encoded length overflows, where `encode` panics.
#[verifier::external_body]
fn encode(bytes: &[u8]) -> (text: String)
    requires
        bytes@.len() <= 64,
    ensures
        text@ == base64_text(bytes@),
{
    base64::encode(bytes)
}

/// Prints a key, secret or identifier, none of which has more than 64 bytes.
pub(crate) fn print_bytes(bytes: &[u8]) -> (printed: String)
    requires
        bytes@.len() <= 64,
    ensures
        printed@ == quoted_base64(bytes@),
{
    let text = encode(bytes);
    let mut printed = String::from_str("\"");
    printed.append(text.as_str());
    printed.append("\"");
    proof {
        reveal_strlit("\"");
        assert("\""@ =~= seq!['"']);
    }
    printed
}

} // verus!
