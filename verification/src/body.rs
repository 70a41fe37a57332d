//! Response bodies in base64, as a gateway that carries binary bodies expects them.
use base64::Engine;
use vstd::prelude::*;
use vstd::string::*;

verus! {

/// A body that leaves in base64.
#[derive(Debug, PartialEq, Eq)]
pub struct Base64Body<T>(pub T);

/// The standard base64 of the UTF-8 bytes of a text, with padding.
pub uninterp spec fn base64_of(text: Seq<char>) -> Seq<char>;

/// Encodes the bytes of `text` with `base64::Engine::encode` on the engine
/// `base64::engine::general_purpose::STANDARD`: the standard alphabet with padding.
#[verifier::external_body]
fn encode(text: &str) -> (encoded: String)
    ensures
        encoded@ == base64_of(text@),
{
    base64::engine::general_purpose::STANDARD.encode(text)
}

impl Base64Body<String> {
    /// Appends the body to `buffer`, in base64.
    pub fn render_to(&self, buffer: &mut String)
        ensures
            final(buffer)@ == old(buffer)@ + base64_of(self.0@),
    {
        let encoded = encode(self.0.as_str());
        buffer.append(encoded.as_str());
    }

    /// The body in base64.
    pub fn render(&self) -> (encoded: String)
        ensures
            encoded@ == base64_of(self.0@),
    {
        encode(self.0.as_str())
    }
}

} // verus!
