//! Account identifiers.

use vstd::prelude::*;
use vstd::std_specs::cmp::PartialEqSpecImpl;
use vstd::utf8::encode_utf8;

verus! {

/// The identifier of an account: a text that nothing has validated.
#[derive(Debug)]
pub struct Addr {
    pub text: String,
}

impl View for Addr {
    type V = Seq<char>;

    open spec fn view(&self) -> Seq<char> {
        self.text@
    }
}

impl Clone for Addr {
    fn clone(&self) -> (r: Addr)
        ensures
            r == *self,
    {
        Addr { text: self.text.clone() }
    }
}

impl PartialEq for Addr {
    fn eq(&self, other: &Addr) -> (r: bool) {
        self.text == other.text
    }
}

impl Eq for Addr {

}

impl PartialEqSpecImpl for Addr {
    open spec fn obeys_eq_spec() -> bool {
        true
    }

    open spec fn eq_spec(&self, other: &Addr) -> bool {
        self@ == other@
    }
}

impl Addr {
    /// The bytes under which the account is filed: its text in UTF-8.
    pub open spec fn key(&self) -> Seq<u8> {
        encode_utf8(self@)
    }

    /// The identifier with the given text.
    pub fn unchecked(input: &str) -> (r: Addr)
        ensures
            r@ == input@,
    {
        Addr { text: input.to_owned() }
    }

    /// The identifier's text.
    pub fn as_str(&self) -> (r: &str)
        ensures
            r@ == self@,
    {
        self.text.as_str()
    }

    /// The identifier's text in UTF-8.
    pub fn as_bytes(&self) -> (r: &[u8])
        ensures
            r@ == self.key(),
    {
        self.text.as_str().as_bytes()
    }

    /// A copy of the identifier's text.
    pub fn to_string(&self) -> (r: String)
        ensures
            r@ == self@,
    {
        self.text.clone()
    }
}

/// Whether the text has no characters at all.
pub fn is_empty_str(s: &str) -> (r: bool)
    ensures
        r == (s@.len() == 0),
{
    s.is_empty()
}

/// Two accounts are filed under the same bytes exactly when they have the
/// same text.
pub proof fn lemma_key_injective(a: &Addr, b: &Addr)
    ensures
        a.key() == b.key() <==> a@ == b@,
{
    vstd::utf8::encode_utf8_decode_utf8(a@);
    vstd::utf8::encode_utf8_decode_utf8(b@);
}

} // verus!
