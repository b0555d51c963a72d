//! What the C callback does with a delivery before handing it to the user.
use vstd::prelude::*;
use vstd::string::StringSliceAdditionalSpecFns;
use vstd::utf8::{valid_utf8, decode_utf8};
use crate::on_send::OnSend;

verus! {

/// `std::str::from_utf8`: by its documentation it returns the bytes as a
/// string slice when they are valid UTF-8 and an error otherwise. The contract
/// claims exactly that, over vstd's model of UTF-8.
#[verifier::external_body]
fn str_from_utf8(bytes: &[u8]) -> (res: Option<&str>)
    ensures
        res is Some <==> valid_utf8(bytes@),
        res matches Some(s) ==> s.spec_bytes() == bytes@,
{
    std::str::from_utf8(bytes).ok()
}

/// Reads the destination name that the C side passes to the callback (its
/// bytes up to, not including, the terminating NUL). The name is accepted only
/// when it is valid UTF-8, and then decodes to exactly the characters that
/// those bytes encode.
pub fn decode_destination(bytes: &[u8]) -> (res: Option<&str>)
    ensures
        res is Some <==> valid_utf8(bytes@),
        res matches Some(s) ==> s.spec_bytes() == bytes@ && s@ == decode_utf8(bytes@),
{
    let res = str_from_utf8(bytes);
    proof {
        if let Some(s) = res {
            vstd::utf8::encode_utf8_decode_utf8(s@);
        }
    }
    res
}

/// The Rust side of a registration: the user's handler, reached from C
/// through the callback.
pub struct RustSideHandler {
    pub opaque: Box<dyn OnSend>,
}

impl RustSideHandler {
    /// Hands one delivery to the user's handler. When `dest` is valid UTF-8 the
    /// handler receives it once, as the characters `dest` encodes, together with
    /// `arg` unchanged; otherwise the handler is left alone. The result says
    /// which happened.
    pub fn deliver(&mut self, dest: &[u8], arg: &[u8]) -> (delivered: bool)
        ensures
            delivered <==> valid_utf8(dest@),
            delivered && old(self).opaque.obeys_delivery_log() ==> final(self).opaque.obeys_delivery_log()
                && final(self).opaque.received() == old(self).opaque.received().push(
                (decode_utf8(dest@), arg@),
            ),
            !delivered ==> *final(self) == *old(self),
    {
        match decode_destination(dest) {
            Some(name) => {
                self.opaque.on_send(name, arg);
                true
            },
            None => false,
        }
    }
}

} // verus!
