use vstd::prelude::*;
use vstd::utf8::encode_utf8;

verus! {

#[verifier::external_type_specification]
#[verifier::external_body]
pub struct ExOscError(rosc::OscError);

/// The one to four zero bytes that end an OSC string of `n` bytes on a
/// four-byte boundary.
pub open spec fn osc_padding(n: nat) -> Seq<u8> {
    Seq::new((4 - n % 4) as nat, |i: int| 0u8)
}

/// An OSC string: its bytes, then zero padding.
pub open spec fn osc_string(b: Seq<u8>) -> Seq<u8> {
    b + osc_padding(b.len())
}

/// The type tag of an OSC boolean argument: `T` or `F`.
pub open spec fn osc_bool_tag(flag: bool) -> u8 {
    if flag {
        84u8
    } else {
        70u8
    }
}

/// An OSC message with one string argument and one boolean argument: the
/// address, the type tags `,s` and `T`/`F` padded to four bytes, then the
/// string's data (a boolean carries no data).
pub open spec fn osc_text_flag_message(addr: Seq<u8>, text: Seq<u8>, flag: bool) -> Seq<u8> {
    osc_string(addr) + seq![44u8, 115u8, osc_bool_tag(flag), 0u8] + osc_string(text)
}

/// Relies on rosc's `encoder::encode`, which writes a message as its padded
/// address, its padded type tags and each argument's data, and always
/// returns `Ok` when the output is a `Vec`.
#[verifier::external_body]
fn encode_text_flag(addr: &str, text: &str, flag: bool) -> (r: Result<Vec<u8>, rosc::OscError>)
    ensures
        r is Ok,
        r matches Ok(b) ==> b@ == osc_text_flag_message(encode_utf8(addr@), encode_utf8(text@), flag),
{
    rosc::encoder::encode(
        &rosc::OscPacket::Message(
            rosc::OscMessage {
                addr: addr.to_string(),
                args: vec![rosc::OscType::String(text.to_string()), rosc::OscType::Bool(flag)],
            },
        ),
    )
}

/// The OSC address the chatbox listens on.
pub open spec fn chatbox_address() -> Seq<char> {
    "/chatbox/input"@
}

/// The text the pipeline announces itself with before its first window.
pub open spec fn announcement_text() -> Seq<char> {
    "STT Initialized"@
}

/// The datagram that delivers `text` to the chatbox, shown at once (flag set).
pub open spec fn chatbox_message_spec(text: Seq<char>) -> Seq<u8> {
    osc_text_flag_message(encode_utf8(chatbox_address()), encode_utf8(text), true)
}

/// Encodes `text` as a chatbox input message with its immediate-send flag set.
pub fn chatbox_message(text: &str) -> (r: Vec<u8>)
    ensures
        r@ == chatbox_message_spec(text@),
{
    let addr: &str = "/chatbox/input";
    match encode_text_flag(addr, text, true) {
        Ok(b) => b,
        Err(_) => Vec::new(),
    }
}

/// The start-up message that tells the chatbox the pipeline is live.
pub fn announcement() -> (r: Vec<u8>)
    ensures
        r@ == chatbox_message_spec(announcement_text()),
{
    chatbox_message("STT Initialized")
}

} // verus!
