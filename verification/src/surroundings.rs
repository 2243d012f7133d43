//! What the bridge takes from the machine it runs on: chance, and its address.

use vstd::prelude::*;

use crate::text::is_dotted;

verus! {

/// Whether a character is a digit in lower-case hexadecimal.
pub open spec fn is_hex_digit(c: char) -> bool {
    ||| '0' <= c <= '9'
    ||| 'a' <= c <= 'f'
}

/// Whether a text is a random identifier in its hyphenated form, such as
/// `67e55044-10b1-426f-9247-bb680e5fe0c8`.
pub open spec fn is_random_id(text: Seq<char>) -> bool {
    &&& text.len() == 36
    &&& forall|i: int|
        0 <= i < 36 ==> if i == 8 || i == 13 || i == 18 || i == 23 {
            #[trigger] text[i] == '-'
        } else {
            is_hex_digit(text[i])
        }
    &&& text[14] == '4'
    &&& (text[19] == '8' || text[19] == '9' || text[19] == 'a' || text[19] == 'b')
}

/// Whether a character is a digit in base 64.
pub open spec fn is_base64_digit(c: char) -> bool {
    ||| '0' <= c <= '9'
    ||| 'a' <= c <= 'z'
    ||| 'A' <= c <= 'Z'
    ||| c == '+'
    ||| c == '/'
}

/// Whether a text is the key of a websocket: sixteen bytes in base 64.
pub open spec fn is_websocket_key(text: Seq<char>) -> bool {
    &&& text.len() == 24
    &&& forall|i: int| 0 <= i < 22 ==> is_base64_digit(#[trigger] text[i])
    &&& text[22] == '='
    &&& text[23] == '='
}

/// A failure to find out the address of this machine.
#[verifier::external_type_specification]
#[verifier::external_body]
pub struct ExLocalIpError(local_ip_address::Error);

/// A new random identifier.
///
/// `uuid::Uuid::new_v4` draws sixteen bytes from the operating system, sets the
/// version to four and the variant to that of the standard, and the identifier
/// is displayed in its hyphenated lower-case form. It gives no result where the
/// operating system has no random bytes to give.
#[verifier::external_body]
pub(crate) fn random_id() -> (id: String)
    ensures
        is_random_id(id@),
{
    uuid::Uuid::new_v4().to_string()
}

/// A new key for a websocket.
///
/// `fastwebsockets::handshake::generate_key` draws sixteen bytes at random and
/// encodes them in base 64, with padding.
#[verifier::external_body]
pub(crate) fn websocket_key() -> (key: String)
    ensures
        is_websocket_key(key@),
{
    fastwebsockets::handshake::generate_key()
}

/// The address of this machine in its network, as it is displayed.
///
/// `local_ip_address::local_ip` asks the operating system, and hands out an
/// address of the fourth version of the protocol, which is displayed as numbers
/// and dots. Which address it is, and whether there is one, is left open.
#[verifier::external_body]
pub(crate) fn local_address() -> (address: Result<String, local_ip_address::Error>)
    ensures
        address is Ok ==> is_dotted(address->Ok_0@),
{
    match local_ip_address::local_ip() {
        Ok(address) => Ok(address.to_string()),
        Err(error) => Err(error),
    }
}

} // verus!
