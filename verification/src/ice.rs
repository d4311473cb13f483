//! Short-term ICE credentials (RFC 8445) of the engine.
use vstd::prelude::*;

pub mod consent;
pub mod driver;

verus! {

/// The engine's ICE credentials for one call.
#[derive(Clone, Debug, PartialEq, Eq)]
pub struct IceCredentials {
    /// The local username fragment.
    pub ufrag: String,
    /// The local password.
    pub pwd: String,
}

/// The characters of ICE credentials (RFC 8445 section 5.4).
pub open spec fn ice_alphabet() -> Seq<char> {
    "ABCDEFGHIJKLMNOPQRSTUVWXYZabcdefghijklmnopqrstuvwxyz0123456789+/"@
}

/// The text a run of random bytes stands for: each byte picks one of the sixty-four characters.
pub open spec fn ice_text(bytes: Seq<u8>) -> Seq<char> {
    Seq::new(bytes.len(), |i: int| ice_alphabet()[(bytes[i] % 64) as int])
}

/// The length of a username fragment.
pub const UFRAG_LENGTH: usize = 8;

/// The length of a password.
pub const PWD_LENGTH: usize = 24;

/// `getrandom::fill` fills a buffer from the operating system's generator, or reports that it is
/// unavailable. Nothing is claimed of the bytes but their number.
#[verifier::external_body]
fn random_bytes(count: usize) -> (filled: Option<Vec<u8>>)
    ensures
        filled matches Some(bytes) ==> bytes@.len() == count,
{
    let mut bytes = vec![0u8; count];
    match getrandom::fill(&mut bytes) {
        Ok(()) => Some(bytes),
        Err(_) => None,
    }
}

/// The text a run of random bytes stands for.
pub fn ice_string(bytes: &Vec<u8>) -> (text: String)
    ensures
        text@ == ice_text(bytes@),
{
    proof {
        reveal_strlit("ABCDEFGHIJKLMNOPQRSTUVWXYZabcdefghijklmnopqrstuvwxyz0123456789+/");
    }
    let alphabet = "ABCDEFGHIJKLMNOPQRSTUVWXYZabcdefghijklmnopqrstuvwxyz0123456789+/";
    let mut text = String::new();
    let mut i: usize = 0;
    while i < bytes.len()
        invariant
            i <= bytes@.len(),
            alphabet@ == ice_alphabet(),
            alphabet@.len() == 64,
            text@ =~= ice_text(bytes@).take(i as int),
        decreases bytes@.len() - i,
    {
        text.push(alphabet.get_char((bytes[i] % 64) as usize));
        i = i + 1;
    }
    proof {
        assert(ice_text(bytes@).take(i as int) =~= ice_text(bytes@));
    }
    text
}

/// Credentials out of two runs of random bytes, or `None` when either is missing.
pub fn credentials_from(ufrag: Option<Vec<u8>>, pwd: Option<Vec<u8>>) -> (credentials: Option<IceCredentials>)
    ensures
        credentials is Some == (ufrag is Some && pwd is Some),
        credentials matches Some(made) ==> made.ufrag@ == ice_text(ufrag->Some_0@) && made.pwd@ == ice_text(
            pwd->Some_0@,
        ),
{
    match (ufrag, pwd) {
        (Some(ufrag_bytes), Some(pwd_bytes)) => Some(
            IceCredentials { ufrag: ice_string(&ufrag_bytes), pwd: ice_string(&pwd_bytes) },
        ),
        _ => None,
    }
}

/// Fresh credentials, or `None` when the operating system has no random bytes to give: then the call
/// goes on without ICE.
pub fn generate_credentials() -> (credentials: Option<IceCredentials>)
    ensures
        credentials matches Some(made) ==> {
            &&& made.ufrag@.len() == UFRAG_LENGTH
            &&& made.pwd@.len() == PWD_LENGTH
            &&& forall|i: int| 0 <= i < made.ufrag@.len() ==> ice_alphabet().contains(#[trigger] made.ufrag@[i])
            &&& forall|i: int| 0 <= i < made.pwd@.len() ==> ice_alphabet().contains(#[trigger] made.pwd@[i])
        },
{
    let ufrag = random_bytes(UFRAG_LENGTH);
    let pwd = random_bytes(PWD_LENGTH);
    proof {
        if ufrag is Some {
            law_ice_characters(ufrag->Some_0@);
        }
        if pwd is Some {
            law_ice_characters(pwd->Some_0@);
        }
    }
    credentials_from(ufrag, pwd)
}

/// Every character of a credential is an ICE character, and the length is that of the random bytes.
pub proof fn law_ice_characters(bytes: Seq<u8>)
    ensures
        ice_text(bytes).len() == bytes.len(),
        forall|i: int| 0 <= i < bytes.len() ==> ice_alphabet().contains(#[trigger] ice_text(bytes)[i]),
{
    reveal_strlit("ABCDEFGHIJKLMNOPQRSTUVWXYZabcdefghijklmnopqrstuvwxyz0123456789+/");
    assert forall|i: int| 0 <= i < bytes.len() implies ice_alphabet().contains(#[trigger] ice_text(bytes)[i]) by {
        assert(ice_alphabet()[(bytes[i] % 64) as int] == ice_text(bytes)[i]);
    }
}

/// No character is favoured: each is picked by exactly four byte values.
pub proof fn law_ice_characters_are_unbiased(symbol: u8, byte: u8)
    requires
        symbol < 64,
    ensures
        byte % 64 == symbol <==> (byte == symbol || byte == symbol + 64 || byte == symbol + 128 || byte == symbol
            + 192),
{
}

/// A byte picks a capital, a small letter, a digit, a plus sign or a slash, in this order, by its remainder.
pub proof fn law_ice_characters_in_order(bytes: Seq<u8>, i: int)
    requires
        0 <= i < bytes.len(),
    ensures
        ({
            let place = bytes[i] % 64;
            let picked = ice_text(bytes)[i];
            &&& place < 26 ==> picked as u32 == 'A' as u32 + place
            &&& 26 <= place < 52 ==> picked as u32 == 'a' as u32 + place - 26
            &&& 52 <= place < 62 ==> picked as u32 == '0' as u32 + place - 52
            &&& place == 62 ==> picked == '+'
            &&& place == 63 ==> picked == '/'
        }),
{
    reveal_strlit("ABCDEFGHIJKLMNOPQRSTUVWXYZabcdefghijklmnopqrstuvwxyz0123456789+/");
    assert(ice_text(bytes)[i] == ice_alphabet()[(bytes[i] % 64) as int]);
}

} // verus!
