use vstd::prelude::*;

use crate::menu::MenuAction;

verus! {

/// Length of the text of a public key: "0x" and two digits per byte.
pub const KEY_HEX_LEN: usize = 66;

/// The steps of the on-screen review of a public key.
#[derive(Clone, Copy, Debug, PartialEq, Eq, Structural, Default)]
pub enum GetPublicKeyMenu {
    #[default]
    Review,
    PublicKey,
    Accept,
    Decline,
}

/// The on-screen review of a public key, with the key as text.
pub struct GetPublicKey {
    pub menu: GetPublicKeyMenu,
    /// The key in "0x..." form, as ASCII bytes.
    pub key_hex: [u8; 66],
}

/// The lowercase ASCII hex digit of a value below sixteen.
pub open spec fn hex_digit(n: int) -> u8 {
    if n < 10 {
        (0x30 + n) as u8
    } else {
        (0x61 + n - 10) as u8
    }
}

/// Two lowercase hex digits for each byte of `b`, the high half first.
pub open spec fn hex_lower(b: Seq<u8>) -> Seq<u8> {
    Seq::new(
        2 * b.len(),
        |i: int|
            if i % 2 == 0 {
                hex_digit(b[i / 2] as int / 16)
            } else {
                hex_digit(b[i / 2] as int % 16)
            },
    )
}

/// The text shown for a key: "0x" and its hex digits when the key has 32
/// bytes; "0x" and zero bytes otherwise.
pub open spec fn key_text(key: Seq<u8>) -> Seq<u8> {
    seq![0x30u8, 0x78u8] + if key.len() == 32 {
        hex_lower(key)
    } else {
        Seq::new(64, |i: int| 0u8)
    }
}

#[verifier::external_type_specification]
#[verifier::external_body]
pub struct ExFromHexError(hex::FromHexError);

/// Relies on `hex::encode_to_slice`: when the output is twice as long as the
/// input it writes two lowercase digits per byte, high half first; otherwise
/// it fails before writing anything.
#[verifier::external_body]
fn encode_hex(input: &[u8], output: &mut [u8; 64]) -> (r: Result<(), hex::FromHexError>)
    ensures
        r is Ok <==> input@.len() == 32,
        r is Ok ==> final(output)@ == hex_lower(input@),
        r is Err ==> final(output)@ == old(output)@,
{
    hex::encode_to_slice(input, output)
}

/// The step after `m`, wrapping around.
pub open spec fn review_next(m: GetPublicKeyMenu) -> GetPublicKeyMenu {
    match m {
        GetPublicKeyMenu::Review => GetPublicKeyMenu::PublicKey,
        GetPublicKeyMenu::PublicKey => GetPublicKeyMenu::Accept,
        GetPublicKeyMenu::Accept => GetPublicKeyMenu::Decline,
        GetPublicKeyMenu::Decline => GetPublicKeyMenu::Review,
    }
}

/// The step before `m`, wrapping around.
pub open spec fn review_prev(m: GetPublicKeyMenu) -> GetPublicKeyMenu {
    match m {
        GetPublicKeyMenu::Review => GetPublicKeyMenu::Decline,
        GetPublicKeyMenu::PublicKey => GetPublicKeyMenu::Review,
        GetPublicKeyMenu::Accept => GetPublicKeyMenu::PublicKey,
        GetPublicKeyMenu::Decline => GetPublicKeyMenu::Accept,
    }
}

impl GetPublicKey {
    /// A review of `key`, at its first step.
    pub fn new(key: &[u8]) -> (g: GetPublicKey)
        ensures
            g.key_hex@ == key_text(key@),
            g.menu == GetPublicKeyMenu::Review,
    {
        let mut digits: [u8; 64] = [0; 64];
        let _ = encode_hex(key, &mut digits);
        assert(digits@ =~= if key@.len() == 32 {
            hex_lower(key@)
        } else {
            Seq::new(64, |i: int| 0u8)
        });
        let mut key_hex: [u8; 66] = [0; 66];
        key_hex[0] = 0x30;
        key_hex[1] = 0x78;
        let mut i: usize = 0;
        while i < 64
            invariant
                i <= 64,
                key_hex@[0] == 0x30u8,
                key_hex@[1] == 0x78u8,
                forall|k: int| 0 <= k < i ==> key_hex@[k + 2] == digits@[k],
            decreases 64 - i,
        {
            key_hex[i + 2] = digits[i];
            i = i + 1;
        }
        assert(key_hex@ =~= key_text(key@));
        GetPublicKey { menu: GetPublicKeyMenu::Review, key_hex }
    }

    /// Moves to the previous step.
    pub fn prev(&mut self)
        ensures
            final(self).menu == review_prev(old(self).menu),
            final(self).key_hex == old(self).key_hex,
    {
        self.menu = match self.menu {
            GetPublicKeyMenu::Review => GetPublicKeyMenu::Decline,
            GetPublicKeyMenu::PublicKey => GetPublicKeyMenu::Review,
            GetPublicKeyMenu::Accept => GetPublicKeyMenu::PublicKey,
            GetPublicKeyMenu::Decline => GetPublicKeyMenu::Accept,
        };
    }

    /// Moves to the next step.
    pub fn next(&mut self)
        ensures
            final(self).menu == review_next(old(self).menu),
            final(self).key_hex == old(self).key_hex,
    {
        self.menu = match self.menu {
            GetPublicKeyMenu::Review => GetPublicKeyMenu::PublicKey,
            GetPublicKeyMenu::PublicKey => GetPublicKeyMenu::Accept,
            GetPublicKeyMenu::Accept => GetPublicKeyMenu::Decline,
            GetPublicKeyMenu::Decline => GetPublicKeyMenu::Review,
        };
    }

    /// Confirms the step shown: accepts on `Accept`; declines on `Decline`
    /// and rewinds the review; does nothing elsewhere.
    pub fn action(&mut self) -> (a: MenuAction)
        ensures
            old(self).menu == GetPublicKeyMenu::Accept ==> a == MenuAction::Accept && *final(self)
                == *old(self),
            old(self).menu == GetPublicKeyMenu::Decline ==> a == MenuAction::Decline
                && final(self).menu == GetPublicKeyMenu::Review && final(self).key_hex == old(
                self,
            ).key_hex,
            (old(self).menu == GetPublicKeyMenu::Review || old(self).menu
                == GetPublicKeyMenu::PublicKey) ==> a == MenuAction::Nothing && *final(self)
                == *old(self),
    {
        match self.menu {
            GetPublicKeyMenu::Accept => MenuAction::Accept,
            GetPublicKeyMenu::Decline => {
                self.menu = GetPublicKeyMenu::Review;
                MenuAction::Decline
            },
            _ => MenuAction::Nothing,
        }
    }
}

impl Default for GetPublicKey {
    fn default() -> (g: GetPublicKey)
        ensures
            g.menu == GetPublicKeyMenu::Review,
            g.key_hex@ == Seq::new(KEY_HEX_LEN as nat, |i: int| 0u8),
    {
        let g = GetPublicKey { menu: GetPublicKeyMenu::Review, key_hex: [0; 66] };
        assert(g.key_hex@ =~= Seq::new(KEY_HEX_LEN as nat, |i: int| 0u8));
        g
    }
}

} // verus!
