use vstd::prelude::*;
use vstd::slice::{slice_subrange, slice_to_vec};

use crate::encoding::{encode_public_key, public_key_of, KeyMaterial};
use crate::error::ErrorCode;
use crate::path::{path_is_valid, validate_path, PATH_LEN};

verus! {

/// Capacity of the message buffer of a signing session.
pub const MAX_MESSAGE_LEN: usize = 256;

/// The two signature schemes. The wire value is 0 for Ed25519 and 1 for Sr25519.
#[derive(Clone, Copy, Debug, PartialEq, Eq, Structural, Default)]
pub enum Scheme {
    #[default]
    Ed25519,
    Sr25519,
}

/// The scheme that a wire byte selects, if any.
pub open spec fn scheme_of_byte(value: u8) -> Option<Scheme> {
    if value == 0 {
        Some(Scheme::Ed25519)
    } else if value == 1 {
        Some(Scheme::Sr25519)
    } else {
        None
    }
}

impl Scheme {
    /// The scheme that the wire byte `value` selects; `BadP1P2` for any other byte.
    pub fn try_from(value: u8) -> (r: Result<Scheme, ErrorCode>)
        ensures
            match scheme_of_byte(value) {
                Some(s) => r == Ok::<Scheme, ErrorCode>(s),
                None => r == Err::<Scheme, ErrorCode>(ErrorCode::BadP1P2),
            },
    {
        match value {
            0 => Ok(Scheme::Ed25519),
            1 => Ok(Scheme::Sr25519),
            _ => Err(ErrorCode::BadP1P2),
        }
    }
}

/// Whether the backend's `material` is of the kind that `scheme` uses.
pub open spec fn material_fits(scheme: Scheme, material: KeyMaterial) -> bool {
    match scheme {
        Scheme::Ed25519 => material is Ed25519Point,
        Scheme::Sr25519 => material is Sr25519Seed,
    }
}

/// The state of a signing session as the protocol sees it.
pub struct SignerView {
    pub path: Seq<u32>,
    pub scheme: Scheme,
    pub message: Seq<u8>,
}

/// One append of `data` to the session `s`: the new session and the outcome.
/// A chunk that would take the message past the capacity is refused whole.
pub open spec fn append_effect(s: SignerView, data: Seq<u8>) -> (SignerView, Result<(), ErrorCode>) {
    if s.message.len() + data.len() <= MAX_MESSAGE_LEN {
        (SignerView { message: s.message + data, ..s }, Ok(()))
    } else {
        (s, Err(ErrorCode::BadLen))
    }
}

/// The bytes of `chunks`, one chunk after another.
pub open spec fn concat(chunks: Seq<Seq<u8>>) -> Seq<u8>
    decreases chunks.len(),
{
    if chunks.len() == 0 {
        Seq::empty()
    } else {
        concat(chunks.drop_last()) + chunks.last()
    }
}

/// Appends the chunks to `s` one after another: the session after the last
/// append, and whether every append succeeded.
pub open spec fn append_each(s: SignerView, chunks: Seq<Seq<u8>>) -> (SignerView, bool)
    decreases chunks.len(),
{
    if chunks.len() == 0 {
        (s, true)
    } else {
        let (t, ok) = append_each(s, chunks.drop_last());
        let (u, r) = append_effect(t, chunks.last());
        (u, ok && r is Ok)
    }
}

/// Appends whose total stays within the capacity all succeed, and the message
/// is then the old one followed by the chunks in order. The next chunk that
/// would pass the capacity is refused with `BadLen` and leaves the session as
/// it was.
pub proof fn lemma_append_bound(s: SignerView, chunks: Seq<Seq<u8>>, next: Seq<u8>)
    requires
        s.message.len() + concat(chunks).len() <= MAX_MESSAGE_LEN,
    ensures
        append_each(s, chunks) == (SignerView { message: s.message + concat(chunks), ..s }, true),
        s.message.len() + concat(chunks).len() + next.len() > MAX_MESSAGE_LEN ==> append_effect(
            append_each(s, chunks).0,
            next,
        ) == (append_each(s, chunks).0, Err::<(), ErrorCode>(ErrorCode::BadLen)),
    decreases chunks.len(),
{
    if chunks.len() > 0 {
        lemma_append_bound(s, chunks.drop_last(), chunks.last());
        assert(s.message + concat(chunks.drop_last()) + chunks.last() =~= s.message + concat(
            chunks,
        ));
    }
}

/// Only the wire values 0 (Ed25519) and 1 (Sr25519) select a scheme; every
/// other byte is refused.
pub proof fn lemma_scheme_wire_values(value: u8)
    ensures
        scheme_of_byte(value) is Some <==> (value == 0 || value == 1),
        scheme_of_byte(0) == Some(Scheme::Ed25519),
        scheme_of_byte(1) == Some(Scheme::Sr25519),
{
}

/// The idle session: an all-zero path, the default scheme, no message.
pub open spec fn idle_session() -> SignerView {
    SignerView {
        path: Seq::new(PATH_LEN as nat, |i: int| 0u32),
        scheme: Scheme::Ed25519,
        message: Seq::empty(),
    }
}

/// The all-zero path of a cleared session never passes the policy, so until
/// a path is set again, deriving a key or signing fails with `BadPath`.
pub proof fn lemma_cleared_path_rejected(s: SignerView)
    requires
        s.path == idle_session().path,
    ensures
        !path_is_valid(s.path),
{
    assert(s.path[0] == 0u32);
}

/// What the backend signs at the end of a session.
pub struct SignRequest {
    pub scheme: Scheme,
    pub path: [u32; 5],
    pub message: Vec<u8>,
}

/// The signing session: a derivation path, a scheme and a bounded message
/// that grows chunk by chunk until it is signed or cleared.
pub struct Signer {
    path: [u32; 5],
    scheme: Scheme,
    message_len: usize,
    message: [u8; 256],
}

impl View for Signer {
    type V = SignerView;

    closed spec fn view(&self) -> SignerView {
        SignerView {
            path: self.path@,
            scheme: self.scheme,
            message: self.message@.subrange(0, self.message_len as int),
        }
    }
}

impl Signer {
    /// The message fits the buffer and the bytes past it are zero; the path is
    /// either the all-zero path of an idle session or one that passed the policy.
    #[verifier::type_invariant]
    spec fn inv(&self) -> bool {
        &&& self.message_len <= MAX_MESSAGE_LEN
        &&& forall|i: int| self.message_len <= i < MAX_MESSAGE_LEN ==> self.message@[i] == 0u8
        &&& (self.path@ =~= idle_session().path || path_is_valid(self.path@))
    }

    /// The whole message buffer, message and spare bytes alike.
    pub closed spec fn buffer(&self) -> Seq<u8> {
        self.message@
    }

    /// Whether every field is in its idle, zeroed state: all-zero path, the
    /// default scheme, no message and an all-zero buffer.
    pub closed spec fn is_cleared(&self) -> bool {
        &&& self.path@ == idle_session().path
        &&& self.scheme == Scheme::Ed25519
        &&& self.message_len == 0
        &&& self.message@ == Seq::new(MAX_MESSAGE_LEN as nat, |i: int| 0u8)
    }

    /// A new session, idle and zeroed.
    pub fn new() -> (s: Signer)
        ensures
            s@ == idle_session(),
            s.buffer() == Seq::new(MAX_MESSAGE_LEN as nat, |i: int| 0u8),
            s.is_cleared(),
    {
        let s = Signer { path: [0; 5], scheme: Scheme::Ed25519, message_len: 0, message: [0; 256] };
        assert(s@.path =~= idle_session().path);
        assert(s@.message =~= Seq::<u8>::empty());
        assert(s.buffer() =~= Seq::new(MAX_MESSAGE_LEN as nat, |i: int| 0u8));
        s
    }

    /// Ends the session: zeroes the path and the whole buffer and resets the scheme.
    pub fn clear(&mut self)
        ensures
            final(self)@ == idle_session(),
            final(self).buffer() == Seq::new(MAX_MESSAGE_LEN as nat, |i: int| 0u8),
            final(self).is_cleared(),
    {
        proof {
            use_type_invariant(&*self);
        }
        self.message = [0; 256];
        self.message_len = 0;
        self.path = [0; 5];
        self.scheme = Scheme::Ed25519;
        assert(self@.path =~= idle_session().path);
        assert(self@.message =~= Seq::<u8>::empty());
        assert(self.buffer() =~= Seq::new(MAX_MESSAGE_LEN as nat, |i: int| 0u8));
    }

    /// Stores `path` if it passes the policy; else `BadPath` and nothing changes.
    pub fn set_path(&mut self, path: [u32; 5]) -> (r: Result<(), ErrorCode>)
        ensures
            path_is_valid(path@) ==> r == Ok::<(), ErrorCode>(()),
            !path_is_valid(path@) ==> r == Err::<(), ErrorCode>(ErrorCode::BadPath),
            r is Ok ==> final(self)@ == (SignerView { path: path@, ..old(self)@ }),
            r is Err ==> *final(self) == *old(self),
    {
        proof {
            use_type_invariant(&*self);
        }
        validate_path(&path)?;
        self.path = path;
        Ok(())
    }

    /// Selects the scheme named by the wire byte `value`; `BadP1P2` for any
    /// other byte, and then nothing changes.
    pub fn set_scheme(&mut self, value: u8) -> (r: Result<Scheme, ErrorCode>)
        ensures
            match scheme_of_byte(value) {
                Some(s) => r == Ok::<Scheme, ErrorCode>(s) && final(self)@ == (SignerView {
                    scheme: s,
                    ..old(self)@
                }),
                None => r == Err::<Scheme, ErrorCode>(ErrorCode::BadP1P2) && *final(self) == *old(
                    self,
                ),
            },
    {
        proof {
            use_type_invariant(&*self);
        }
        let scheme = Scheme::try_from(value)?;
        self.scheme = scheme;
        Ok(scheme)
    }

    /// `BadP1P2` unless the session uses `scheme`.
    pub fn check_scheme(&self, scheme: Scheme) -> (r: Result<(), ErrorCode>)
        ensures
            r == if self@.scheme == scheme {
                Ok::<(), ErrorCode>(())
            } else {
                Err(ErrorCode::BadP1P2)
            },
    {
        if self.scheme != scheme {
            return Err(ErrorCode::BadP1P2);
        }
        Ok(())
    }

    /// Appends `data` to the message. When the message would exceed the
    /// capacity it fails with `BadLen` and nothing is copied.
    pub fn append_message(&mut self, data: &[u8]) -> (r: Result<(), ErrorCode>)
        ensures
            (final(self)@, r) == append_effect(old(self)@, data@),
            r is Err ==> *final(self) == *old(self),
    {
        proof {
            use_type_invariant(&*self);
        }
        if data.len() > MAX_MESSAGE_LEN - self.message_len {
            return Err(ErrorCode::BadLen);
        }
        let start = self.message_len;
        let end = start + data.len();
        self.message_len = end;
        let mut i: usize = 0;
        while i < data.len()
            invariant
                start + data@.len() == end,
                end <= MAX_MESSAGE_LEN,
                self.message_len == end,
                i <= data@.len(),
                self.path == old(self).path,
                self.path@ =~= idle_session().path || path_is_valid(self.path@),
                self.scheme == old(self).scheme,
                forall|k: int| 0 <= k < start ==> self.message@[k] == old(self).message@[k],
                forall|k: int| 0 <= k < i ==> self.message@[start + k] == data@[k],
                forall|k: int| end <= k < MAX_MESSAGE_LEN ==> self.message@[k] == old(self).message@[k],
                forall|k: int| end <= k < MAX_MESSAGE_LEN ==> self.message@[k] == 0u8,
            decreases data@.len() - i,
        {
            self.message[start + i] = data[i];
            i = i + 1;
        }
        assert(self@.message =~= old(self)@.message + data@);
        Ok(())
    }

    /// The message gathered so far.
    pub fn message(&self) -> (m: &[u8])
        ensures
            m@ == self@.message,
    {
        proof {
            use_type_invariant(self);
        }
        slice_subrange(self.message.as_slice(), 0, self.message_len)
    }

    /// The scheme of the session.
    pub fn scheme(&self) -> (s: Scheme)
        ensures
            s == self@.scheme,
    {
        self.scheme
    }

    /// The derivation path of the session.
    pub fn path(&self) -> (p: [u32; 5])
        ensures
            p@ == self@.path,
            p@ == idle_session().path || path_is_valid(p@),
    {
        proof {
            use_type_invariant(self);
            assert(self.path@ =~= idle_session().path ==> self.path@ == idle_session().path);
        }
        self.path
    }

    /// The public key for the session's scheme and path, from what the
    /// backend derived along that path: `BadPath` when the path fails the
    /// policy, `CryptoError` when the material is not of the session's scheme.
    pub fn get_public_key(&self, material: &KeyMaterial) -> (r: Result<[u8; 32], ErrorCode>)
        ensures
            !path_is_valid(self@.path) ==> r == Err::<[u8; 32], ErrorCode>(ErrorCode::BadPath),
            path_is_valid(self@.path) && !material_fits(self@.scheme, *material) ==> r == Err::<
                [u8; 32],
                ErrorCode,
            >(ErrorCode::CryptoError),
            path_is_valid(self@.path) && material_fits(self@.scheme, *material) ==> (r matches Ok(
                k,
            ) && k@ == public_key_of(*material)),
    {
        validate_path(&self.path)?;
        let fits = match (self.scheme, material) {
            (Scheme::Ed25519, KeyMaterial::Ed25519Point(_)) => true,
            (Scheme::Sr25519, KeyMaterial::Sr25519Seed(_)) => true,
            _ => false,
        };
        if !fits {
            return Err(ErrorCode::CryptoError);
        }
        encode_public_key(material)
    }

    /// What the backend must sign to end the session: its scheme, its path
    /// and the message gathered. `BadPath` when the path fails the policy.
    pub fn sign(&self) -> (r: Result<SignRequest, ErrorCode>)
        ensures
            !path_is_valid(self@.path) ==> r == Err::<SignRequest, ErrorCode>(ErrorCode::BadPath),
            path_is_valid(self@.path) ==> (r matches Ok(q) && q.scheme == self@.scheme && q.path@
                == self@.path && q.message@ == self@.message),
    {
        validate_path(&self.path)?;
        let message = slice_to_vec(self.message());
        Ok(SignRequest { scheme: self.scheme, path: self.path, message })
    }
}

/// Two cleared sessions are the same value, field for field: clearing once
/// or twice, from any state, gives exactly the default session.
pub proof fn lemma_cleared_sessions_equal(a: Signer, b: Signer)
    requires
        a.is_cleared(),
        b.is_cleared(),
    ensures
        a == b,
{
    assert(a.path =~= b.path);
    assert(a.message =~= b.message);
}

impl Default for Signer {
    fn default() -> (s: Signer)
        ensures
            s@ == idle_session(),
            s.buffer() == Seq::new(MAX_MESSAGE_LEN as nat, |i: int| 0u8),
            s.is_cleared(),
    {
        Signer::new()
    }
}

} // verus!
