//! The encrypted adapters.
//!
//! A client opens a key exchange by sending its X25519 public key under
//! the server's RSA key (tag 0); the server answers with its own X25519
//! public key in the clear (tag 0). Each side keeps the first shared
//! secret it derives. After that, messages travel both ways as
//! `1 ++ nonce ++ ChaCha20-Poly1305 ciphertext`.
use vstd::prelude::*;
use vstd::slice::slice_subrange;
use crate::adapter::{Inbound, Outbound, Received, received};
use crate::bytes::append_bytes;
use crate::crypto::{
    aead_error_text, basepoint_bytes, chacha_decrypt, chacha_encrypt, chacha_open, chacha_seal,
    public_key_of, random_bytes, rsa_decrypt, rsa_encrypt, rsa_error_text, rsa_pkcs1_open,
    rsa_pkcs1_sealed, x25519, x25519_value, KEY_LEN, NONCE_LEN,
};
use crate::rsa_keys::{
    rsa_public_ok, significant_len, RsaPrivateParts, RsaPrivateView, RsaPublicParts, RsaPublicView,
};
use crate::error::Error;
use crate::frame::{lemma_frame_roundtrip, spec_frame, spec_header};

verus! {

/// Tag of a key-exchange record.
pub const HANDSHAKE_TAG: u8 = 0;

/// Tag of a sealed record, in either direction.
pub const SEALED_TAG: u8 = 1;

/// The shared key after a key exchange that derived `key`: the first key
/// derived stays.
pub open spec fn set_once(shared: Option<Seq<u8>>, key: Seq<u8>) -> Option<Seq<u8>> {
    if shared is Some {
        shared
    } else {
        Some(key)
    }
}

/// The bytes of a sealed record: tag, nonce, ciphertext.
pub open spec fn sealed_record(tag: u8, key: Seq<u8>, nonce: Seq<u8>, plaintext: Seq<u8>) -> Seq<u8> {
    seq![tag] + nonce + chacha_seal(key, nonce, plaintext)
}

/// The plaintext of a sealed record under `key`, if it is authentic.
pub open spec fn open_record(key: Seq<u8>, bytes: Seq<u8>) -> Option<Seq<u8>> {
    chacha_open(key, bytes.subrange(1, 13), bytes.subrange(13, bytes.len() as int))
}

/// What reading a sealed record under `key` gives.
pub open spec fn read_sealed(key: Seq<u8>, bytes: Seq<u8>) -> Received {
    match open_record(key, bytes) {
        Some(p) => Received::Data(p),
        None => Received::Failed,
    }
}

/// What the bytes of a sealed record of `plaintext` under `key` are: a
/// record with some 12-byte nonce, whose ciphertext is 16 bytes longer than
/// the plaintext and opens to it.
pub open spec fn seals(tag: u8, key: Seq<u8>, plaintext: Seq<u8>, out: Seq<u8>) -> bool {
    exists|nonce: Seq<u8>|
        {
            &&& nonce.len() == NONCE_LEN
            &&& out == #[trigger] sealed_record(tag, key, nonce, plaintext)
            &&& chacha_seal(key, nonce, plaintext).len() == plaintext.len() + 16
            &&& chacha_open(key, nonce, chacha_seal(key, nonce, plaintext)) == Some(plaintext)
        }
}

/// Seals `plaintext` under `key` with the given nonce: tag, nonce, then the
/// ChaCha20-Poly1305 ciphertext. Fails exactly when the cipher refuses the
/// plaintext's length.
pub fn seal_with_nonce(tag: u8, key: &[u8], nonce: &[u8], plaintext: &[u8]) -> (res: Result<Vec<u8>, Error>)
    requires
        key@.len() == KEY_LEN,
        nonce@.len() == NONCE_LEN,
    ensures
        res is Ok <==> plaintext@.len() / 64 < u32::MAX,
        res matches Ok(b) ==> {
            &&& b@ == sealed_record(tag, key@, nonce@, plaintext@)
            &&& b@.len() == 1 + NONCE_LEN + plaintext@.len() + 16
            &&& b@[0] == tag
            &&& b@.subrange(1, 13) == nonce@
            &&& b@.subrange(13, b@.len() as int) == chacha_seal(key@, nonce@, plaintext@)
            &&& chacha_seal(key@, nonce@, plaintext@).len() == plaintext@.len() + 16
            &&& chacha_open(key@, nonce@, chacha_seal(key@, nonce@, plaintext@)) == Some(plaintext@)
        },
        res matches Err(e) ==> e is Custom,
{
    match chacha_encrypt(key, nonce, plaintext) {
        Ok(ct) => {
            let mut out: Vec<u8> = Vec::new();
            out.push(tag);
            append_bytes(&mut out, nonce);
            append_bytes(&mut out, ct.as_slice());
            assert(out@.subrange(1, 13) =~= nonce@);
            assert(out@.subrange(13, out@.len() as int) =~= ct@);
            Ok(out)
        },
        Err(e) => Err(Error::Custom(aead_error_text(&e))),
    }
}

/// Seals `plaintext` under `key` with a fresh random nonce.
fn seal(tag: u8, key: &[u8], plaintext: &[u8]) -> (res: Result<Vec<u8>, Error>)
    requires
        key@.len() == KEY_LEN,
    ensures
        res is Ok <==> plaintext@.len() / 64 < u32::MAX,
        res matches Ok(b) ==> seals(tag, key@, plaintext@, b@),
        res matches Err(e) ==> e is Custom,
{
    let nonce = random_bytes(NONCE_LEN);
    let res = seal_with_nonce(tag, key, nonce.as_slice(), plaintext);
    if let Ok(b) = &res {
        assert(b@ == sealed_record(tag, key@, nonce@, plaintext@));
    }
    res
}

/// Opens a sealed record under `key`.
fn open(key: &[u8], bytes: &[u8]) -> (res: Result<Inbound, Error>)
    requires
        key@.len() == KEY_LEN,
        bytes@.len() >= 13,
    ensures
        received(res) == read_sealed(key@, bytes@),
        res matches Err(e) ==> e is Custom,
{
    let nonce = slice_subrange(bytes, 1, 13);
    let ct = slice_subrange(bytes, 13, bytes.len());
    match chacha_decrypt(key, nonce, ct) {
        Ok(p) => Ok(Inbound::Data(p)),
        Err(e) => Err(Error::Custom(aead_error_text(&e))),
    }
}

/// The client side of the encrypted adapter.
pub struct EncryptedClientAdapter {
    secret: Vec<u8>,
    server: RsaPublicParts,
    shared: Option<Vec<u8>>,
}

/// The server side of the encrypted adapter.
pub struct EncryptedServerAdapter {
    private_rsa: RsaPrivateParts,
    secret: Vec<u8>,
    shared: Option<Vec<u8>>,
}

/// The model of an optional key.
pub open spec fn key_view(k: Option<Vec<u8>>) -> Option<Seq<u8>> {
    match k {
        Some(v) => Some(v@),
        None => None,
    }
}

/// Keys have the X25519 length.
pub open spec fn keys_wf(secret: Seq<u8>, shared: Option<Seq<u8>>) -> bool {
    &&& secret.len() == KEY_LEN
    &&& shared matches Some(k) ==> k.len() == KEY_LEN
}

/// What a client makes of a received record, and its shared key after it.
pub open spec fn client_reads(secret: Seq<u8>, shared: Option<Seq<u8>>, bytes: Seq<u8>) -> (Received, Option<Seq<u8>>) {
    if bytes[0] == HANDSHAKE_TAG {
        (Received::Handshake, set_once(shared, x25519_value(secret, bytes.subrange(1, 33))))
    } else {
        (read_sealed(shared.unwrap(), bytes), shared)
    }
}

/// What a server makes of the X25519 key a client sent, and its shared key
/// after it: a key of the wrong length is refused.
pub open spec fn server_accepts(secret: Seq<u8>, shared: Option<Seq<u8>>, client_public: Seq<u8>) -> (Received, Option<Seq<u8>>) {
    if client_public.len() == KEY_LEN {
        (Received::Handshake, set_once(shared, x25519_value(secret, client_public)))
    } else {
        (Received::Failed, shared)
    }
}

/// What RSA decryption under the server's key gives for the bytes of a key
/// exchange after their tag.
pub open spec fn key_exchange_plaintext(rsa_key: RsaPrivateView, bytes: Seq<u8>) -> Option<Seq<u8>> {
    rsa_pkcs1_open(rsa_key.n, rsa_key.e, rsa_key.d, rsa_key.primes, bytes.subrange(1, bytes.len() as int))
}

/// Whether a public key and a private key belong together: every possible
/// PKCS#1 v1.5 encryption under the public key decrypts under the private
/// key to its message.
pub open spec fn rsa_keys_match(public: RsaPublicView, private: RsaPrivateView) -> bool {
    forall|msg: Seq<u8>, ct: Seq<u8>|
        #[trigger] rsa_pkcs1_sealed(public.n, public.e, msg, ct)
            ==> rsa_pkcs1_open(private.n, private.e, private.d, private.primes, ct) == Some(msg)
}

/// What a server makes of a received record, and its shared key after it:
/// a key exchange (tag 0) carries the client's X25519 public key under the
/// server's RSA key; a sealed record (tag 1) is opened under the shared key.
pub open spec fn server_reads(rsa_key: RsaPrivateView, secret: Seq<u8>, shared: Option<Seq<u8>>, bytes: Seq<u8>) -> (Received, Option<Seq<u8>>) {
    if bytes[0] == HANDSHAKE_TAG {
        match key_exchange_plaintext(rsa_key, bytes) {
            Some(p) => server_accepts(secret, shared, p),
            None => (Received::Failed, shared),
        }
    } else {
        (read_sealed(shared.unwrap(), bytes), shared)
    }
}

impl EncryptedClientAdapter {
    #[verifier::type_invariant]
    spec fn inv(&self) -> bool {
        keys_wf(self.secret@, key_view(self.shared))
    }

    /// The client's X25519 secret.
    pub closed spec fn secret(&self) -> Seq<u8> {
        self.secret@
    }

    /// The key shared with the server, once a key exchange has set it.
    pub closed spec fn shared_key(&self) -> Option<Seq<u8>> {
        key_view(self.shared)
    }

    /// The server's RSA public key.
    pub closed spec fn server_key(&self) -> RsaPublicView {
        self.server@
    }

    /// A client adapter for the server whose RSA public key is given, with a
    /// fresh random X25519 secret and no shared key yet.
    pub fn new(server_public_key: RsaPublicParts) -> (a: Self)
        ensures
            a.server_key() == server_public_key@,
            a.secret().len() == KEY_LEN,
            a.shared_key() is None,
    {
        let secret = random_bytes(KEY_LEN);
        EncryptedClientAdapter { secret, server: server_public_key, shared: None }
    }

    /// The client's X25519 public key.
    pub fn public_key(&self) -> (pk: Vec<u8>)
        ensures
            pk@ == public_key_of(self.secret()),
            pk@.len() == KEY_LEN,
            self.secret().len() == KEY_LEN,
    {
        proof { use_type_invariant(self); }
        let bp = basepoint_bytes();
        x25519(self.secret.as_slice(), bp.as_slice())
    }

    /// Whether a key exchange has set the shared key.
    pub fn is_established(&self) -> (b: bool)
        ensures
            b == self.shared_key() is Some,
    {
        self.shared.is_some()
    }

    /// The bytes that carry `msg` to the server.
    ///
    /// The key-exchange request is tag 0 followed by the client's public
    /// key encrypted under the server's RSA key (PKCS#1 v1.5); it fails with
    /// an `Error::Custom` exactly when RSA refuses the key or the key is too
    /// short for 32 bytes. Any other message is sealed under the shared key
    /// with tag 1, or, before a key exchange, sends nothing.
    pub fn encode(&self, msg: &Outbound) -> (res: Result<Vec<u8>, Error>)
        ensures
            res matches Err(e) ==> e is Custom,
            msg is Handshake ==> {
                &&& res is Ok <==> rsa_public_ok(self.server_key().n, self.server_key().e)
                    && KEY_LEN + 11 <= significant_len(self.server_key().n)
                &&& res matches Ok(b) ==> {
                    &&& b@.len() == 1 + significant_len(self.server_key().n)
                    &&& b@[0] == HANDSHAKE_TAG
                    &&& rsa_pkcs1_sealed(self.server_key().n, self.server_key().e,
                        public_key_of(self.secret()), b@.subrange(1, b@.len() as int))
                }
            },
            msg matches Outbound::Data(d) ==> match self.shared_key() {
                Some(k) => {
                    &&& res is Ok <==> d@.len() / 64 < u32::MAX
                    &&& res matches Ok(b) ==> seals(SEALED_TAG, k, d@, b@)
                },
                None => (res matches Ok(b) && b@.len() == 0),
            },
    {
        proof { use_type_invariant(self); }
        match msg {
            Outbound::Handshake => {
                let public = self.public_key();
                match rsa_encrypt(self.server.n.as_slice(), self.server.e.as_slice(), public.as_slice()) {
                    Ok(ct) => {
                        let mut out: Vec<u8> = Vec::new();
                        out.push(HANDSHAKE_TAG);
                        append_bytes(&mut out, ct.as_slice());
                        assert(out@.subrange(1, out@.len() as int) =~= ct@);
                        Ok(out)
                    },
                    Err(e) => Err(Error::Custom(rsa_error_text(&e))),
                }
            },
            Outbound::Data(d) => match &self.shared {
                Some(k) => seal(SEALED_TAG, k.as_slice(), d.as_slice()),
                None => Ok(Vec::new()),
            },
        }
    }

    /// Reads the bytes of one frame from the server.
    ///
    /// A record with tag 0 is the server's answer to the key exchange: its
    /// next 32 bytes are the server's X25519 public key, and the shared key
    /// becomes the X25519 value of the client's secret and that key, unless
    /// a key exchange has already set it. Any other record is opened under
    /// the shared key.
    pub fn decode(&mut self, bytes: &[u8]) -> (res: Result<Inbound, Error>)
        requires
            bytes@.len() >= 1,
            bytes@[0] == HANDSHAKE_TAG ==> bytes@.len() >= 33,
            bytes@[0] != HANDSHAKE_TAG ==> old(self).shared_key() is Some && bytes@.len() >= 13,
        ensures
            final(self).secret() == old(self).secret(),
            (received(res), final(self).shared_key())
                == client_reads(old(self).secret(), old(self).shared_key(), bytes@),
            res matches Err(e) ==> e is Custom,
            final(self).server_key() == old(self).server_key(),
            bytes@[0] == HANDSHAKE_TAG ==> final(self).shared_key() == (if old(self).shared_key() is Some {
                old(self).shared_key()
            } else {
                Some(x25519_value(old(self).secret(), bytes@.subrange(1, 33)))
            }),
            bytes@[0] == HANDSHAKE_TAG ==> forall|server_secret: Seq<u8>|
                server_secret.len() == KEY_LEN && bytes@.subrange(1, 33)
                    == #[trigger] public_key_of(server_secret) ==> final(self).shared_key()
                    == set_once(
                    old(self).shared_key(),
                    x25519_value(server_secret, public_key_of(old(self).secret())),
                ),
    {
        proof { use_type_invariant(&*self); }
        if bytes[0] == HANDSHAKE_TAG {
            let server_public = slice_subrange(bytes, 1, 33);
            let key = x25519(self.secret.as_slice(), server_public);
            if self.shared.is_none() {
                self.shared = Some(key);
            }
            Ok(Inbound::Handshake)
        } else {
            match &self.shared {
                Some(k) => open(k.as_slice(), bytes),
                None => Ok(Inbound::Handshake),
            }
        }
    }
}

impl EncryptedServerAdapter {
    #[verifier::type_invariant]
    spec fn inv(&self) -> bool {
        keys_wf(self.secret@, key_view(self.shared))
    }

    /// The server's X25519 secret for this connection.
    pub closed spec fn secret(&self) -> Seq<u8> {
        self.secret@
    }

    /// The key shared with the client, once a key exchange has set it.
    pub closed spec fn shared_key(&self) -> Option<Seq<u8>> {
        key_view(self.shared)
    }

    /// The server's RSA private key.
    pub closed spec fn rsa_key(&self) -> RsaPrivateView {
        self.private_rsa@
    }

    /// A server adapter with the given RSA private key, a fresh random
    /// X25519 secret and no shared key yet.
    pub fn new(server_private_rsa: RsaPrivateParts) -> (a: Self)
        ensures
            a.rsa_key() == server_private_rsa@,
            a.secret().len() == KEY_LEN,
            a.shared_key() is None,
    {
        let secret = random_bytes(KEY_LEN);
        EncryptedServerAdapter { private_rsa: server_private_rsa, secret, shared: None }
    }

    /// The adapter for another connection: the same RSA key, a fresh random
    /// X25519 secret and no shared key.
    pub fn cloned(&self) -> (a: Self)
        ensures
            a.rsa_key() == self.rsa_key(),
            a.secret().len() == KEY_LEN,
            a.shared_key() is None,
    {
        let secret = random_bytes(KEY_LEN);
        EncryptedServerAdapter {
            private_rsa: self.private_rsa.copy(),
            secret,
            shared: None,
        }
    }

    /// The public half of the server's RSA key, which its clients encrypt
    /// their key exchange under.
    pub fn rsa_public_key(&self) -> (pk: RsaPublicParts)
        ensures
            pk@ == (RsaPublicView { n: self.rsa_key().n, e: self.rsa_key().e }),
    {
        self.private_rsa.public_parts()
    }

    /// The server's X25519 public key for this connection.
    pub fn public_key(&self) -> (pk: Vec<u8>)
        ensures
            pk@ == public_key_of(self.secret()),
            pk@.len() == KEY_LEN,
            self.secret().len() == KEY_LEN,
    {
        proof { use_type_invariant(self); }
        let bp = basepoint_bytes();
        x25519(self.secret.as_slice(), bp.as_slice())
    }

    /// Whether a key exchange has set the shared key.
    pub fn is_established(&self) -> (b: bool)
        ensures
            b == self.shared_key() is Some,
    {
        self.shared.is_some()
    }

    /// The bytes that carry `msg` to the client.
    ///
    /// The answer to the key exchange is tag 0 followed by the server's
    /// public key, 33 bytes in all. Any other message is sealed under the
    /// shared key, with tag 1; it may only be sent once a key exchange has
    /// set that key.
    pub fn encode(&self, msg: &Outbound) -> (res: Result<Vec<u8>, Error>)
        requires
            msg is Data ==> self.shared_key() is Some,
        ensures
            msg is Handshake ==> (res matches Ok(b) && b@ == seq![HANDSHAKE_TAG] + public_key_of(self.secret())
                && b@.len() == 1 + KEY_LEN && b@.subrange(1, 1 + KEY_LEN) == public_key_of(self.secret())),
            msg matches Outbound::Data(d) ==> {
                &&& res is Ok <==> d@.len() / 64 < u32::MAX
                &&& res matches Ok(b) ==> seals(SEALED_TAG, self.shared_key().unwrap(), d@, b@)
                &&& res matches Err(e) ==> e is Custom
            },
    {
        proof { use_type_invariant(self); }
        match msg {
            Outbound::Handshake => {
                let public = self.public_key();
                let mut out: Vec<u8> = Vec::new();
                out.push(HANDSHAKE_TAG);
                append_bytes(&mut out, public.as_slice());
                assert(out@.subrange(1, 1 + KEY_LEN) =~= public@);
                Ok(out)
            },
            Outbound::Data(d) => match &self.shared {
                Some(k) => seal(SEALED_TAG, k.as_slice(), d.as_slice()),
                None => Err(Error::Closed),
            },
        }
    }

    /// Takes the X25519 public key a client sent in its key exchange: a key
    /// of 32 bytes makes the shared key the X25519 value of the server's
    /// secret and that key, unless a key exchange has already set it; a key
    /// of another length is refused with an `Error::Custom`.
    pub fn accept_client_key(&mut self, client_public: &[u8]) -> (res: Result<Inbound, Error>)
        ensures
            final(self).secret() == old(self).secret(),
            final(self).rsa_key() == old(self).rsa_key(),
            (received(res), final(self).shared_key())
                == server_accepts(old(self).secret(), old(self).shared_key(), client_public@),
            res matches Err(e) ==> e is Custom,
            res is Ok <==> client_public@.len() == KEY_LEN,
            final(self).shared_key() == (if client_public@.len() == KEY_LEN && old(self).shared_key() is None {
                Some(x25519_value(old(self).secret(), client_public@))
            } else {
                old(self).shared_key()
            }),
    {
        proof { use_type_invariant(&*self); }
        if client_public.len() != KEY_LEN {
            return Err(Error::Custom(String::from_str("the key exchange did not carry a 32-byte key")));
        }
        let key = x25519(self.secret.as_slice(), client_public);
        if self.shared.is_none() {
            self.shared = Some(key);
        }
        Ok(Inbound::Handshake)
    }

    /// Reads the bytes of one frame from the client.
    ///
    /// A record with tag 0 is the client's key exchange: the rest is
    /// decrypted with the server's RSA key and taken as the client's X25519
    /// public key (see `accept_client_key`), which must then be 32 bytes; an
    /// RSA failure is an `Error::Custom` and changes nothing. A record with
    /// tag 1 is opened under the shared key.
    pub fn decode(&mut self, bytes: &[u8]) -> (res: Result<Inbound, Error>)
        requires
            bytes@.len() >= 1,
            bytes@[0] == HANDSHAKE_TAG || bytes@[0] == SEALED_TAG,
            bytes@[0] == SEALED_TAG ==> old(self).shared_key() is Some && bytes@.len() >= 13,
            bytes@[0] == HANDSHAKE_TAG ==> (key_exchange_plaintext(old(self).rsa_key(), bytes@)
                matches Some(p) ==> p.len() == KEY_LEN),
        ensures
            final(self).secret() == old(self).secret(),
            final(self).rsa_key() == old(self).rsa_key(),
            (received(res), final(self).shared_key())
                == server_reads(old(self).rsa_key(), old(self).secret(), old(self).shared_key(), bytes@),
            res matches Err(e) ==> e is Custom,
            bytes@[0] == HANDSHAKE_TAG ==> final(self).shared_key() == (
                match key_exchange_plaintext(old(self).rsa_key(), bytes@) {
                    Some(p) => if old(self).shared_key() is None {
                        Some(x25519_value(old(self).secret(), p))
                    } else {
                        old(self).shared_key()
                    },
                    None => old(self).shared_key(),
                }),
    {
        proof { use_type_invariant(&*self); }
        if bytes[0] == HANDSHAKE_TAG {
            let ct = slice_subrange(bytes, 1, bytes.len());
            match rsa_decrypt(
                self.private_rsa.modulus(),
                self.private_rsa.public_exponent(),
                self.private_rsa.private_exponent(),
                self.private_rsa.primes(),
                ct,
            ) {
                Ok(client_public) => self.accept_client_key(client_public.as_slice()),
                Err(e) => {
                    Err(Error::Custom(rsa_error_text(&e)))
                },
            }
        } else {
            match &self.shared {
                Some(k) => open(k.as_slice(), bytes),
                None => Err(Error::Closed),
            }
        }
    }

    /// Reads the bytes of one frame from the client, as `decode` does, when
    /// the RSA plaintext of a key exchange is a 32-byte key or RSA
    /// decryption fails; returns `None` and changes nothing when it is a
    /// plaintext of another length, on which `decode` may not be called.
    pub fn decode_checked(&mut self, bytes: &[u8]) -> (res: Option<Result<Inbound, Error>>)
        requires
            bytes@.len() >= 1,
            bytes@[0] == HANDSHAKE_TAG || bytes@[0] == SEALED_TAG,
            bytes@[0] == SEALED_TAG ==> old(self).shared_key() is Some && bytes@.len() >= 13,
        ensures
            res is None <==> (bytes@[0] == HANDSHAKE_TAG && (key_exchange_plaintext(old(self).rsa_key(), bytes@)
                matches Some(p) && p.len() != KEY_LEN)),
            final(self).secret() == old(self).secret(),
            final(self).rsa_key() == old(self).rsa_key(),
            res is None ==> final(self).shared_key() == old(self).shared_key(),
            res matches Some(r) ==> {
                &&& (received(r), final(self).shared_key())
                    == server_reads(old(self).rsa_key(), old(self).secret(), old(self).shared_key(), bytes@)
                &&& r matches Err(e) ==> e is Custom
            },
    {
        if bytes[0] == HANDSHAKE_TAG {
            let ct = slice_subrange(bytes, 1, bytes.len());
            let probe = rsa_decrypt(
                self.private_rsa.modulus(),
                self.private_rsa.public_exponent(),
                self.private_rsa.private_exponent(),
                self.private_rsa.primes(),
                ct,
            );
            if let Ok(p) = probe {
                if p.len() != KEY_LEN {
                    return None;
                }
            }
        }
        Some(self.decode(bytes))
    }
}

/// A sealed record opens, under the key it was sealed with, to the message
/// that was sealed.
pub proof fn lemma_sealed_record_opens(key: Seq<u8>, plaintext: Seq<u8>, bytes: Seq<u8>)
    requires
        seals(SEALED_TAG, key, plaintext, bytes),
    ensures
        bytes.len() == 13 + plaintext.len() + 16,
        bytes[0] == SEALED_TAG,
        read_sealed(key, bytes) == Received::Data(plaintext),
{
    let nonce = choose|nonce: Seq<u8>|
        {
            &&& nonce.len() == NONCE_LEN
            &&& bytes == #[trigger] sealed_record(SEALED_TAG, key, nonce, plaintext)
            &&& chacha_seal(key, nonce, plaintext).len() == plaintext.len() + 16
            &&& chacha_open(key, nonce, chacha_seal(key, nonce, plaintext)) == Some(plaintext)
        };
    let c = chacha_seal(key, nonce, plaintext);
    assert(bytes.subrange(1, 13) =~= nonce);
    assert(bytes.subrange(13, bytes.len() as int) =~= c);
}

/// A message a client seals under a key is read, by a server holding the same
/// key, as that message, and the server keeps its key.
pub proof fn lemma_client_record_reaches_server(
    rsa_key: RsaPrivateView,
    server_secret: Seq<u8>,
    key: Seq<u8>,
    plaintext: Seq<u8>,
    bytes: Seq<u8>,
)
    requires
        seals(SEALED_TAG, key, plaintext, bytes),
    ensures
        server_reads(rsa_key, server_secret, Some(key), bytes) == (Received::Data(plaintext), Some(key)),
{
    lemma_sealed_record_opens(key, plaintext, bytes);
}

/// A message a server seals under a key is read, by a client holding the same
/// key, as that message, and the client keeps its key.
pub proof fn lemma_server_record_reaches_client(client_secret: Seq<u8>, key: Seq<u8>, plaintext: Seq<u8>, bytes: Seq<u8>)
    requires
        seals(SEALED_TAG, key, plaintext, bytes),
    ensures
        client_reads(client_secret, Some(key), bytes) == (Received::Data(plaintext), Some(key)),
{
    lemma_sealed_record_opens(key, plaintext, bytes);
}

/// A message a client seals and frames under a request id arrives whole: the
/// header of the frame gives back the id and the record's length, and the
/// server reads the record that follows as the message.
pub proof fn lemma_request_arrives(
    req_id: u16,
    rsa_key: RsaPrivateView,
    server_secret: Seq<u8>,
    key: Seq<u8>,
    plaintext: Seq<u8>,
    record: Seq<u8>,
)
    requires
        seals(SEALED_TAG, key, plaintext, record),
        record.len() <= u32::MAX,
    ensures
        spec_header(spec_frame(req_id, record)) == Some((req_id, record.len() as u32)),
        server_reads(rsa_key, server_secret, Some(key),
            spec_frame(req_id, record).subrange(6, spec_frame(req_id, record).len() as int))
            == (Received::Data(plaintext), Some(key)),
{
    lemma_frame_roundtrip(req_id, record);
    lemma_client_record_reaches_server(rsa_key, server_secret, key, plaintext, record);
}

/// The server's answer to a key exchange gives a client the X25519 value of
/// the client's secret and the server's public key, unless the client
/// already holds a shared key, which it keeps.
pub proof fn lemma_server_answer_sets_client_key(client_secret: Seq<u8>, shared: Option<Seq<u8>>, server_secret: Seq<u8>, pk: Seq<u8>)
    requires
        pk == public_key_of(server_secret),
        pk.len() == KEY_LEN,
    ensures
        client_reads(client_secret, shared, seq![HANDSHAKE_TAG] + pk)
            == (Received::Handshake, set_once(shared, x25519_value(client_secret, pk))),
{
    assert((seq![HANDSHAKE_TAG] + pk).subrange(1, 33) =~= pk);
}

/// A client's key-exchange request reaches the server: when the bytes after
/// tag 0 are a PKCS#1 v1.5 encryption of the client's 32-byte X25519 public
/// key under the public half of the server's RSA key (as
/// `EncryptedClientAdapter::encode` ensures), and RSA decryption is correct
/// for that key pair, the server derives its key from that public key,
/// unless it already holds one.
pub proof fn lemma_client_request_reaches_server(
    rsa_public: RsaPublicView,
    rsa_key: RsaPrivateView,
    server_secret: Seq<u8>,
    shared: Option<Seq<u8>>,
    client_secret: Seq<u8>,
    hello: Seq<u8>,
)
    requires
        rsa_keys_match(rsa_public, rsa_key),
        hello.len() >= 1,
        hello[0] == HANDSHAKE_TAG,
        rsa_pkcs1_sealed(rsa_public.n, rsa_public.e, public_key_of(client_secret),
            hello.subrange(1, hello.len() as int)),
        public_key_of(client_secret).len() == KEY_LEN,
    ensures
        key_exchange_plaintext(rsa_key, hello) == Some(public_key_of(client_secret)),
        server_reads(rsa_key, server_secret, shared, hello)
            == (Received::Handshake, set_once(shared, x25519_value(server_secret, public_key_of(client_secret)))),
{
}

/// A key exchange gives both sides the same key: a fresh server that reads a
/// fresh client's key-exchange request derives the key that the client
/// derives from that server's answer (as `EncryptedClientAdapter::decode`
/// ensures), when RSA decryption is correct for the server's key pair.
pub proof fn lemma_key_exchange_agrees(
    rsa_public: RsaPublicView,
    rsa_key: RsaPrivateView,
    client_secret: Seq<u8>,
    server_secret: Seq<u8>,
    hello: Seq<u8>,
    client_key: Option<Seq<u8>>,
)
    requires
        rsa_keys_match(rsa_public, rsa_key),
        hello.len() >= 1,
        hello[0] == HANDSHAKE_TAG,
        rsa_pkcs1_sealed(rsa_public.n, rsa_public.e, public_key_of(client_secret),
            hello.subrange(1, hello.len() as int)),
        public_key_of(client_secret).len() == KEY_LEN,
        client_key == set_once(None, x25519_value(server_secret, public_key_of(client_secret))),
    ensures
        server_reads(rsa_key, server_secret, None, hello) == (Received::Handshake, client_key),
{
    lemma_client_request_reaches_server(rsa_public, rsa_key, server_secret, None, client_secret, hello);
}

/// A key exchange on a side that holds no key sets exactly the key it
/// derived; on a side that holds one it keeps that key.
pub proof fn lemma_set_once(shared: Option<Seq<u8>>, key: Seq<u8>)
    ensures
        shared is None ==> set_once(shared, key) == Some(key),
        shared is Some ==> set_once(shared, key) == shared,
{
}

/// Once set, the shared key of a side does not change again: a key exchange
/// keeps it.
pub proof fn lemma_key_kept(shared: Option<Seq<u8>>, key: Seq<u8>)
    requires
        shared is Some,
    ensures
        set_once(shared, key) == shared,
{
}

} // verus!
