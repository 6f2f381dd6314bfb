//! Key lifecycle manager: generate, import, export and hold the session's
//! signing key.
//!
//! Exactly one key state exists per session. It is replaced wholesale on
//! generate, backup import, or scan import, and never partially mutated;
//! every failure leaves it exactly as it was. The fingerprint of the held
//! public half is derived on demand, so it can never go stale.

use vstd::prelude::*;
use crate::backup;
use crate::crypto;
use crate::fingerprint;
use crate::wire;

verus! {

/// Mathematical model of the held key material.
pub enum KeyModel {
    /// No key held.
    Empty,
    /// Only another party's public key, for verification.
    PublicOnly { public: Seq<u8> },
    /// A full signing key pair.
    Pair { public: Seq<u8>, private: Seq<u8> },
}

impl KeyModel {
    /// The raw public bytes, when any key is held.
    pub open spec fn public_bytes(self) -> Option<Seq<u8>> {
        match self {
            KeyModel::Empty => None,
            KeyModel::PublicOnly { public } => Some(public),
            KeyModel::Pair { public, private } => Some(public),
        }
    }
}

/// The held key material: nothing, a public half, or a full pair.
pub enum KeyState {
    Empty,
    PublicOnly(crypto::PublicKey),
    Pair(crypto::PublicKey, crypto::PrivateKey),
}

impl View for KeyState {
    type V = KeyModel;

    open spec fn view(&self) -> KeyModel {
        match self {
            KeyState::Empty => KeyModel::Empty,
            KeyState::PublicOnly(k) => KeyModel::PublicOnly { public: k@ },
            KeyState::Pair(p, k) => KeyModel::Pair { public: p@, private: k@ },
        }
    }
}

/// Owns the session's key state and everything derived from it.
pub struct KeyManager {
    state: KeyState,
}

impl View for KeyManager {
    type V = KeyModel;

    closed spec fn view(&self) -> KeyModel {
        self.state@
    }
}

impl KeyManager {
    /// A session that holds no key.
    pub fn new() -> (r: KeyManager)
        ensures
            r@ == (KeyModel::Empty),
    {
        KeyManager { state: KeyState::Empty }
    }

    /// Whether a batch can be signed: only a full pair can sign.
    pub fn is_signing_capable(&self) -> (r: bool)
        ensures
            r == (self@ matches KeyModel::Pair { .. }),
    {
        match &self.state {
            KeyState::Pair(_, _) => true,
            _ => false,
        }
    }

    /// Request a fresh pair from the crypto engine and hold it: a valid
    /// 65-byte public point derived from a valid private scalar, so the
    /// announced key can always be re-imported by a scanning peer. On
    /// failure the held state is untouched.
    pub fn generate(&mut self) -> (r: Result<(), crate::CoreError>)
        ensures
            r is Ok ==> (final (self)@ matches KeyModel::Pair { public, private } && ({
                &&& public == crypto::pubkey_of(private)
                &&& public.len() == 65
                &&& crypto::valid_pub_bytes(public)
                &&& crypto::valid_priv_bytes(private)
            })),
            r matches Err(e) ==> final (self)@ == old(self)@ && e == crate::CoreError::CryptoEngine,
    {
        match crypto::generate_keypair() {
            Ok((public_key, private_key)) => {
                self.state = KeyState::Pair(public_key, private_key);
                Ok(())
            },
            Err(e) => Err(e),
        }
    }

    /// Hold a scanned public key for verification, replacing whatever was
    /// held. On failure the held state is untouched.
    pub fn set_public_only(&mut self, raw: &Vec<u8>) -> (r: Result<(), crate::CoreError>)
        ensures
            r is Ok <==> raw@.len() == 65 && crypto::valid_pub_bytes(raw@),
            r is Ok ==> final (self)@ == (KeyModel::PublicOnly { public: raw@ }),
            r matches Err(e) ==> final (self)@ == old(self)@ && e == crate::CoreError::CryptoEngine,
    {
        match crypto::import_public_key_raw(raw) {
            Ok(public_key) => {
                self.state = KeyState::PublicOnly(public_key);
                Ok(())
            },
            Err(e) => Err(e),
        }
    }

    /// The held public key, if any.
    pub fn public_key(&self) -> (r: Option<crypto::PublicKey>)
        ensures
            match self@.public_bytes() {
                Some(b) => r matches Some(k) && k@ == b,
                None => r is None,
            },
    {
        match &self.state {
            KeyState::Empty => None,
            KeyState::PublicOnly(k) => Some(k.clone_key()),
            KeyState::Pair(p, _) => Some(p.clone_key()),
        }
    }

    /// The held private key, if a pair is held.
    pub fn private_key(&self) -> (r: Option<&crypto::PrivateKey>)
        ensures
            match self@ {
                KeyModel::Pair { public, private } => r matches Some(k) && k@ == private,
                _ => r is None,
            },
    {
        match &self.state {
            KeyState::Pair(_, k) => Some(k),
            _ => None,
        }
    }

    /// The fingerprint readout: the held public key's fingerprint, or a
    /// fixed placeholder when no key is held — never an empty string.
    pub fn fingerprint_display(&self) -> (r: String)
        ensures
            match self@.public_bytes() {
                Some(b) => r@ == fingerprint::fingerprint_spec(b),
                None => r@ == "<no public key loaded>"@,
            },
    {
        match &self.state {
            KeyState::Empty => {
                let placeholder = "<no public key loaded>";
                placeholder.to_owned()
            },
            KeyState::PublicOnly(k) => fingerprint::fingerprint(&crypto::export_key_raw(k)),
            KeyState::Pair(p, _) => fingerprint::fingerprint(&crypto::export_key_raw(p)),
        }
    }

    /// The `PUB:` announcement carrying the held public key, to be rendered
    /// as the session's own QR code.
    pub fn public_announcement(&self) -> (r: Option<Vec<u8>>)
        ensures
            match self@.public_bytes() {
                Some(b) => r matches Some(v) && v@ == wire::encode_announcement_spec(b),
                None => r is None,
            },
    {
        match self.public_key() {
            Some(k) => {
                let raw = crypto::export_key_raw(&k);
                Some(wire::encode_public_key_announcement(&raw))
            },
            None => None,
        }
    }

    /// Export the held pair as a backup file text. Only a pair can be
    /// exported; otherwise the affordance is absent.
    pub fn export_backup(&self) -> (r: Option<String>)
        ensures
            match self@ {
                KeyModel::Pair { public, private } => r matches Some(t) && ({
                    &&& t@ == backup::backup_wire(
                        crypto::jwk_pub_of(public),
                        crypto::jwk_priv_of(private),
                    )
                    &&& crypto::flat_object_shape(crypto::jwk_pub_of(public))
                    &&& crypto::flat_object_shape(crypto::jwk_priv_of(private))
                    &&& crypto::jwk_pub_parse(crypto::jwk_pub_of(public)) == Some(public)
                    &&& crypto::jwk_priv_parse(crypto::jwk_priv_of(private)) == Some(private)
                }),
                _ => r is None,
            },
    {
        match &self.state {
            KeyState::Pair(p, k) => {
                let public_jwk = crypto::export_key(p);
                let private_jwk = crypto::export_private_key(k);
                Some(backup::compose_backup(public_jwk.as_str(), private_jwk.as_str()))
            },
            _ => None,
        }
    }

    /// Import a backup file text. A text the backup codec refuses is a
    /// format error; a half the engine refuses is an engine error; either
    /// way the held state is untouched. On success the held state becomes
    /// exactly the pair the backup carries.
    pub fn import_backup(&mut self, text: &str) -> (r: Result<(), crate::CoreError>)
        ensures
            match backup::backup_jwks_spec(text@) {
                None => r matches Err(e) && e == crate::CoreError::BackupFormat && final (self)@
                    == old(self)@,
                Some(jwks) => match (
                    crypto::jwk_pub_parse(jwks.0),
                    crypto::jwk_priv_parse(jwks.1),
                ) {
                    (Some(pb), Some(kb)) => r is Ok && final (self)@ == (KeyModel::Pair {
                        public: pb,
                        private: kb,
                    }),
                    _ => r matches Err(e) && e == crate::CoreError::CryptoEngine && final (self)@
                        == old(self)@,
                },
            },
    {
        let (public_jwk, private_jwk) = match backup::parse_backup(text) {
            Ok(jwks) => jwks,
            Err(e) => {
                return Err(e);
            },
        };
        let public_key = match crypto::import_public_key(public_jwk.as_str()) {
            Ok(k) => k,
            Err(e) => {
                return Err(e);
            },
        };
        let private_key = match crypto::import_private_key(private_jwk.as_str()) {
            Ok(k) => k,
            Err(e) => {
                return Err(e);
            },
        };
        self.state = KeyState::Pair(public_key, private_key);
        Ok(())
    }
}

/// Apply the user's decision on a scanned public-key announcement:
/// acceptance replaces whatever key is held with the scanned key for
/// verification; rejection is a silent no-op, not an error.
pub fn apply_import_decision(
    manager: &mut KeyManager,
    raw_public_key: &Vec<u8>,
    accepted: bool,
) -> (r: Result<(), crate::CoreError>)
    ensures
        !accepted ==> r is Ok && final (manager)@ == old(manager)@,
        accepted ==> ({
            &&& r is Ok <==> raw_public_key@.len() == 65 && crypto::valid_pub_bytes(
                raw_public_key@,
            )
            &&& r is Ok ==> final (manager)@ == (KeyModel::PublicOnly {
                public: raw_public_key@,
            })
            &&& r is Err ==> final (manager)@ == old(manager)@
        }),
{
    if !accepted {
        return Ok(());
    }
    manager.set_public_only(raw_public_key)
}

/// Law: importing an exported backup restores exactly the pair that was
/// exported — same public half, same private half, and therefore the same
/// fingerprint.
pub fn export_import_round_trip(source: &KeyManager, target: &mut KeyManager) -> (r: Result<
    (),
    crate::CoreError,
>)
    requires
        old(target)@ == (KeyModel::Empty),
    ensures
        match source@ {
            KeyModel::Pair { public, private } => ({
                &&& r is Ok
                &&& final (target)@ == (KeyModel::Pair { public, private })
                &&& final (target)@.public_bytes() == source@.public_bytes()
            }),
            _ => final (target)@ == (KeyModel::Empty),
        },
{
    let text = match source.export_backup() {
        Some(t) => t,
        None => {
            return Ok(());
        },
    };
    proof {
        if let KeyModel::Pair { public, private } = source@ {
            backup::lemma_backup_round_trip(
                crypto::jwk_pub_of(public),
                crypto::jwk_priv_of(private),
            );
        }
    }
    target.import_backup(text.as_str())
}

} // verus!
