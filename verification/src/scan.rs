//! Scan dispatcher: turns the continuous stream of texts recovered from
//! video frames into discrete protocol events.
//!
//! The live scanner decodes every frame, so one QR code in front of the
//! camera repeats the same text across many consecutive frames. The
//! dispatcher's only persistent state is the last seen text: a repeat is
//! dropped, anything else is classified through the wire codec and turned
//! into at most one action.

use vstd::prelude::*;
use vstd::utf8::{decode_utf8, valid_utf8};
use crate::crypto;
use crate::fingerprint;
use crate::wire;

verus! {

/// Mathematical model of the action one scan produces.
pub enum ActionModel {
    /// Duplicate frame, unrecognized payload, or a signed message while no
    /// public key is held: nothing happens, nothing is shown.
    Ignore,
    /// A scanned public-key announcement, to be confirmed by the user
    /// against the shown fingerprint before it is imported.
    PromptImport { raw_public_key: Seq<u8>, fingerprint: Seq<char> },
    /// A signed message to verify against the held public key.
    VerifySigned { signature: Seq<u8>, message: Seq<u8> },
}

/// The action one scan produces.
pub enum ScanAction {
    Ignore,
    PromptImport { raw_public_key: Vec<u8>, fingerprint: String },
    VerifySigned { signature: Vec<u8>, message: Vec<u8> },
}

impl View for ScanAction {
    type V = ActionModel;

    open spec fn view(&self) -> ActionModel {
        match self {
            ScanAction::Ignore => ActionModel::Ignore,
            ScanAction::PromptImport { raw_public_key, fingerprint } => ActionModel::PromptImport {
                raw_public_key: raw_public_key@,
                fingerprint: fingerprint@,
            },
            ScanAction::VerifySigned { signature, message } => ActionModel::VerifySigned {
                signature: signature@,
                message: message@,
            },
        }
    }
}

/// The bytes a scanned text stands for: each character's low byte, as the
/// scanner hands binary QR content through a text channel.
pub open spec fn scan_bytes(text: Seq<char>) -> Seq<u8> {
    text.map(|i: int, c: char| (((c as u32) % 256) as u8))
}

/// The action produced for a fresh (non-duplicate) text.
pub open spec fn action_spec(text: Seq<char>, have_public_key: bool) -> ActionModel {
    match wire::decode_spec(scan_bytes(text)) {
        wire::WireModel::Announce { key } => ActionModel::PromptImport {
            raw_public_key: key,
            fingerprint: fingerprint::fingerprint_spec(key),
        },
        wire::WireModel::Signed { signature, message } => if have_public_key {
            ActionModel::VerifySigned { signature, message }
        } else {
            ActionModel::Ignore
        },
        wire::WireModel::Other => ActionModel::Ignore,
    }
}

/// The dispatcher's pure transition function: from (last seen text, new
/// text, whether a public key is held) to (new last seen text, action).
pub open spec fn step_spec(
    last: Option<Seq<char>>,
    text: Seq<char>,
    have_public_key: bool,
) -> (Option<Seq<char>>, ActionModel) {
    if last == Some(text) {
        (last, ActionModel::Ignore)
    } else {
        (Some(text), action_spec(text, have_public_key))
    }
}

/// The stateful dispatcher: its one persistent field is the last seen text.
pub struct ScanDispatcher {
    last_text: Option<String>,
}

impl View for ScanDispatcher {
    type V = Option<Seq<char>>;

    closed spec fn view(&self) -> Option<Seq<char>> {
        match self.last_text {
            Some(ref t) => Some(t@),
            None => None,
        }
    }
}

impl ScanDispatcher {
    /// A dispatcher that has seen no text yet.
    pub fn new() -> (r: ScanDispatcher)
        ensures
            r@ == Option::<Seq<char>>::None,
    {
        ScanDispatcher { last_text: None }
    }

    /// Consume the text recovered from one frame and produce the protocol
    /// action it stands for, exactly as `step_spec` says.
    pub fn on_scan(&mut self, text: String, have_public_key: bool) -> (r: ScanAction)
        ensures
            (final (self)@, r@) == step_spec(old(self)@, text@, have_public_key),
    {
        let duplicate = match &self.last_text {
            Some(prev) => *prev == text,
            None => false,
        };
        if duplicate {
            return ScanAction::Ignore;
        }
        let bytes = scan_text_bytes(&text);
        self.last_text = Some(text);
        match wire::decode(&bytes) {
            wire::WirePayload::PublicKeyAnnouncement { raw_public_key } => {
                let fp = fingerprint::fingerprint(&raw_public_key);
                ScanAction::PromptImport { raw_public_key, fingerprint: fp }
            },
            wire::WirePayload::SignedMessage { signature, message } => {
                if have_public_key {
                    ScanAction::VerifySigned { signature, message }
                } else {
                    ScanAction::Ignore
                }
            },
            wire::WirePayload::Unrecognized => ScanAction::Ignore,
        }
    }
}

/// The low bytes of a scanned text, as `scan_bytes` says.
fn scan_text_bytes(text: &String) -> (r: Vec<u8>)
    ensures
        r@ == scan_bytes(text@),
{
    let mut out: Vec<u8> = Vec::new();
    let n = text.as_str().unicode_len();
    let mut i: usize = 0;
    while i < n
        invariant
            i <= n,
            n == text@.len(),
            out@ == scan_bytes(text@).take(i as int),
        decreases n - i,
    {
        let c = text.as_str().get_char(i);
        let code: u32 = c as u32;
        let b: u8 = (code % 256) as u8;
        out.push(b);
        proof {
            assert(out@ =~= scan_bytes(text@).take(i as int + 1));
        }
        i += 1;
    }
    proof {
        assert(scan_bytes(text@).take(text@.len() as int) =~= scan_bytes(text@));
    }
    out
}

/// Mathematical model of what is presented after a verification finishes.
pub enum OutcomeModel {
    /// The signature verified and the message bytes are text: show them.
    Verified { message_text: Seq<char> },
    /// The signature verified but the message bytes are not UTF-8: show an
    /// opaque marker, never raw bytes, and never fail.
    VerifiedOpaque,
    /// The signature did not verify.
    Failed,
}

/// What is presented after a verification finishes.
pub enum VerifyOutcome {
    Verified { message_text: String },
    VerifiedOpaque,
    Failed,
}

impl View for VerifyOutcome {
    type V = OutcomeModel;

    open spec fn view(&self) -> OutcomeModel {
        match self {
            VerifyOutcome::Verified { message_text } => OutcomeModel::Verified {
                message_text: message_text@,
            },
            VerifyOutcome::VerifiedOpaque => OutcomeModel::VerifiedOpaque,
            VerifyOutcome::Failed => OutcomeModel::Failed,
        }
    }
}

/// What `handle_signed` presents, given whether the signature verified.
pub open spec fn outcome_spec(ok: bool, message: Seq<u8>) -> OutcomeModel {
    if !ok {
        OutcomeModel::Failed
    } else if valid_utf8(message) {
        OutcomeModel::Verified { message_text: decode_utf8(message) }
    } else {
        OutcomeModel::VerifiedOpaque
    }
}

/// Verify one scanned signed message against the held public key and say
/// what to present. Accepts any signature bytes: only a 64-byte signature
/// can verify, anything else is presented as failed.
pub fn handle_signed(
    public_key: &crypto::PublicKey,
    signature: &Vec<u8>,
    message: &Vec<u8>,
) -> (r: VerifyOutcome)
    ensures
        r@ == outcome_spec(
            signature@.len() == 64 && crypto::verifies(public_key@, signature@, message@),
            message@,
        ),
{
    let ok = crypto::verify(public_key, signature, message);
    if !ok {
        return VerifyOutcome::Failed;
    }
    match crate::text::utf8_to_string(message) {
        Some(message_text) => VerifyOutcome::Verified { message_text },
        None => VerifyOutcome::VerifiedOpaque,
    }
}

/// Law: feeding the dispatcher the same text twice in a row produces
/// exactly one protocol action — the second step ignores the repeated
/// frame and leaves the state unchanged, whatever key is then held.
pub proof fn lemma_duplicate_frame_dropped(
    last: Option<Seq<char>>,
    text: Seq<char>,
    have_key_first: bool,
    have_key_second: bool,
)
    ensures
        ({
            let (mid, _) = step_spec(last, text, have_key_first);
            step_spec(mid, text, have_key_second) == (mid, ActionModel::Ignore)
        }),
{
}

/// Law: a signed message scanned while no public key is held is silently
/// ignored — no action, no error, no user-visible effect.
pub proof fn lemma_signed_without_key_ignored(text: Seq<char>)
    requires
        wire::decode_spec(scan_bytes(text)) is Signed,
    ensures
        action_spec(text, false) == (ActionModel::Ignore),
{
}

} // verus!
