//! Establishing a session with a peer: the three-message Noise XX handshake,
//! then the exchange of identities over the derived transport cipher, with
//! the check that binds the peer's claimed identity to its handshake key.
//!
//! A session only decides; the caller carries its frames over the stream.
//! Once a step fails the session is failed for good, and the caller must shut
//! the stream down.
use vstd::prelude::*;

use crate::addr::PeerAddr;
use crate::error::CoreError;
use crate::frame::Frame;
use crate::identity::{Identity, UserIdentity};
use crate::noise::{
    dh_public_of, dh_secret_of, handshake_into_transport, handshake_read, handshake_remote_static,
    handshake_write, noise_initiator, noise_responder, transport_read, transport_write,
    x25519_public_of,
};

verus! {

/// The Noise protocol name: XX pattern, X25519, ChaCha20-Poly1305, BLAKE2s.
pub const NOISE_PARAMS: &'static str = "Noise_XX_25519_ChaChaPoly_BLAKE2s";

/// The number of handshake messages of the XX pattern.
pub const HANDSHAKE_MESSAGES: usize = 3;

/// The number of steps of a session, handshake and identity exchange.
pub const SESSION_STEPS: usize = 6;

/// Which side of the handshake this party takes.
#[derive(Debug, Clone, Copy, PartialEq, Eq, Structural)]
pub enum Role {
    Initiator,
    Responder,
}

/// What a session waits for next.
#[derive(Debug, Clone, Copy, PartialEq, Eq, Structural)]
pub enum Step {
    /// Send the frame that `write_handshake` gives.
    SendHandshake,
    /// Hand the peer's next frame to `read_handshake`.
    ReceiveHandshake,
    /// Send the frame that `write_identity` gives.
    SendIdentity,
    /// Hand the peer's next frame to `read_identity`.
    ReceiveIdentity,
    /// Hand the identity decoded from the peer's payload to `check_identity`.
    CheckIdentity,
    /// The session is established.
    Done,
    /// A step failed; the stream must be shut down.
    Failed,
}

/// The steps of a session for each role. The initiator sends its identity
/// first; the responder checks the initiator's before it reveals its own.
pub open spec fn plan(role: Role) -> Seq<Step> {
    match role {
        Role::Initiator => seq![
            Step::SendHandshake,
            Step::ReceiveHandshake,
            Step::SendHandshake,
            Step::SendIdentity,
            Step::ReceiveIdentity,
            Step::CheckIdentity,
        ],
        Role::Responder => seq![
            Step::ReceiveHandshake,
            Step::SendHandshake,
            Step::ReceiveHandshake,
            Step::ReceiveIdentity,
            Step::CheckIdentity,
            Step::SendIdentity,
        ],
    }
}

/// The number of steps of a plan that are `step`.
pub open spec fn count_steps(steps: Seq<Step>, step: Step) -> nat
    decreases steps.len(),
{
    if steps.len() == 0 {
        0
    } else {
        count_steps(steps.drop_last(), step) + if steps.last() == step { 1nat } else { 0nat }
    }
}

/// The two roles fit together: the initiator sends two handshake frames and
/// receives one, the responder the other way round, each sends and receives
/// one identity frame, and at every handshake step one side sends what the
/// other receives. So a session run between an honest initiator and
/// responder exchanges exactly three handshake frames and two identity
/// frames before both are done.
pub proof fn lemma_roles_fit()
    ensures
        plan(Role::Initiator).len() == SESSION_STEPS,
        plan(Role::Responder).len() == SESSION_STEPS,
        count_steps(plan(Role::Initiator), Step::SendHandshake) == 2,
        count_steps(plan(Role::Initiator), Step::ReceiveHandshake) == 1,
        count_steps(plan(Role::Responder), Step::SendHandshake) == 1,
        count_steps(plan(Role::Responder), Step::ReceiveHandshake) == 2,
        count_steps(plan(Role::Initiator), Step::SendIdentity) == 1,
        count_steps(plan(Role::Initiator), Step::ReceiveIdentity) == 1,
        count_steps(plan(Role::Responder), Step::SendIdentity) == 1,
        count_steps(plan(Role::Responder), Step::ReceiveIdentity) == 1,
        forall|i: int| 0 <= i < HANDSHAKE_MESSAGES ==> (#[trigger] plan(Role::Initiator)[i] == Step::SendHandshake
            <==> plan(Role::Responder)[i] == Step::ReceiveHandshake),
{
    reveal_with_fuel(count_steps, 7);
    assert(plan(Role::Initiator).drop_last() =~= seq![Step::SendHandshake, Step::ReceiveHandshake, Step::SendHandshake, Step::SendIdentity, Step::ReceiveIdentity]);
    assert(plan(Role::Responder).drop_last() =~= seq![Step::ReceiveHandshake, Step::SendHandshake, Step::ReceiveHandshake, Step::ReceiveIdentity, Step::CheckIdentity]);
}

/// The step after `progress` steps went well.
pub open spec fn step_of(role: Role, progress: nat, failed: bool) -> Step {
    if failed {
        Step::Failed
    } else if progress < SESSION_STEPS {
        plan(role)[progress as int]
    } else {
        Step::Done
    }
}

/// The position of the identity check in a role's plan.
pub open spec fn check_position(role: Role) -> nat {
    match role {
        Role::Initiator => 5,
        Role::Responder => 4,
    }
}

/// A peer's claimed identity is bound to the handshake if its Ed25519 key
/// converts to the X25519 static key the peer proved during the handshake.
/// The conversion maps an Edwards point and its negative to the same X25519
/// key, so the check cannot tell those two claimed keys apart.
pub open spec fn identity_bound(claimed: Seq<u8>, peer_static: Seq<u8>) -> bool {
    x25519_public_of(claimed) == Some(peer_static)
}

/// A session with one peer being established.
pub struct Session {
    role: Role,
    remote: PeerAddr,
    position: usize,
    failed: bool,
    noise: Option<snow::HandshakeState>,
    transport: Option<snow::TransportState>,
    peer_static: [u8; 32],
    peer_identity: Option<Identity>,
}

impl Session {
    pub closed spec fn role(&self) -> Role {
        self.role
    }

    pub closed spec fn remote(&self) -> PeerAddr {
        self.remote
    }

    /// How many steps went well.
    pub closed spec fn progress(&self) -> nat {
        self.position as nat
    }

    pub closed spec fn failed(&self) -> bool {
        self.failed
    }

    /// The X25519 static key the peer proved during the handshake.
    pub closed spec fn peer_static(&self) -> Seq<u8> {
        self.peer_static@
    }

    /// The identity the peer claimed, once it passed the check.
    pub closed spec fn peer_identity(&self) -> Option<Identity> {
        self.peer_identity
    }

    pub open spec fn step(&self) -> Step {
        step_of(self.role(), self.progress(), self.failed())
    }

    /// The internal state agrees with the step.
    pub closed spec fn wf(&self) -> bool {
        !self.failed ==> {
            &&& self.position <= SESSION_STEPS
            &&& (self.position < HANDSHAKE_MESSAGES <==> self.noise is Some)
            &&& (self.position >= HANDSHAKE_MESSAGES <==> self.transport is Some)
            &&& (self.position > check_position(self.role) <==> self.peer_identity is Some)
        }
    }

    /// Starts a session in `role` with the peer at `remote`, with the
    /// X25519 form of the user's secret key as static key.
    pub fn start(role: Role, user: &UserIdentity, remote: PeerAddr) -> (r: Result<Session, CoreError>)
        ensures
            r matches Ok(s) ==> s.wf() && s.role() == role && s.remote() == remote && s.progress()
                == 0 && !s.failed(),
            r matches Err(e) ==> e is Noise,
    {
        let secret = dh_secret_of(user.private_key());
        let built = match role {
            Role::Initiator => noise_initiator(NOISE_PARAMS, &secret),
            Role::Responder => noise_responder(NOISE_PARAMS, &secret),
        };
        match built {
            Ok(noise) => Ok(
                Session {
                    role,
                    remote,
                    position: 0,
                    failed: false,
                    noise: Some(noise),
                    transport: None,
                    peer_static: [0u8; 32],
                    peer_identity: None,
                },
            ),
            Err(e) => Err(CoreError::Noise(e)),
        }
    }

    /// What the session waits for next.
    pub fn next_step(&self) -> (r: Step)
        requires
            self.wf(),
        ensures
            r == self.step(),
    {
        if self.failed {
            Step::Failed
        } else if self.position >= SESSION_STEPS {
            Step::Done
        } else {
            let p = self.position;
            match self.role {
                Role::Initiator => {
                    if p == 0 || p == 2 {
                        Step::SendHandshake
                    } else if p == 1 {
                        Step::ReceiveHandshake
                    } else if p == 3 {
                        Step::SendIdentity
                    } else if p == 4 {
                        Step::ReceiveIdentity
                    } else {
                        Step::CheckIdentity
                    }
                },
                Role::Responder => {
                    if p == 0 || p == 2 {
                        Step::ReceiveHandshake
                    } else if p == 1 {
                        Step::SendHandshake
                    } else if p == 3 {
                        Step::ReceiveIdentity
                    } else if p == 4 {
                        Step::CheckIdentity
                    } else {
                        Step::SendIdentity
                    }
                },
            }
        }
    }

    /// Marks the session failed and drops its cipher state.
    fn fail(&mut self)
        ensures
            final(self).failed,
            final(self).role == old(self).role,
            final(self).remote == old(self).remote,
            final(self).position == old(self).position,
            final(self).peer_static == old(self).peer_static,
            final(self).peer_identity == old(self).peer_identity,
    {
        self.failed = true;
        self.noise = None;
        self.transport = None;
    }

    /// Records the static key the peer revealed during the handshake, as the
    /// Noise state reports it: a session fails where the peer revealed none,
    /// or one that is not 32 bytes long.
    pub fn record_peer_static(&mut self, remote_static: Option<Vec<u8>>) -> (r: Result<(), CoreError>)
        requires
            old(self).wf(),
        ensures
            final(self).wf(),
            final(self).role() == old(self).role(),
            final(self).remote() == old(self).remote(),
            final(self).progress() == old(self).progress(),
            final(self).peer_identity() == old(self).peer_identity(),
            match remote_static {
                None => r == Err::<(), CoreError>(CoreError::NoisePeerHasNoPublicKey(old(self).remote()))
                    && final(self).failed(),
                Some(k) => if k@.len() == 32 {
                    r is Ok && final(self).peer_static() == k@ && final(self).failed() == old(self).failed()
                } else {
                    r == Err::<(), CoreError>(CoreError::PeerKeyIsMalformed(old(self).remote()))
                        && final(self).failed()
                },
            },
    {
        let remote_static = match remote_static {
            Some(k) => k,
            None => {
                self.fail();
                return Err(CoreError::NoisePeerHasNoPublicKey(self.remote));
            },
        };
        if remote_static.len() != 32 {
            self.fail();
            return Err(CoreError::PeerKeyIsMalformed(self.remote));
        }
        let mut key = [0u8; 32];
        let mut i: usize = 0;
        while i < 32
            invariant
                remote_static@.len() == 32,
                i <= 32,
                forall|j: int| 0 <= j < i ==> key@[j] == remote_static@[j],
            decreases 32 - i,
        {
            key[i] = remote_static[i];
            i = i + 1;
        }
        assert(key@ =~= remote_static@);
        self.peer_static = key;
        Ok(())
    }

    /// After the last handshake message: records the peer's static key and
    /// turns to the transport cipher.
    fn enter_transport(&mut self, noise: snow::HandshakeState) -> (r: Result<(), CoreError>)
        requires
            !old(self).failed,
            old(self).position == HANDSHAKE_MESSAGES - 1,
            old(self).noise is None,
            old(self).transport is None,
            old(self).peer_identity is None,
        ensures
            final(self).wf(),
            final(self).role == old(self).role,
            final(self).remote == old(self).remote,
            r is Ok ==> !final(self).failed && final(self).position == HANDSHAKE_MESSAGES,
            r is Err ==> final(self).failed,
    {
        let remote_static = handshake_remote_static(&noise);
        self.noise = Some(noise);
        self.record_peer_static(remote_static)?;
        let noise = self.noise.take().unwrap();
        match handshake_into_transport(noise) {
            Ok(t) => {
                self.transport = Some(t);
                self.position = HANDSHAKE_MESSAGES;
                Ok(())
            },
            Err(e) => {
                self.fail();
                Err(CoreError::Noise(e))
            },
        }
    }

    /// The next handshake message, as a frame to send.
    pub fn write_handshake(&mut self) -> (r: Result<Frame, CoreError>)
        requires
            old(self).wf(),
            old(self).step() == Step::SendHandshake,
        ensures
            final(self).wf(),
            final(self).role() == old(self).role(),
            final(self).remote() == old(self).remote(),
            r is Ok ==> !final(self).failed() && final(self).progress() == old(self).progress() + 1,
            r is Err ==> final(self).failed(),
    {
        let mut noise = self.noise.take().unwrap();
        let message = match handshake_write(&mut noise) {
            Ok(m) => m,
            Err(e) => {
                self.fail();
                return Err(CoreError::Noise(e));
            },
        };
        let frame = match Frame::raw(message.as_slice()) {
            Ok(f) => f,
            Err(e) => {
                self.fail();
                return Err(e);
            },
        };
        if self.position + 1 == HANDSHAKE_MESSAGES {
            self.enter_transport(noise)?;
        } else {
            self.noise = Some(noise);
            self.position = self.position + 1;
        }
        Ok(frame)
    }

    /// Takes in the peer's next handshake message.
    pub fn read_handshake(&mut self, frame: &Frame) -> (r: Result<(), CoreError>)
        requires
            old(self).wf(),
            old(self).step() == Step::ReceiveHandshake,
        ensures
            final(self).wf(),
            final(self).role() == old(self).role(),
            final(self).remote() == old(self).remote(),
            r is Ok ==> !final(self).failed() && final(self).progress() == old(self).progress() + 1,
            r is Err ==> final(self).failed(),
    {
        let mut noise = self.noise.take().unwrap();
        if let Err(e) = handshake_read(&mut noise, frame.data()) {
            self.fail();
            return Err(CoreError::Noise(e));
        }
        if self.position + 1 == HANDSHAKE_MESSAGES {
            self.enter_transport(noise)
        } else {
            self.noise = Some(noise);
            self.position = self.position + 1;
            Ok(())
        }
    }

    /// The local identity, encoded by the caller, encrypted as a frame to
    /// send.
    pub fn write_identity(&mut self, encoded: &[u8]) -> (r: Result<Frame, CoreError>)
        requires
            old(self).wf(),
            old(self).step() == Step::SendIdentity,
        ensures
            final(self).wf(),
            final(self).role() == old(self).role(),
            final(self).remote() == old(self).remote(),
            final(self).peer_static() == old(self).peer_static(),
            final(self).peer_identity() == old(self).peer_identity(),
            r is Ok ==> !final(self).failed() && final(self).progress() == old(self).progress() + 1,
            r is Err ==> final(self).failed(),
            encoded@.len() + 16 > 65535 ==> r is Err,
    {
        let mut transport = self.transport.take().unwrap();
        let sealed = transport_write(&mut transport, encoded);
        self.transport = Some(transport);
        let message = match sealed {
            Ok(m) => m,
            Err(e) => {
                self.fail();
                return Err(CoreError::Noise(e));
            },
        };
        let frame = match Frame::raw(message.as_slice()) {
            Ok(f) => f,
            Err(e) => {
                self.fail();
                return Err(e);
            },
        };
        self.position = self.position + 1;
        Ok(frame)
    }

    /// Decrypts the peer's identity frame; the caller decodes the payload and
    /// hands the identity to `check_identity`.
    pub fn read_identity(&mut self, frame: &Frame) -> (r: Result<Vec<u8>, CoreError>)
        requires
            old(self).wf(),
            old(self).step() == Step::ReceiveIdentity,
        ensures
            final(self).wf(),
            final(self).role() == old(self).role(),
            final(self).remote() == old(self).remote(),
            final(self).peer_static() == old(self).peer_static(),
            final(self).peer_identity() == old(self).peer_identity(),
            r is Ok ==> !final(self).failed() && final(self).progress() == old(self).progress() + 1,
            r is Err ==> final(self).failed(),
    {
        let mut transport = self.transport.take().unwrap();
        let opened = transport_read(&mut transport, frame.data());
        self.transport = Some(transport);
        match opened {
            Ok(payload) => {
                self.position = self.position + 1;
                Ok(payload)
            },
            Err(e) => {
                self.fail();
                Err(CoreError::Noise(e))
            },
        }
    }

    /// Accepts the identity the peer claims only if its key is the one the
    /// peer proved during the handshake; otherwise the session fails with
    /// `PeerKeyIsInvalid`.
    pub fn check_identity(&mut self, claimed: Identity) -> (r: Result<(), CoreError>)
        requires
            old(self).wf(),
            old(self).step() == Step::CheckIdentity,
        ensures
            final(self).wf(),
            final(self).role() == old(self).role(),
            final(self).remote() == old(self).remote(),
            final(self).peer_static() == old(self).peer_static(),
            r is Ok <==> identity_bound(claimed.public_key@, old(self).peer_static()),
            r is Ok ==> !final(self).failed() && final(self).progress() == old(self).progress() + 1
                && final(self).peer_identity() == Some(claimed),
            r is Err ==> final(self).failed() && r == Err::<(), CoreError>(
                CoreError::PeerKeyIsInvalid { remote: old(self).remote() },
            ),
    {
        let bound = match dh_public_of(&claimed.public_key) {
            Some(m) => bytes32_equal(&m, &self.peer_static),
            None => false,
        };
        if bound {
            self.peer_identity = Some(claimed);
            self.position = self.position + 1;
            Ok(())
        } else {
            self.fail();
            Err(CoreError::PeerKeyIsInvalid { remote: self.remote })
        }
    }

    /// The peer's identity and the transport cipher of an established
    /// session.
    pub(crate) fn into_parts(self) -> (r: (Identity, snow::TransportState))
        requires
            self.wf(),
            self.step() == Step::Done,
        ensures
            self.peer_identity() == Some(r.0),
    {
        (self.peer_identity.unwrap(), self.transport.unwrap())
    }
}

/// Whether two 32-byte strings are equal.
pub fn bytes32_equal(a: &[u8; 32], b: &[u8; 32]) -> (r: bool)
    ensures
        r == (a@ == b@),
{
    let mut i: usize = 0;
    while i < 32
        invariant
            i <= 32,
            a@.len() == 32,
            b@.len() == 32,
            forall|j: int| 0 <= j < i ==> a@[j] == b@[j],
        decreases 32 - i,
    {
        if a[i] != b[i] {
            return false;
        }
        i = i + 1;
    }
    assert(a@ =~= b@);
    true
}

} // verus!
