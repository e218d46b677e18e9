//! The key pair that pays for transactions and signs them.
use vstd::prelude::*;

use crate::chain::{Message, Pubkey, Signature};
use crate::sdk::{
    derive_public_key, derived_public_key, encodable, legacy_signature, sign_legacy, sign_v0,
    v0_signature, SignerError,
};

verus! {

/// An Ed25519 key pair. The public key is always the one of the secret key.
pub struct Keypair {
    secret: [u8; 32],
    public: Pubkey,
}

impl Keypair {
    #[verifier::type_invariant]
    spec fn matched(self) -> bool {
        self.public == derived_public_key(self.secret@)
    }

    /// The secret key.
    pub closed spec fn secret_key(self) -> Seq<u8> {
        self.secret@
    }

    /// The public key.
    pub closed spec fn public_key(self) -> Pubkey {
        self.public
    }

    /// The key pair of a secret key.
    pub fn from_secret(secret: [u8; 32]) -> (keypair: Keypair)
        ensures
            keypair.secret_key() == secret@,
            keypair.public_key() == derived_public_key(secret@),
    {
        let public = derive_public_key(&secret);
        Keypair { secret, public }
    }

    /// The address of the key pair.
    pub fn pubkey(&self) -> (key: Pubkey)
        ensures
            key == self.public_key(),
            key == derived_public_key(self.secret_key()),
    {
        proof {
            use_type_invariant(self);
        }
        self.public
    }

    /// Signs a legacy message that asks for this signer alone.
    pub(crate) fn sign_legacy_message(&self, message: &Message) -> (signature: Signature)
        requires
            message@.num_required_signatures == 1,
            message@.account_keys.len() > 0,
            message@.account_keys[0] == self.public_key(),
            encodable(message@),
        ensures
            signature == legacy_signature(self.secret_key(), message@),
    {
        proof {
            use_type_invariant(self);
        }
        sign_legacy(&self.secret, message)
    }

    /// Signs a version 0 message whose first key is this signer.
    pub(crate) fn sign_v0_message(&self, message: &Message) -> (signature: Result<
        Signature,
        SignerError,
    >)
        requires
            0 < message@.num_required_signatures <= message@.account_keys.len(),
            message@.account_keys[0] == self.public_key(),
            message@.num_required_signatures == 1 ==> encodable(message@),
        ensures
            signature == if message@.num_required_signatures == 1 {
                Ok(v0_signature(self.secret_key(), message@))
            } else {
                Err(SignerError::NotEnoughSigners)
            },
    {
        proof {
            use_type_invariant(self);
        }
        sign_v0(&self.secret, message)
    }
}

} // verus!
