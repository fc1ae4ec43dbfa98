use vstd::prelude::*;

verus! {

/// A sequence of byte strings, seen as the mathematical rows it holds.
pub open spec fn byte_rows(s: Seq<Vec<u8>>) -> Seq<Seq<u8>> {
    s.map_values(|v: Vec<u8>| v@)
}

/// Batch input for the ECDSA/secp256k1 program image: three parallel
/// sequences of byte strings; element `i` across the three forms one
/// verification unit (public key, message, signature).
#[derive(Clone, Debug)]
pub struct EcdsaInput {
    pub pubkey_bytes: Vec<Vec<u8>>,
    pub message_bytes: Vec<Vec<u8>>,
    pub signature_bytes: Vec<Vec<u8>>,
}

/// Batch input for the Ed25519 program image, with the same layout as
/// `EcdsaInput`: element `i` across the three sequences forms one unit.
#[derive(Clone, Debug)]
pub struct Ed25519Input {
    pub pubkey_bytes: Vec<Vec<u8>>,
    pub message_bytes: Vec<Vec<u8>>,
    pub signature_bytes: Vec<Vec<u8>>,
}

impl EcdsaInput {
    pub open spec fn keys(self) -> Seq<Seq<u8>> {
        byte_rows(self.pubkey_bytes@)
    }

    pub open spec fn messages(self) -> Seq<Seq<u8>> {
        byte_rows(self.message_bytes@)
    }

    pub open spec fn signatures(self) -> Seq<Seq<u8>> {
        byte_rows(self.signature_bytes@)
    }

    /// The batch invariant the program checks before any unit is decoded:
    /// the three sequences have one common length.
    pub open spec fn balanced(self) -> bool {
        self.keys().len() == self.messages().len()
            && self.messages().len() == self.signatures().len()
    }
}

impl Ed25519Input {
    pub open spec fn keys(self) -> Seq<Seq<u8>> {
        byte_rows(self.pubkey_bytes@)
    }

    pub open spec fn messages(self) -> Seq<Seq<u8>> {
        byte_rows(self.message_bytes@)
    }

    pub open spec fn signatures(self) -> Seq<Seq<u8>> {
        byte_rows(self.signature_bytes@)
    }

    /// The batch invariant the program checks before any unit is decoded:
    /// the three sequences have one common length.
    pub open spec fn balanced(self) -> bool {
        self.keys().len() == self.messages().len()
            && self.messages().len() == self.signatures().len()
    }
}

} // verus!
