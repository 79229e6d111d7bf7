//! Plain models of the on-chain instruction vocabulary.
//!
//! The engine assembles and inspects instructions as data: a program id, an
//! ordered account list, and opaque instruction bytes. Keys are 32-byte
//! values compared byte for byte.

use vstd::prelude::*;

verus! {

/// Number of bytes in an account key.
pub const PUBKEY_BYTES: usize = 32;

/// A 32-byte account key.
#[derive(Clone, Copy, Debug, Eq)]
pub struct Pubkey {
    /// The raw key bytes.
    pub bytes: [u8; 32],
}

impl View for Pubkey {
    type V = Seq<u8>;

    open spec fn view(&self) -> Seq<u8> {
        self.bytes@
    }
}

impl PartialEq for Pubkey {
    /// Keys are equal exactly when their bytes are.
    fn eq(&self, other: &Pubkey) -> (r: bool) {
        let mut i: usize = 0;
        let mut equal = true;
        while i < PUBKEY_BYTES
            invariant
                i <= PUBKEY_BYTES,
                equal == (forall|j: int|
                    0 <= j < i ==> self.bytes@[j] == other.bytes@[j]),
            decreases PUBKEY_BYTES - i,
        {
            if self.bytes[i] != other.bytes[i] {
                equal = false;
            }
            i = i + 1;
        }
        proof {
            if equal {
                assert(self.bytes@ =~= other.bytes@);
            }
        }
        equal
    }
}

impl vstd::std_specs::cmp::PartialEqSpecImpl for Pubkey {
    open spec fn obeys_eq_spec() -> bool {
        true
    }

    open spec fn eq_spec(&self, other: &Pubkey) -> bool {
        self.bytes@ == other.bytes@
    }
}

impl Pubkey {
    /// The all-zero key.
    pub open spec fn spec_default() -> Seq<u8> {
        Seq::new(32, |i: int| 0u8)
    }

    /// Constructs a key from its raw bytes.
    pub fn new_from_array(bytes: [u8; 32]) -> (r: Self)
        ensures
            r@ == bytes@,
    {
        Pubkey { bytes }
    }

    /// Whether this is the all-zero key.
    pub fn is_default(&self) -> (r: bool)
        ensures
            r == (self@ == Pubkey::spec_default()),
    {
        let d = Pubkey::default();
        *self == d
    }
}

impl Default for Pubkey {
    /// The all-zero key.
    fn default() -> (r: Self)
        ensures
            r@ == Pubkey::spec_default(),
    {
        let bytes = [0u8; 32];
        proof {
            assert(bytes@ =~= Pubkey::spec_default());
        }
        Pubkey { bytes }
    }
}

/// Abstract value of one account entry.
#[verifier::ext_equal]
pub struct AccountView {
    pub pubkey: Seq<u8>,
    pub is_signer: bool,
    pub is_writable: bool,
}

/// Abstract value of one instruction.
#[verifier::ext_equal]
pub struct InstrView {
    pub program_id: Seq<u8>,
    pub accounts: Seq<AccountView>,
    pub data: Seq<u8>,
}

/// One account an instruction touches: its key, whether it must sign, and
/// whether it may be written.
#[derive(Clone, Copy, Debug, PartialEq, Eq)]
pub struct AccountMeta {
    pub pubkey: Pubkey,
    pub is_signer: bool,
    pub is_writable: bool,
}

impl View for AccountMeta {
    type V = AccountView;

    open spec fn view(&self) -> AccountView {
        AccountView {
            pubkey: self.pubkey@,
            is_signer: self.is_signer,
            is_writable: self.is_writable,
        }
    }
}

impl AccountMeta {
    /// A writable, non-signing account entry for `pubkey`.
    pub fn new(pubkey: Pubkey, is_signer: bool) -> (r: Self)
        ensures
            r.pubkey == pubkey,
            r.is_signer == is_signer,
            r.is_writable,
    {
        AccountMeta { pubkey, is_signer, is_writable: true }
    }

    /// A read-only account entry for `pubkey`.
    pub fn new_readonly(pubkey: Pubkey, is_signer: bool) -> (r: Self)
        ensures
            r.pubkey == pubkey,
            r.is_signer == is_signer,
            !r.is_writable,
    {
        AccountMeta { pubkey, is_signer, is_writable: false }
    }
}

/// One instruction: the program to invoke, its account list, and its data.
#[derive(Clone, Debug)]
pub struct Instruction {
    /// The program that executes this instruction.
    pub program_id: Pubkey,
    /// The accounts handed to the program, in order.
    pub accounts: Vec<AccountMeta>,
    /// Opaque instruction data.
    pub data: Vec<u8>,
}

impl View for Instruction {
    type V = InstrView;

    open spec fn view(&self) -> InstrView {
        InstrView {
            program_id: self.program_id@,
            accounts: self.accounts@.map_values(|a: AccountMeta| a@),
            data: self.data@,
        }
    }
}

impl Instruction {
    /// Builds an instruction from its parts.
    pub fn new_with_bytes(program_id: Pubkey, data: Vec<u8>, accounts: Vec<AccountMeta>) -> (r:
        Self)
        ensures
            r.program_id == program_id,
            r.data@ == data@,
            r.accounts@ == accounts@,
    {
        Instruction { program_id, accounts, data }
    }
}

} // verus!
