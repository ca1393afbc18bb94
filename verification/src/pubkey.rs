use vstd::prelude::*;

verus! {

/// A 32-byte account address.
#[derive(Clone, Copy, Debug)]
pub struct Pubkey(pub [u8; 32]);

impl View for Pubkey {
    type V = Seq<u8>;

    open spec fn view(&self) -> Seq<u8> {
        self.0@
    }
}

impl Pubkey {
    /// The address whose bytes are `bytes`.
    pub fn new_from_array(bytes: [u8; 32]) -> (key: Pubkey)
        ensures
            key.0 == bytes,
    {
        Pubkey(bytes)
    }

    /// The bytes of the address.
    pub fn to_bytes(&self) -> (bytes: [u8; 32])
        ensures
            bytes == self.0,
    {
        self.0
    }

    /// The bytes of the address, as a vector (the form a seed takes).
    pub fn to_vec(&self) -> (bytes: Vec<u8>)
        ensures
            bytes@ == self@,
    {
        let mut bytes: Vec<u8> = Vec::new();
        let mut i: usize = 0;
        while i < 32
            invariant
                0 <= i <= 32,
                bytes@ == self@.take(i as int),
            decreases 32 - i,
        {
            bytes.push(self.0[i]);
            i = i + 1;
            proof {
                assert(bytes@ =~= self@.take(i as int));
            }
        }
        proof {
            assert(self@.take(32) =~= self@);
        }
        bytes
    }
}

/// A byte vector seen deeply is the sequence of its bytes.
pub proof fn lemma_bytes_deep_view(bytes: Vec<u8>)
    ensures
        bytes.deep_view() == bytes@,
{
    assert(bytes.deep_view() =~= bytes@);
}

/// Two addresses are the same exactly when their bytes are.
pub proof fn lemma_same_bytes_same_key(a: Pubkey, b: Pubkey)
    ensures
        (a@ == b@) <==> (a == b),
{
    if a@ == b@ {
        assert forall|i: int| 0 <= i < 32 implies a.0[i] == b.0[i] by {
            assert(a@[i] == b@[i]);
        }
        assert(a.0 =~= b.0);
    }
}

impl PartialEq for Pubkey {
    fn eq(&self, other: &Pubkey) -> (same: bool) {
        let mut i: usize = 0;
        while i < 32
            invariant
                0 <= i <= 32,
                forall|j: int| 0 <= j < i ==> self.0[j] == other.0[j],
            decreases 32 - i,
        {
            if self.0[i] != other.0[i] {
                return false;
            }
            i = i + 1;
        }
        proof {
            assert(self.0 =~= other.0);
        }
        true
    }
}

impl vstd::std_specs::cmp::PartialEqSpecImpl for Pubkey {
    open spec fn obeys_eq_spec() -> bool {
        true
    }

    open spec fn eq_spec(&self, other: &Pubkey) -> bool {
        self.0 == other.0
    }
}

impl Eq for Pubkey {}

/// The error that parsing an address out of base58 text gives.
#[verifier::external_type_specification]
#[verifier::external_body]
pub struct ExParsePubkeyError(anchor_lang::solana_program::pubkey::ParsePubkeyError);

/// The 32 bytes that `Pubkey::from_str` decodes from base58 `text`, or nothing where it
/// refuses the text.
pub uninterp spec fn parsed_pubkey(text: Seq<char>) -> Option<Seq<u8>>;

/// Calls `Pubkey::from_str` of solana-program. Claimed: the call succeeds exactly where
/// `parsed_pubkey` has a value, and then gives the address with those bytes. Which of
/// the two errors comes out is left unsaid.
#[verifier::external_body]
pub(crate) fn pubkey_from_str(text: &str) -> (key: Result<Pubkey, anchor_lang::solana_program::pubkey::ParsePubkeyError>)
    ensures
        match key {
            Ok(k) => parsed_pubkey(text@) == Some(k@),
            Err(_) => parsed_pubkey(text@) is None,
        },
{
    match text.parse::<anchor_lang::prelude::Pubkey>() {
        Ok(k) => Ok(Pubkey(k.to_bytes())),
        Err(e) => Err(e),
    }
}

/// The result of `Pubkey::try_find_program_address` for these seeds and program id: the
/// first address off the ed25519 curve that the seeds followed by a bump seed derive,
/// counting the bump down from 255, with that bump; nothing where no bump works.
pub uninterp spec fn program_address_search(seeds: Seq<Seq<u8>>, program_id: Seq<u8>) -> Option<(Seq<u8>, u8)>;

/// Calls `Pubkey::try_find_program_address` of solana-program, the search that
/// `Pubkey::find_program_address` makes without its panic. Claimed: the result is
/// `program_address_search` of the seeds and the program id.
#[verifier::external_body]
pub(crate) fn try_find_program_address(seeds: &Vec<Vec<u8>>, program_id: &Pubkey) -> (found: Option<(Pubkey, u8)>)
    ensures
        match found {
            Some((address, bump)) => program_address_search(seeds.deep_view(), program_id@) == Some((address@, bump)),
            None => program_address_search(seeds.deep_view(), program_id@) is None,
        },
{
    let slices: Vec<&[u8]> = seeds.iter().map(|seed| seed.as_slice()).collect();
    let id = anchor_lang::prelude::Pubkey::new_from_array(program_id.0);
    match anchor_lang::prelude::Pubkey::try_find_program_address(&slices, &id) {
        Some((address, bump)) => Some((Pubkey(address.to_bytes()), bump)),
        None => None,
    }
}

/// The bytes of `ZDxUi178LkcuwdxcEqsSo2E7KATH99LAAXN5LcSVMBC`.
pub open spec fn zo_dex_pid_bytes() -> Seq<u8> {
    seq![
        8u8, 65, 60, 97, 172, 250, 65, 163, 74, 139, 122, 122, 2, 122, 105, 49,
        168, 90, 52, 248, 89, 160, 68, 195, 143, 61, 244, 19, 172, 208, 254, 175,
    ]
}

/// Reads `ZO_DEX_PID` of zo-abi, built with its `devnet` feature, where the source writes it
/// as `pubkey!("ZDxUi178LkcuwdxcEqsSo2E7KATH99LAAXN5LcSVMBC")`. Claimed: its bytes are
/// the base58 decoding of that text.
#[verifier::external_body]
pub(crate) fn zo_dex_pid() -> (key: Pubkey)
    ensures
        key@ == zo_dex_pid_bytes(),
{
    Pubkey(zo_abi::ZO_DEX_PID.to_bytes())
}

} // verus!
