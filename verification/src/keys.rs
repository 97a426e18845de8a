use vstd::prelude::*;

verus! {

/// A 32-byte on-chain account or program identifier.
#[derive(Clone, Copy, Debug, PartialEq, Eq)]
pub struct Pubkey {
    pub bytes: [u8; 32],
}

impl View for Pubkey {
    type V = Seq<u8>;

    open spec fn view(&self) -> Seq<u8> {
        self.bytes@
    }
}

impl DeepView for Pubkey {
    type V = Seq<u8>;

    open spec fn deep_view(&self) -> Seq<u8> {
        self.bytes@
    }
}

impl Pubkey {
    pub fn new_from_array(bytes: [u8; 32]) -> (r: Pubkey)
        ensures
            r@ == bytes@,
    {
        Pubkey { bytes }
    }

    /// Byte-for-byte equality of two identifiers.
    pub fn eq_key(&self, other: &Pubkey) -> (r: bool)
        ensures
            r == (self@ == other@),
    {
        let mut i: usize = 0;
        while i < 32
            invariant
                i <= 32,
                forall|j: int| 0 <= j < i ==> self.bytes@[j] == other.bytes@[j],
            decreases 32 - i,
        {
            if self.bytes[i] != other.bytes[i] {
                assert(self@ != other@);
                return false;
            }
            i += 1;
        }
        proof {
            assert(self@ =~= other@);
        }
        true
    }
}

/// The Bubblegum compressed-NFT program id
/// (base58 `BGUMAp9Gq7iTEuizy4pqaxsTyUCBK68MDfK752saRPUY`).
pub open spec fn bubblegum_id_bytes() -> Seq<u8> {
    seq![
        152u8, 139, 128, 235, 121, 53, 40, 105, 178, 36, 116, 95, 89, 221, 191, 138, 38, 88, 202,
        19, 220, 104, 129, 33, 38, 53, 28, 174, 7, 193, 165, 165,
    ]
}

/// The no-op logging program id
/// (base58 `noopb9bkMVfRPU8AsbpTUg8AQkHtKwMYZiFUjNRtMmV`).
pub open spec fn noop_id_bytes() -> Seq<u8> {
    seq![
        11u8, 188, 15, 192, 187, 71, 202, 47, 116, 196, 17, 46, 148, 171, 19, 207, 163, 198, 52,
        229, 220, 23, 234, 203, 3, 205, 26, 35, 205, 126, 120, 124,
    ]
}

/// The Candy Machine core program id
/// (base58 `CndyV3LdqHUfDLmE5naZjVN8rBZz4tqhdefbAnjHG3JR`).
pub open spec fn candy_machine_core_id_bytes() -> Seq<u8> {
    seq![
        175u8, 33, 127, 194, 214, 71, 225, 38, 220, 199, 29, 50, 234, 196, 84, 239, 202, 73, 240,
        29, 87, 162, 79, 17, 150, 153, 82, 222, 172, 228, 173, 146,
    ]
}

/// The Bubblegum program id as a key value.
pub fn bubblegum_id() -> (r: Pubkey)
    ensures
        r@ == bubblegum_id_bytes(),
{
    let r = Pubkey {
        bytes: [
            152u8, 139, 128, 235, 121, 53, 40, 105, 178, 36, 116, 95, 89, 221, 191, 138, 38, 88,
            202, 19, 220, 104, 129, 33, 38, 53, 28, 174, 7, 193, 165, 165,
        ],
    };
    proof {
        assert(r@ =~= bubblegum_id_bytes());
    }
    r
}

/// The no-op logging program id as a key value.
pub fn noop_id() -> (r: Pubkey)
    ensures
        r@ == noop_id_bytes(),
{
    let r = Pubkey {
        bytes: [
            11u8, 188, 15, 192, 187, 71, 202, 47, 116, 196, 17, 46, 148, 171, 19, 207, 163, 198,
            52, 229, 220, 23, 234, 203, 3, 205, 26, 35, 205, 126, 120, 124,
        ],
    };
    proof {
        assert(r@ =~= noop_id_bytes());
    }
    r
}

/// The Candy Machine core program id as a key value.
pub fn candy_machine_core_id() -> (r: Pubkey)
    ensures
        r@ == candy_machine_core_id_bytes(),
{
    let r = Pubkey {
        bytes: [
            175u8, 33, 127, 194, 214, 71, 225, 38, 220, 199, 29, 50, 234, 196, 84, 239, 202, 73,
            240, 29, 87, 162, 79, 17, 150, 153, 82, 222, 172, 228, 173, 146,
        ],
    };
    proof {
        assert(r@ =~= candy_machine_core_id_bytes());
    }
    r
}

} // verus!
