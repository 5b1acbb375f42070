use vstd::prelude::*;

verus! {

/// The public identity key of an account holder.
#[derive(Clone, Copy, Debug)]
pub struct Pubkey {
    pub bytes: [u8; 32],
}

impl View for Pubkey {
    type V = Seq<u8>;

    open spec fn view(&self) -> Seq<u8> {
        self.bytes@
    }
}

impl Pubkey {
    pub fn new(bytes: [u8; 32]) -> (r: Pubkey)
        ensures
            r@ == bytes@,
    {
        Pubkey { bytes }
    }

    /// Whether two keys hold the same bytes.
    pub fn same_key(&self, other: &Pubkey) -> (r: bool)
        ensures
            r == (self@ == other@),
    {
        let mut i: usize = 0;
        while i < 32
            invariant
                0 <= i <= 32,
                self.bytes@.len() == 32,
                other.bytes@.len() == 32,
                forall|k: int| 0 <= k < i ==> self.bytes@[k] == other.bytes@[k],
            decreases 32 - i,
        {
            if self.bytes[i] != other.bytes[i] {
                return false;
            }
            i += 1;
        }
        assert(self.bytes@ =~= other.bytes@);
        true
    }
}

/// An account that signs a call, with the native-currency units it holds.
#[derive(Clone, Copy, Debug)]
pub struct Wallet {
    pub key: Pubkey,
    pub lamports: u64,
}

impl Wallet {
    pub fn new(key: Pubkey, lamports: u64) -> (r: Wallet)
        ensures
            r.key@ == key@,
            r.lamports == lamports,
    {
        Wallet { key, lamports }
    }
}

} // verus!
