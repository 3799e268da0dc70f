use vstd::prelude::*;
use vstd::std_specs::cmp::PartialEqSpecImpl;

verus! {

/// The address of an account: 32 bytes. Its view is the sequence of those bytes.
#[derive(Clone, Copy, Debug)]
pub struct Pubkey {
    pub bytes: [u8; 32],
}

impl View for Pubkey {
    type V = Seq<u8>;

    open spec fn view(&self) -> Seq<u8> {
        self.bytes@
    }
}

impl PartialEq for Pubkey {
    fn eq(&self, other: &Self) -> (same: bool) {
        let mut i: usize = 0;
        while i < 32
            invariant
                i <= 32,
                forall|j: int| 0 <= j < i ==> self.bytes[j] == other.bytes[j],
            decreases 32 - i,
        {
            if self.bytes[i] != other.bytes[i] {
                return false;
            }
            i += 1;
        }
        proof {
            assert(self.bytes =~= other.bytes);
        }
        true
    }
}

impl Eq for Pubkey {

}

impl PartialEqSpecImpl for Pubkey {
    open spec fn obeys_eq_spec() -> bool {
        true
    }

    open spec fn eq_spec(&self, other: &Self) -> bool {
        *self == *other
    }
}

impl Pubkey {
    /// The address whose bytes are the first 32 items of `s`.
    pub open spec fn from_seq(s: Seq<u8>) -> Pubkey {
        Pubkey {
            bytes: [
                s[0], s[1], s[2], s[3], s[4], s[5], s[6], s[7],
                s[8], s[9], s[10], s[11], s[12], s[13], s[14], s[15],
                s[16], s[17], s[18], s[19], s[20], s[21], s[22], s[23],
                s[24], s[25], s[26], s[27], s[28], s[29], s[30], s[31],
            ],
        }
    }

    /// An address is its 32 bytes and nothing else: two addresses with the same bytes
    /// are the same address, and `from_seq` gives back the address that the bytes came from.
    pub proof fn lemma_view_determines(a: Pubkey, b: Pubkey)
        ensures
            a@.len() == 32,
            (a@ == b@) == (a == b),
            Pubkey::from_seq(a@) == a,
    {
        if a@ == b@ {
            assert(a.bytes =~= b.bytes);
        }
        assert(Pubkey::from_seq(a@).bytes =~= a.bytes);
    }

    /// `from_seq` keeps the 32 bytes that it is given.
    pub proof fn lemma_from_seq(s: Seq<u8>)
        requires
            s.len() == 32,
        ensures
            Pubkey::from_seq(s)@ == s,
    {
    }

    /// Reads an address from exactly 32 bytes.
    pub fn try_from_slice(data: &[u8]) -> (r: Option<Pubkey>)
        ensures
            r == if data@.len() == 32 {
                Some(Pubkey::from_seq(data@))
            } else {
                None
            },
    {
        if data.len() != 32 {
            return None;
        }
        let mut bytes: [u8; 32] = [0u8; 32];
        let mut i: usize = 0;
        while i < 32
            invariant
                i <= 32,
                data@.len() == 32,
                forall|j: int| 0 <= j < i ==> bytes[j] == data@[j],
            decreases 32 - i,
        {
            bytes[i] = data[i];
            i += 1;
        }
        let key = Pubkey { bytes };
        proof {
            assert(key.bytes =~= Pubkey::from_seq(data@).bytes);
        }
        Some(key)
    }

    /// The 32 bytes of the address.
    pub fn to_vec(&self) -> (v: Vec<u8>)
        ensures
            v@ == self@,
    {
        let mut v: Vec<u8> = Vec::with_capacity(32);
        let mut i: usize = 0;
        while i < 32
            invariant
                i <= 32,
                v@.len() == i,
                forall|j: int| 0 <= j < i ==> v@[j] == self.bytes[j],
            decreases 32 - i,
        {
            v.push(self.bytes[i]);
            i += 1;
        }
        v
    }
}

} // verus!
