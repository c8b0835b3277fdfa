use vstd::prelude::*;

verus! {

/// An account identifier, compared by its characters.
pub struct AccountId {
    name: String,
}

impl View for AccountId {
    type V = Seq<char>;

    closed spec fn view(&self) -> Seq<char> {
        self.name@
    }
}

impl AccountId {
    /// Wraps an account name.
    pub fn new(name: String) -> (r: AccountId)
        ensures
            r@ == name@,
    {
        AccountId { name }
    }

    /// The account name.
    pub fn as_str(&self) -> (r: &str)
        ensures
            r@ == self@,
    {
        self.name.as_str()
    }

    /// Character-wise equality of two identifiers.
    pub fn same_as(&self, other: &AccountId) -> (r: bool)
        ensures
            r == (self@ == other@),
    {
        let a = self.name.as_str();
        let b = other.name.as_str();
        let n = a.unicode_len();
        if n != b.unicode_len() {
            return false;
        }
        let mut i: usize = 0;
        while i < n
            invariant
                n == a@.len(),
                n == b@.len(),
                a@ == self@,
                b@ == other@,
                0 <= i <= n,
                forall|j: int| 0 <= j < i ==> a@[j] == b@[j],
            decreases n - i,
        {
            if a.get_char(i) != b.get_char(i) {
                return false;
            }
            i = i + 1;
        }
        assert(a@ =~= b@);
        true
    }

    /// A second identifier with the same characters.
    pub fn duplicate(&self) -> (r: AccountId)
        ensures
            r@ == self@,
    {
        AccountId { name: String::from_str(self.name.as_str()) }
    }
}

/// A signing key, held as its raw bytes and compared bytewise.
pub struct PublicKey {
    data: Vec<u8>,
}

impl View for PublicKey {
    type V = Seq<u8>;

    closed spec fn view(&self) -> Seq<u8> {
        self.data@
    }
}

impl PublicKey {
    /// Wraps the raw bytes of a key.
    pub fn from_bytes(data: Vec<u8>) -> (r: PublicKey)
        ensures
            r@ == data@,
    {
        PublicKey { data }
    }

    /// The raw bytes of the key.
    pub fn as_bytes(&self) -> (r: &[u8])
        ensures
            r@ == self@,
    {
        self.data.as_slice()
    }

    /// Bytewise equality of two keys.
    pub fn same_as(&self, other: &PublicKey) -> (r: bool)
        ensures
            r == (self@ == other@),
    {
        let n = self.data.len();
        if n != other.data.len() {
            return false;
        }
        let mut i: usize = 0;
        while i < n
            invariant
                n == self@.len(),
                n == other@.len(),
                0 <= i <= n,
                forall|j: int| 0 <= j < i ==> self@[j] == other@[j],
            decreases n - i,
        {
            if self.data[i] != other.data[i] {
                return false;
            }
            i = i + 1;
        }
        assert(self@ =~= other@);
        true
    }

    /// A second key with the same bytes.
    pub fn duplicate(&self) -> (r: PublicKey)
        ensures
            r@ == self@,
    {
        let mut data: Vec<u8> = Vec::new();
        let mut i: usize = 0;
        while i < self.data.len()
            invariant
                0 <= i <= self@.len(),
                data@ == self@.subrange(0, i as int),
            decreases self@.len() - i,
        {
            data.push(self.data[i]);
            i = i + 1;
            assert(data@ =~= self@.subrange(0, i as int));
        }
        assert(data@ =~= self@);
        PublicKey { data }
    }
}

} // verus!
