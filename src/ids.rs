use vstd::prelude::*;

verus! {

/// Length in bytes of the canonical encoding of an authority key.
pub const AUTHORITY_ID_LEN: usize = 32;

/// Length in bytes of the canonical encoding of an account identifier.
pub const ACCOUNT_ID_LEN: usize = 32;

/// An identifier that is nothing more than its canonical bytes: two values are
/// the same identifier exactly when their bytes are equal.
pub trait Identifier: Sized {
    spec fn bytes(&self) -> Seq<u8>;

    fn same(&self, other: &Self) -> (r: bool)
        ensures
            r == (self.bytes() == other.bytes()),
    ;

    fn duplicate(&self) -> (r: Self)
        ensures
            r.bytes() == self.bytes(),
    ;
}

/// The byte sequences held by a list of identifiers, in order.
pub open spec fn bytes_of<T: Identifier>(s: Seq<T>) -> Seq<Seq<u8>> {
    s.map_values(|t: T| t.bytes())
}

/// No two distinct positions hold the same byte sequence.
pub open spec fn no_duplicates(s: Seq<Seq<u8>>) -> bool {
    forall|i: int, j: int| 0 <= i < s.len() && 0 <= j < s.len() && i != j ==> s[i] != s[j]
}

fn bytes_equal(a: &Vec<u8>, b: &Vec<u8>) -> (r: bool)
    ensures
        r == (a@ == b@),
{
    if a.len() != b.len() {
        return false;
    }
    let mut i: usize = 0;
    while i < a.len()
        invariant
            a@.len() == b@.len(),
            0 <= i <= a@.len(),
            forall|k: int| 0 <= k < i ==> a@[k] == b@[k],
        decreases a@.len() - i,
    {
        if a[i] != b[i] {
            return false;
        }
        i = i + 1;
    }
    assert(a@ =~= b@);
    true
}

/// Copies `len` bytes of `src` starting at `start`.
fn copy_bytes(src: &Vec<u8>, start: usize, len: usize) -> (r: Vec<u8>)
    requires
        start + len <= src@.len(),
    ensures
        r@ == src@.subrange(start as int, start + len),
{
    let mut out: Vec<u8> = Vec::new();
    let mut i: usize = 0;
    while i < len
        invariant
            start + len <= src.len(),
            0 <= i <= len,
            out@ == src@.subrange(start as int, start + i),
        decreases len - i,
    {
        out.push(src[start + i]);
        i = i + 1;
        assert(out@ =~= src@.subrange(start as int, start + i));
    }
    out
}

/// The public key of a block-producing authority, in its canonical byte form.
pub struct AuthorityId {
    bytes: Vec<u8>,
}

/// An account identifier, in its canonical byte form.
pub struct AccountId {
    bytes: Vec<u8>,
}

impl View for AuthorityId {
    type V = Seq<u8>;

    closed spec fn view(&self) -> Seq<u8> {
        self.bytes@
    }
}

impl View for AccountId {
    type V = Seq<u8>;

    closed spec fn view(&self) -> Seq<u8> {
        self.bytes@
    }
}

impl Identifier for AuthorityId {
    open spec fn bytes(&self) -> Seq<u8> {
        self@
    }

    fn same(&self, other: &Self) -> (r: bool) {
        bytes_equal(&self.bytes, &other.bytes)
    }

    fn duplicate(&self) -> (r: Self) {
        proof {
            use_type_invariant(self);
        }
        AuthorityId { bytes: copy_bytes(&self.bytes, 0, self.bytes.len()) }
    }
}

impl Identifier for AccountId {
    open spec fn bytes(&self) -> Seq<u8> {
        self@
    }

    fn same(&self, other: &Self) -> (r: bool) {
        bytes_equal(&self.bytes, &other.bytes)
    }

    fn duplicate(&self) -> (r: Self) {
        AccountId { bytes: copy_bytes(&self.bytes, 0, self.bytes.len()) }
    }
}

/// What decoding an authority key from `input` yields: its first
/// `AUTHORITY_ID_LEN` bytes, when there are that many.
pub open spec fn decoded_authority(input: Seq<u8>) -> Option<Seq<u8>> {
    if input.len() >= AUTHORITY_ID_LEN {
        Some(input.subrange(0, AUTHORITY_ID_LEN as int))
    } else {
        None
    }
}

/// The account that an authority key stands for: the key's canonical bytes
/// read back as an account identifier, that is their first `ACCOUNT_ID_LEN` bytes.
pub open spec fn account_of(authority: Seq<u8>) -> Seq<u8> {
    authority.subrange(0, ACCOUNT_ID_LEN as int)
}

impl AuthorityId {
    /// An authority key always has its canonical length.
    #[verifier::type_invariant]
    spec fn inv(&self) -> bool {
        self.bytes@.len() == AUTHORITY_ID_LEN
    }

    /// An authority key is well formed when it has its canonical length.
    pub open spec fn wf(&self) -> bool {
        self@.len() == AUTHORITY_ID_LEN
    }

    /// The account this key stands for: its canonical bytes read back as an
    /// account identifier.
    pub fn to_account(&self) -> (r: AccountId)
        ensures
            r@ == account_of(self@),
            r.wf(),
    {
        proof {
            use_type_invariant(self);
        }
        let encoded = self.encode();
        match AccountId::decode(&encoded) {
            Some(account) => account,
            None => AccountId { bytes: Vec::new() },
        }
    }

    /// Decodes an authority key from the front of `input`; bytes past the key
    /// are left unread.
    pub fn decode(input: &Vec<u8>) -> (r: Option<AuthorityId>)
        ensures
            r is Some <==> decoded_authority(input@) is Some,
            r is Some ==> r->Some_0@ == decoded_authority(input@)->Some_0,
            r is Some ==> r->Some_0.wf(),
    {
        if input.len() < AUTHORITY_ID_LEN {
            None
        } else {
            Some(AuthorityId { bytes: copy_bytes(input, 0, AUTHORITY_ID_LEN) })
        }
    }

    /// The canonical bytes of this key.
    pub fn encode(&self) -> (r: Vec<u8>)
        ensures
            r@ == self@,
    {
        proof {
            use_type_invariant(self);
        }
        copy_bytes(&self.bytes, 0, self.bytes.len())
    }
}

impl AccountId {
    /// An account identifier is well formed when it has its canonical length.
    pub open spec fn wf(&self) -> bool {
        self@.len() == ACCOUNT_ID_LEN
    }

    /// Decodes an account identifier from the front of `input`.
    pub fn decode(input: &Vec<u8>) -> (r: Option<AccountId>)
        ensures
            r is Some <==> input@.len() >= ACCOUNT_ID_LEN,
            r is Some ==> r->Some_0@ == input@.subrange(0, ACCOUNT_ID_LEN as int),
            r is Some ==> r->Some_0.wf(),
    {
        if input.len() < ACCOUNT_ID_LEN {
            None
        } else {
            Some(AccountId { bytes: copy_bytes(input, 0, ACCOUNT_ID_LEN) })
        }
    }

    /// The canonical bytes of this account.
    pub fn encode(&self) -> (r: Vec<u8>)
        ensures
            r@ == self@,
    {
        copy_bytes(&self.bytes, 0, self.bytes.len())
    }
}

} // verus!
