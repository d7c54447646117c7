//! Two-character capability codes and the three kinds of capability lookup.
//!
//! The capability database answers a query by code with a raw value: a
//! nul-terminated byte buffer or nothing for a string capability, an integer for
//! a number or a flag. A lookup turns that raw answer into a typed value.
use vstd::prelude::*;
use vstd::string::StringSliceAdditionalSpecFns;

verus! {

/// The value a number query gives for a capability the terminal lacks.
pub const NOT_FOUND: i32 = -1;

/// `s` holds no nul byte.
pub open spec fn nul_free(s: Seq<u8>) -> bool {
    forall|i: int| 0 <= i < s.len() ==> s[i] != 0
}

/// The bytes of `s` before its first nul, or all of `s` where it holds none.
pub open spec fn until_nul(s: Seq<u8>) -> Seq<u8>
    decreases s.len(),
{
    if s.len() == 0 {
        s
    } else if s[0] == 0 {
        Seq::empty()
    } else {
        seq![s[0]] + until_nul(s.drop_first())
    }
}

/// What a string query that returned `raw` means: nothing where the terminal
/// lacks the capability, else the bytes up to the terminating nul.
pub open spec fn string_of(raw: Option<Seq<u8>>) -> Option<Seq<u8>> {
    match raw {
        Some(s) => Some(until_nul(s)),
        None => None,
    }
}

/// What a number query that returned `raw` means: `None` for the "not found" value.
pub open spec fn number_of(raw: i32) -> Option<i32> {
    if raw == NOT_FOUND {
        None
    } else {
        Some(raw)
    }
}

/// What a flag query that returned `raw` means: any value but zero is set.
pub open spec fn flag_of(raw: i32) -> bool {
    raw != 0
}

/// Where the first `i` bytes of `s` are not nul and the next one is (or `s` ends
/// there), the bytes before the first nul are those `i`.
pub proof fn lemma_until_nul_at(s: Seq<u8>, i: int)
    requires
        0 <= i <= s.len(),
        forall|j: int| 0 <= j < i ==> s[j] != 0,
        i == s.len() || s[i] == 0,
    ensures
        until_nul(s) == s.take(i),
    decreases s.len(),
{
    if s.len() == 0 {
        assert(s.take(i) =~= s);
    } else if i == 0 {
        assert(s.take(i) =~= Seq::<u8>::empty());
    } else {
        let t = s.drop_first();
        assert forall|j: int| 0 <= j < i - 1 implies t[j] != 0 by {
            assert(t[j] == s[j + 1]);
        }
        lemma_until_nul_at(t, i - 1);
        assert(s.take(i) =~= seq![s[0]] + t.take(i - 1));
    }
}

/// A byte string with no nul in it: the value of a string capability.
#[derive(Debug, PartialEq, Eq)]
pub struct CapString {
    bytes: Vec<u8>,
}

impl View for CapString {
    type V = Seq<u8>;

    closed spec fn view(&self) -> Seq<u8> {
        self.bytes@
    }
}

impl CapString {
    #[verifier::type_invariant]
    spec fn inv(&self) -> bool {
        nul_free(self.bytes@)
    }

    /// The byte string `bytes`, or `None` where a nul stands in it.
    pub fn new(bytes: Vec<u8>) -> (r: Option<CapString>)
        ensures
            r is Some <==> nul_free(bytes@),
            r matches Some(c) ==> c@ == bytes@,
    {
        let mut i: usize = 0;
        while i < bytes.len()
            invariant
                0 <= i <= bytes.len(),
                forall|j: int| 0 <= j < i ==> bytes@[j] != 0,
            decreases bytes.len() - i,
        {
            if bytes[i] == 0 {
                return None;
            }
            i = i + 1;
        }
        Some(CapString { bytes })
    }

    /// The bytes before the first nul of `buf`: a copy, which does not borrow
    /// from the buffer that the database handed out.
    pub fn until_nul(buf: &[u8]) -> (r: CapString)
        ensures
            r@ == until_nul(buf@),
    {
        let mut bytes: Vec<u8> = Vec::new();
        let mut i: usize = 0;
        while i < buf.len() && buf[i] != 0
            invariant
                0 <= i <= buf@.len(),
                bytes@ == buf@.take(i as int),
                forall|j: int| 0 <= j < i ==> buf@[j] != 0,
            decreases buf@.len() - i,
        {
            bytes.push(buf[i]);
            i = i + 1;
        }
        proof {
            lemma_until_nul_at(buf@, i as int);
        }
        CapString { bytes }
    }

    /// The bytes of the string.
    pub fn as_bytes(&self) -> (r: &[u8])
        ensures
            r@ == self@,
            nul_free(r@),
    {
        proof {
            use_type_invariant(self);
        }
        self.bytes.as_slice()
    }
}

/// A capability's name in the database: two bytes, then a nul.
#[derive(Clone, Copy, Debug, PartialEq, Eq, PartialOrd, Ord)]
pub struct Code {
    code: [u8; 3],
}

impl View for Code {
    type V = Seq<u8>;

    closed spec fn view(&self) -> Seq<u8> {
        self.code@
    }
}

impl Code {
    #[verifier::type_invariant]
    spec fn inv(&self) -> bool {
        self.code@[2] == 0
    }

    /// The code named by the two bytes of `code` (see termcap(5)).
    pub fn new(code: &str) -> (r: Code)
        requires
            code.spec_bytes().len() == 2,
        ensures
            r@ == code.spec_bytes().push(0),
    {
        let b = code.as_bytes();
        let r = Code { code: [b[0], b[1], 0u8] };
        assert(r@ =~= code.spec_bytes().push(0));
        r
    }

    /// The nul-terminated name, as the database's queries take it.
    pub fn as_bytes(&self) -> (r: &[u8])
        ensures
            r@ == self@,
            r@.len() == 3,
            r@[2] == 0,
    {
        proof {
            use_type_invariant(self);
        }
        self.code.as_slice()
    }
}

/// A string capability: its value is an escape sequence, or it is absent.
#[derive(Clone, Copy, Debug, PartialEq, Eq, PartialOrd, Ord)]
pub struct StringCap {
    code: Code,
}

impl StringCap {
    /// The string capability named `code`.
    pub fn new(code: &str) -> (r: StringCap)
        requires
            code.spec_bytes().len() == 2,
        ensures
            r.code()@ == code.spec_bytes().push(0),
    {
        StringCap { code: Code::new(code) }
    }

    pub closed spec fn code(&self) -> Code {
        self.code
    }

    /// The code to query the database with.
    pub fn get_code(&self) -> (r: Code)
        ensures
            r == self.code(),
    {
        self.code
    }

    /// The value of this capability, where the database's string query answered
    /// `raw`: `None` stands for its null answer, `Some(buf)` for the
    /// nul-terminated buffer it pointed to.
    pub fn lookup(&self, raw: Option<&[u8]>) -> (r: Option<CapString>)
        ensures
            string_of(view_bytes(raw)) == view_cap(r),
    {
        match raw {
            None => None,
            Some(buf) => Some(CapString::until_nul(buf)),
        }
    }
}

/// The bytes that an optional buffer holds.
pub open spec fn view_bytes(raw: Option<&[u8]>) -> Option<Seq<u8>> {
    match raw {
        Some(b) => Some(b@),
        None => None,
    }
}

/// The bytes that an optional capability string holds.
pub open spec fn view_cap(c: Option<CapString>) -> Option<Seq<u8>> {
    match c {
        Some(s) => Some(s@),
        None => None,
    }
}

/// A number capability, such as the count of colours.
#[derive(Clone, Copy, Debug, PartialEq, Eq, PartialOrd, Ord)]
pub struct NumberCap(Code);

impl NumberCap {
    /// The number capability named `code`.
    pub fn new(code: &str) -> (r: NumberCap)
        requires
            code.spec_bytes().len() == 2,
        ensures
            r.code()@ == code.spec_bytes().push(0),
    {
        NumberCap(Code::new(code))
    }

    pub closed spec fn code(&self) -> Code {
        self.0
    }

    /// The code to query the database with.
    pub fn get_code(&self) -> (r: Code)
        ensures
            r == self.code(),
    {
        self.0
    }

    /// The value of this capability, where the database's number query answered `raw`.
    pub fn lookup(&self, raw: i32) -> (r: Option<i32>)
        ensures
            r == number_of(raw),
    {
        if raw == NOT_FOUND {
            None
        } else {
            Some(raw)
        }
    }
}

/// A flag capability. The database does not tell an absent flag from one that
/// is present and unset: both read as `false`.
#[derive(Clone, Copy, Debug, PartialEq, Eq, PartialOrd, Ord)]
pub struct FlagCap(Code);

impl FlagCap {
    /// The flag capability named `code`.
    pub fn new(code: &str) -> (r: FlagCap)
        requires
            code.spec_bytes().len() == 2,
        ensures
            r.code()@ == code.spec_bytes().push(0),
    {
        FlagCap(Code::new(code))
    }

    pub closed spec fn code(&self) -> Code {
        self.0
    }

    /// The code to query the database with.
    pub fn get_code(&self) -> (r: Code)
        ensures
            r == self.code(),
    {
        self.0
    }

    /// The value of this capability, where the database's flag query answered `raw`.
    pub fn lookup(&self, raw: i32) -> (r: bool)
        ensures
            r == flag_of(raw),
    {
        raw != 0
    }
}

} // verus!
