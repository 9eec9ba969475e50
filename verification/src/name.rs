//! Terminated names and the per-slot external name.

use vstd::prelude::*;

verus! {

/// The byte that ends a name.
pub const TERMINATOR: u8 = 0;

/// The byte that separates the base name from the slot index.
pub const SEPARATOR: u8 = 0x5f;

/// The decimal digits of `n` in ASCII, most significant first, without leading zeros.
pub open spec fn decimal_digits(n: nat) -> Seq<u8>
    decreases n,
{
    if n < 10 {
        seq![(0x30 + n) as u8]
    } else {
        decimal_digits(n / 10).push((0x30 + n % 10) as u8)
    }
}

/// The external name of slot `index` under the stripped base name `base`:
/// the base, an underscore, the index in decimal, and one terminator.
pub open spec fn slot_name(base: Seq<u8>, index: nat) -> Seq<u8> {
    base.push(SEPARATOR) + decimal_digits(index).push(TERMINATOR)
}

/// Every decimal digit is an ASCII digit, so none is the terminator.
pub proof fn lemma_decimal_digits_are_digits(n: nat)
    ensures
        decimal_digits(n).len() >= 1,
        forall|i: int|
            0 <= i < decimal_digits(n).len() ==> 0x30 <= #[trigger] decimal_digits(n)[i] <= 0x39,
    decreases n,
{
    if n >= 10 {
        lemma_decimal_digits_are_digits(n / 10);
    }
}

/// A slot's name holds one terminator, and holds it at its end, whenever the
/// base name holds none.
pub proof fn law_slot_name_ends_once(base: Seq<u8>, index: nat)
    requires
        forall|i: int| 0 <= i < base.len() ==> base[i] != TERMINATOR,
    ensures
        slot_name(base, index).len() == base.len() + decimal_digits(index).len() + 2,
        slot_name(base, index).last() == TERMINATOR,
        forall|i: int|
            0 <= i < slot_name(base, index).len() - 1 ==> slot_name(base, index)[i] != TERMINATOR,
{
    lemma_decimal_digits_are_digits(index);
    let name = slot_name(base, index);
    assert forall|i: int| 0 <= i < name.len() - 1 implies name[i] != TERMINATOR by {
        if i > base.len() {
            assert(name[i] == decimal_digits(index)[i - base.len() - 1]);
        }
    }
}

/// A byte sequence ends in the terminator.
pub open spec fn terminated(bytes: Seq<u8>) -> bool {
    bytes.len() >= 1 && bytes.last() == TERMINATOR
}

/// A name with its trailing terminator taken off.
pub open spec fn stripped(bytes: Seq<u8>) -> Seq<u8> {
    bytes.drop_last()
}

/// A terminated byte string: the form in which names reach the external services.
#[derive(Debug)]
pub struct CStr {
    bytes: Vec<u8>,
}

impl View for CStr {
    type V = Seq<u8>;

    /// The bytes of the name, terminator included.
    closed spec fn view(&self) -> Seq<u8> {
        self.bytes@
    }
}

impl CStr {
    #[verifier::type_invariant]
    pub open spec fn well_formed(self) -> bool {
        terminated(self@)
    }

    /// Ends `base` with the terminator.
    pub fn new(base: Vec<u8>) -> (name: CStr)
        ensures
            name@ == base@.push(TERMINATOR),
            name.well_formed(),
    {
        let mut bytes = base;
        bytes.push(TERMINATOR);
        CStr { bytes }
    }

    /// Accepts bytes that already end in the terminator and refuses all others.
    pub fn from_bytes_with_nul(bytes: Vec<u8>) -> (name: Option<CStr>)
        ensures
            name is Some <==> terminated(bytes@),
            name matches Some(n) ==> n@ == bytes@ && n.well_formed(),
    {
        let len: usize = bytes.len();
        if len >= 1 && bytes[len - 1] == TERMINATOR {
            Some(CStr { bytes })
        } else {
            None
        }
    }

    /// The bytes of the name, terminator included.
    pub fn as_bytes_with_nul(&self) -> (bytes: &Vec<u8>)
        ensures
            bytes@ == self@,
            terminated(self@),
    {
        proof {
            use_type_invariant(self);
        }
        &self.bytes
    }

    /// A copy of the name without its terminator.
    pub fn to_stripped(&self) -> (base: Vec<u8>)
        ensures
            base@ == stripped(self@),
    {
        proof {
            use_type_invariant(self);
        }
        let mut base = self.bytes.clone();
        base.truncate(base.len() - 1);
        assert(base@ =~= stripped(self@));
        base
    }

    /// A copy of the name.
    pub fn duplicate(&self) -> (copy: CStr)
        ensures
            copy@ == self@,
            copy.well_formed(),
    {
        proof {
            use_type_invariant(self);
        }
        CStr { bytes: self.bytes.clone() }
    }
}

/// Writes `n` in decimal.
pub fn decimal(n: usize) -> (digits: Vec<u8>)
    ensures
        digits@ == decimal_digits(n as nat),
    decreases n,
{
    if n < 10 {
        let d: u8 = (0x30 + n) as u8;
        let mut digits: Vec<u8> = Vec::new();
        digits.push(d);
        assert(digits@ =~= decimal_digits(n as nat));
        digits
    } else {
        let mut digits = decimal(n / 10);
        let d: u8 = (0x30 + n % 10) as u8;
        digits.push(d);
        digits
    }
}

/// Builds the external name of slot `index`: the stripped base name, an
/// underscore, the index in decimal, and one terminator.
pub fn device_name(name: &CStr, index: usize) -> (full: Vec<u8>)
    ensures
        full@ == slot_name(stripped(name@), index as nat),
        terminated(full@),
{
    let mut full = name.to_stripped();
    full.push(SEPARATOR);
    let mut digits = decimal(index);
    digits.push(TERMINATOR);
    full.append(&mut digits);
    full
}

} // verus!
