use vstd::prelude::*;

verus! {

/// A hexadecimal digit, in either case.
pub open spec fn is_hex_char(c: char) -> bool {
    ('0' <= c && c <= '9') || ('a' <= c && c <= 'f') || ('A' <= c && c <= 'F')
}

/// The two characters that open every address.
pub open spec fn has_address_prefix(s: Seq<char>) -> bool {
    s.len() >= 2 && s[0] == '0' && s[1] == 'x'
}

/// Every character from position `from` on is a hexadecimal digit.
pub open spec fn all_hex_from(s: Seq<char>, from: int) -> bool {
    forall|i: int| from <= i < s.len() ==> is_hex_char(#[trigger] s[i])
}

/// An on-chain address: `0x` followed by 64 hexadecimal digits.
pub open spec fn is_valid_address(s: Seq<char>) -> bool {
    s.len() == 66 && has_address_prefix(s) && all_hex_from(s, 2)
}

/// Why a text is not an address.
#[derive(Debug, Clone, Copy, PartialEq, Eq, Structural)]
pub enum AddressError {
    /// The text does not hold exactly 66 characters.
    Length,
    /// The text does not start with `0x`.
    Prefix,
    /// A character after the prefix is not a hexadecimal digit.
    NotHex,
}

impl AddressError {
    /// A human-readable reason.
    pub fn message(&self) -> (r: &'static str) {
        match self {
            AddressError::Length => "Address must has length 66 chars",
            AddressError::Prefix => "Address must has prefix 0x",
            AddressError::NotHex => "Address must be a hex number",
        }
    }
}

/// The verdict of address validation: the first rule broken, in the order
/// length, prefix, digits.
pub open spec fn address_verdict(s: Seq<char>) -> Result<(), AddressError> {
    if s.len() != 66 {
        Err(AddressError::Length)
    } else if !has_address_prefix(s) {
        Err(AddressError::Prefix)
    } else if !all_hex_from(s, 2) {
        Err(AddressError::NotHex)
    } else {
        Ok(())
    }
}

pub fn is_hex_digit(c: char) -> (r: bool)
    ensures
        r == is_hex_char(c),
{
    ('0' <= c && c <= '9') || ('a' <= c && c <= 'f') || ('A' <= c && c <= 'F')
}

/// Checks that `address` is `0x` followed by 64 hexadecimal digits.
pub fn validate_sui_id(address: &str) -> (r: Result<(), AddressError>)
    ensures
        r == address_verdict(address@),
        r is Ok <==> is_valid_address(address@),
{
    let n = address.unicode_len();
    if n != 66 {
        return Err(AddressError::Length);
    }
    if !(address.get_char(0) == '0' && address.get_char(1) == 'x') {
        return Err(AddressError::Prefix);
    }
    let mut i: usize = 2;
    while i < n
        invariant
            n == address@.len(),
            n == 66,
            2 <= i <= n,
            has_address_prefix(address@),
            forall|j: int| 2 <= j < i ==> is_hex_char(#[trigger] address@[j]),
        decreases n - i,
    {
        if !is_hex_digit(address.get_char(i)) {
            assert(!is_hex_char(address@[i as int]));
            assert(!all_hex_from(address@, 2));
            return Err(AddressError::NotHex);
        }
        i = i + 1;
    }
    Ok(())
}

/// A validated on-chain account or package identifier. The text is kept as
/// given: its case is not changed.
#[derive(Debug)]
pub struct Address(String);

impl View for Address {
    type V = Seq<char>;

    closed spec fn view(&self) -> Seq<char> {
        self.0@
    }
}

impl Address {
    #[verifier::type_invariant]
    spec fn well_formed(self) -> bool {
        is_valid_address(self.0@)
    }

    /// Validates `a` and wraps it; an invalid text never becomes an address.
    pub fn new(a: &str) -> (r: Result<Address, AddressError>)
        ensures
            r is Ok <==> is_valid_address(a@),
            r matches Ok(addr) ==> addr@ == a@,
            r matches Err(e) ==> address_verdict(a@) == Err::<(), AddressError>(e),
    {
        match validate_sui_id(a) {
            Ok(()) => Ok(Address(a.to_string())),
            Err(e) => Err(e),
        }
    }

    /// Same as [`Address::new`].
    pub fn from_str(s: &str) -> (r: Result<Address, AddressError>)
        ensures
            r is Ok <==> is_valid_address(s@),
            r matches Ok(addr) ==> addr@ == s@,
            r matches Err(e) ==> address_verdict(s@) == Err::<(), AddressError>(e),
    {
        Address::new(s)
    }

    /// The address text, exactly as it was given.
    pub fn as_str(&self) -> (r: &str)
        ensures
            r@ == self@,
            is_valid_address(r@),
    {
        proof {
            use_type_invariant(self);
        }
        self.0.as_str()
    }

    /// A copy with the same text.
    pub fn duplicate(&self) -> (r: Address)
        ensures
            r@ == self@,
    {
        proof {
            use_type_invariant(self);
        }
        Address(self.0.clone())
    }
}

} // verus!
