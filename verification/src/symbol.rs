//! Short identifiers (invoice ids, asset codes) and invoice-id validation.
use vstd::prelude::*;

use crate::errors::EscrowError;
use crate::types::MAX_INVOICE_ID_STRING_LEN;

verus! {

/// A short identifier of at most 32 bytes from `[A-Za-z0-9_]`
/// (invoice identifiers and asset codes).
#[derive(Clone, Copy, Debug, PartialEq, Eq)]
pub struct ShortSymbol {
    pub(crate) len: u8,
    pub(crate) bytes: [u8; 32],
}

impl View for ShortSymbol {
    type V = Seq<u8>;

    closed spec fn view(&self) -> Seq<u8> {
        self.bytes@.take(self.len as int)
    }
}

/// The bytes allowed in a symbol: ASCII letters, digits and underscore.
pub open spec fn is_symbol_byte(c: u8) -> bool {
    ||| (65 <= c && c <= 90)
    ||| (97 <= c && c <= 122)
    ||| (48 <= c && c <= 57)
    ||| c == 95
}

/// Every byte of `s` is a symbol byte.
pub open spec fn all_symbol_bytes(s: Seq<u8>) -> bool {
    forall|i: int| 0 <= i < s.len() ==> is_symbol_byte(#[trigger] s[i])
}

impl ShortSymbol {
    /// At most 32 bytes are used, and the unused tail is zero, so that two
    /// symbols with the same bytes are equal as values.
    #[verifier::type_invariant]
    spec fn len_fits(self) -> bool {
        &&& self.len <= 32
        &&& forall|i: int| self.len <= i < 32 ==> #[trigger] self.bytes@[i] == 0
    }

    /// Number of bytes in the symbol.
    pub fn len(&self) -> (n: usize)
        ensures
            n == self@.len(),
    {
        proof {
            use_type_invariant(self);
        }
        self.len as usize
    }

    /// Whether the symbol has no bytes.
    pub fn is_empty(&self) -> (b: bool)
        ensures
            b == (self@.len() == 0),
    {
        self.len() == 0
    }

    /// The bytes of the symbol.
    pub fn to_bytes(&self) -> (v: Vec<u8>)
        ensures
            v@ == self@,
    {
        proof {
            use_type_invariant(self);
        }
        let n = self.len as usize;
        let mut v: Vec<u8> = Vec::new();
        let mut i: usize = 0;
        while i < n
            invariant
                n == self.len,
                n <= 32,
                i <= n,
                self.bytes@.len() == 32,
                v@ == self.bytes@.take(i as int),
            decreases n - i,
        {
            v.push(self.bytes[i]);
            i = i + 1;
            assert(v@ =~= self.bytes@.take(i as int));
        }
        v
    }

    /// Builds a symbol from bytes; `None` when there are more than 32 bytes
    /// or a byte outside `[A-Za-z0-9_]`. The empty symbol is accepted.
    pub fn from_bytes(b: &[u8]) -> (r: Option<ShortSymbol>)
        ensures
            r is Some <==> (b@.len() <= 32 && all_symbol_bytes(b@)),
            r matches Some(s) ==> s@ == b@,
    {
        if b.len() > 32 {
            return None;
        }
        if !all_bytes_are_symbol_bytes(b) {
            return None;
        }
        Some(Self::copy_from(b))
    }

    fn copy_from(b: &[u8]) -> (s: ShortSymbol)
        requires
            b@.len() <= 32,
        ensures
            s@ == b@,
    {
        let n = b.len();
        let mut bytes: [u8; 32] = [0u8; 32];
        let mut i: usize = 0;
        while i < n
            invariant
                n == b@.len(),
                n <= 32,
                i <= n,
                bytes@.len() == 32,
                bytes@.take(i as int) == b@.take(i as int),
                forall|k: int| i <= k < 32 ==> #[trigger] bytes@[k] == 0,
            decreases n - i,
        {
            bytes[i] = b[i];
            i = i + 1;
            assert(bytes@.take(i as int) =~= b@.take(i as int));
        }
        assert(b@.take(n as int) =~= b@);
        let s = ShortSymbol { len: n as u8, bytes };
        s
    }
}

/// Whether `c` is a symbol byte (ASCII letter, digit, or underscore).
pub fn is_symbol_char(c: u8) -> (r: bool)
    ensures
        r == is_symbol_byte(c),
{
    (65 <= c && c <= 90) || (97 <= c && c <= 122) || (48 <= c && c <= 57) || c == 95
}

/// Whether every byte of `b` is a symbol byte.
pub fn all_bytes_are_symbol_bytes(b: &[u8]) -> (r: bool)
    ensures
        r == all_symbol_bytes(b@),
{
    let mut i: usize = 0;
    while i < b.len()
        invariant
            i <= b@.len(),
            forall|j: int| 0 <= j < i ==> is_symbol_byte(#[trigger] b@[j]),
        decreases b@.len() - i,
    {
        if !is_symbol_char(b[i]) {
            return false;
        }
        i = i + 1;
    }
    true
}

/// The error `init` reports for a raw invoice identifier, if any.
pub open spec fn invoice_id_error(b: Seq<u8>) -> Option<EscrowError> {
    if b.len() == 0 || b.len() > 32 {
        Some(EscrowError::InvoiceIdInvalidLength)
    } else if !all_symbol_bytes(b) {
        Some(EscrowError::InvoiceIdInvalidCharset)
    } else {
        None
    }
}

/// Validates an invoice identifier: 1 to 32 bytes from `[A-Za-z0-9_]`.
pub fn validate_invoice_id(b: &[u8]) -> (r: Result<ShortSymbol, EscrowError>)
    ensures
        match invoice_id_error(b@) {
            Some(e) => r == Err::<ShortSymbol, EscrowError>(e),
            None => r matches Ok(s) && s@ == b@,
        },
{
    if b.len() == 0 || b.len() > MAX_INVOICE_ID_STRING_LEN {
        return Err(EscrowError::InvoiceIdInvalidLength);
    }
    if !all_bytes_are_symbol_bytes(b) {
        return Err(EscrowError::InvoiceIdInvalidCharset);
    }
    Ok(ShortSymbol::copy_from(b))
}

} // verus!
