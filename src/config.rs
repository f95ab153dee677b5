//! Which classes a request draws from, and the request itself.
use vstd::prelude::*;
use crate::alphabet::{in_class, CharClass};
use crate::partition::{active_count, GenError};

verus! {

/// The set of character classes that a password draws from.
#[derive(Clone, Copy, Debug, PartialEq, Eq, Structural)]
pub struct ActiveClasses {
    pub lowercase: bool,
    pub uppercase: bool,
    pub digit: bool,
    pub symbol: bool,
    pub symbol_variant: bool,
}

impl ActiveClasses {
    /// The restricted symbol set, when active, is the only active class.
    pub open spec fn wf(self) -> bool {
        self.symbol_variant ==> !self.lowercase && !self.uppercase && !self.digit && !self.symbol
    }

    /// Whether class `c` is active.
    pub open spec fn has(self, c: CharClass) -> bool {
        match c {
            CharClass::Lowercase => self.lowercase,
            CharClass::Uppercase => self.uppercase,
            CharClass::Digit => self.digit,
            CharClass::Symbol => self.symbol,
            CharClass::SymbolVariant => self.symbol_variant,
        }
    }

    /// Whether the symbol slot, the last in canonical order, is active.
    pub open spec fn symbols_active(self) -> bool {
        self.symbol || self.symbol_variant
    }

    /// The number of active classes.
    pub open spec fn size(self) -> int {
        active_count(!self.lowercase, !self.uppercase, !self.digit, !self.symbols_active())
    }

    /// Whether byte `b` belongs to the alphabet of some active class.
    pub open spec fn admits(self, b: u8) -> bool {
        ||| self.lowercase && in_class(CharClass::Lowercase, b)
        ||| self.uppercase && in_class(CharClass::Uppercase, b)
        ||| self.digit && in_class(CharClass::Digit, b)
        ||| self.symbol && in_class(CharClass::Symbol, b)
        ||| self.symbol_variant && in_class(CharClass::SymbolVariant, b)
    }

    /// The active set for the given exclusion flags. With `restricted_symbols`
    /// set, the restricted symbol set is the only active class and the four
    /// flags are ignored; otherwise, excluding every class is an error.
    pub fn from_flags(
        no_lowercase: bool,
        no_uppercase: bool,
        no_digits: bool,
        no_symbols: bool,
        restricted_symbols: bool,
    ) -> (r: Result<ActiveClasses, GenError>)
        ensures
            r is Err <==> !restricted_symbols && no_lowercase && no_uppercase && no_digits
                && no_symbols,
            r matches Err(e) ==> e == GenError::NoActiveClass,
            r matches Ok(a) ==> a.wf() && a.size() >= 1,
            r matches Ok(a) ==> restricted_symbols ==> a == (ActiveClasses {
                lowercase: false,
                uppercase: false,
                digit: false,
                symbol: false,
                symbol_variant: true,
            }),
            r matches Ok(a) ==> !restricted_symbols ==> a == (ActiveClasses {
                lowercase: !no_lowercase,
                uppercase: !no_uppercase,
                digit: !no_digits,
                symbol: !no_symbols,
                symbol_variant: false,
            }),
    {
        if restricted_symbols {
            Ok(
                ActiveClasses {
                    lowercase: false,
                    uppercase: false,
                    digit: false,
                    symbol: false,
                    symbol_variant: true,
                },
            )
        } else if no_lowercase && no_uppercase && no_digits && no_symbols {
            Err(GenError::NoActiveClass)
        } else {
            Ok(
                ActiveClasses {
                    lowercase: !no_lowercase,
                    uppercase: !no_uppercase,
                    digit: !no_digits,
                    symbol: !no_symbols,
                    symbol_variant: false,
                },
            )
        }
    }
}

/// A request: `count` passwords of `total_length` symbols each, drawn from
/// the classes in `active`.
#[derive(Clone, Copy, Debug, PartialEq, Eq, Structural)]
pub struct PasswordSpec {
    pub total_length: usize,
    pub active: ActiveClasses,
    pub count: usize,
}

} // verus!
