//! Arguments of the `genpass` command.

use crate::process::gen_pass::{class_count, is_password, process_gen_pass};
use vstd::prelude::*;

verus! {

/// Arguments of `genpass`.
#[derive(Clone, Copy, Debug, PartialEq, Eq, Structural)]
pub struct GenpassOpt {
    /// Characters in the password.
    pub length: u8,
    pub uppercase: bool,
    pub lowercase: bool,
    pub numbers: bool,
    pub symbols: bool,
}

impl Default for GenpassOpt {
    /// Sixteen characters over all four classes.
    fn default() -> (opts: Self)
        ensures
            opts == (GenpassOpt {
                length: 16,
                uppercase: true,
                lowercase: true,
                numbers: true,
                symbols: true,
            }),
    {
        GenpassOpt { length: 16, uppercase: true, lowercase: true, numbers: true, symbols: true }
    }
}

impl GenpassOpt {
    /// How many classes are asked for.
    pub open spec fn classes(&self) -> nat {
        class_count(self.uppercase, self.lowercase, self.numbers, self.symbols)
    }

    /// Whether a password can be made: there is room for one character of
    /// each class, and a class to draw from unless no character is asked
    /// for.
    pub open spec fn can_be_met(&self) -> bool {
        self.classes() <= self.length && (self.length > 0 ==> self.classes() > 0)
    }

    /// Whether a password can be made.
    pub fn is_satisfiable(&self) -> (ok: bool)
        ensures
            ok == self.can_be_met(),
    {
        let mut classes: u8 = 0;
        if self.uppercase {
            classes += 1;
        }
        if self.lowercase {
            classes += 1;
        }
        if self.numbers {
            classes += 1;
        }
        if self.symbols {
            classes += 1;
        }
        classes <= self.length && (self.length == 0 || classes > 0)
    }

    /// A password as asked for, or nothing where none can be made.
    pub fn generate(&self) -> (password: Option<String>)
        ensures
            match password {
                Some(text) => self.can_be_met() && is_password(
                    text@,
                    self.length as nat,
                    self.uppercase,
                    self.lowercase,
                    self.numbers,
                    self.symbols,
                ),
                None => !self.can_be_met(),
            },
    {
        if self.is_satisfiable() {
            Some(
                process_gen_pass(
                    self.length,
                    self.uppercase,
                    self.lowercase,
                    self.numbers,
                    self.symbols,
                ),
            )
        } else {
            None
        }
    }
}

} // verus!
