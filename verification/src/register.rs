//! The general-purpose registers: their numbers and their names.

use vstd::prelude::*;
use crate::error::{CompileError, CompileErrorView, MipsyError, MipsyErrorView};
use crate::text::str_eq;

verus! {

/// The lower-case name of register `n`, for `0 <= n < 32`.
pub open spec fn register_name_of(n: int) -> Seq<char> {
    if n == 0 {
        "zero"@
    } else if n == 1 {
        "at"@
    } else if n == 2 {
        "v0"@
    } else if n == 3 {
        "v1"@
    } else if n == 4 {
        "a0"@
    } else if n == 5 {
        "a1"@
    } else if n == 6 {
        "a2"@
    } else if n == 7 {
        "a3"@
    } else if n == 8 {
        "t0"@
    } else if n == 9 {
        "t1"@
    } else if n == 10 {
        "t2"@
    } else if n == 11 {
        "t3"@
    } else if n == 12 {
        "t4"@
    } else if n == 13 {
        "t5"@
    } else if n == 14 {
        "t6"@
    } else if n == 15 {
        "t7"@
    } else if n == 16 {
        "s0"@
    } else if n == 17 {
        "s1"@
    } else if n == 18 {
        "s2"@
    } else if n == 19 {
        "s3"@
    } else if n == 20 {
        "s4"@
    } else if n == 21 {
        "s5"@
    } else if n == 22 {
        "s6"@
    } else if n == 23 {
        "s7"@
    } else if n == 24 {
        "t8"@
    } else if n == 25 {
        "t9"@
    } else if n == 26 {
        "k0"@
    } else if n == 27 {
        "k1"@
    } else if n == 28 {
        "gp"@
    } else if n == 29 {
        "sp"@
    } else if n == 30 {
        "fp"@
    } else {
        "ra"@
    }
}

/// The number of the first register called `name`, if there is one.
pub open spec fn register_named(name: Seq<char>) -> Option<u32> {
    if exists|n: int| 0 <= n < 32 && register_name_of(n) == name {
        let n = choose|n: int|
            0 <= n < 32 && register_name_of(n) == name && forall|m: int|
                0 <= m < n ==> register_name_of(m) != name;
        Some(n as u32)
    } else {
        None
    }
}

/// One of the 32 general-purpose registers.
#[derive(Clone, Copy, Debug, PartialEq, Eq)]
pub struct Register {
    number: u32,
}

impl View for Register {
    type V = u32;

    closed spec fn view(&self) -> u32 {
        self.number
    }
}

fn name_of(n: u32) -> (name: &'static str)
    requires
        n < 32,
    ensures
        name@ == register_name_of(n as int),
{
    if n == 0 {
        "zero"
    } else if n == 1 {
        "at"
    } else if n == 2 {
        "v0"
    } else if n == 3 {
        "v1"
    } else if n == 4 {
        "a0"
    } else if n == 5 {
        "a1"
    } else if n == 6 {
        "a2"
    } else if n == 7 {
        "a3"
    } else if n == 8 {
        "t0"
    } else if n == 9 {
        "t1"
    } else if n == 10 {
        "t2"
    } else if n == 11 {
        "t3"
    } else if n == 12 {
        "t4"
    } else if n == 13 {
        "t5"
    } else if n == 14 {
        "t6"
    } else if n == 15 {
        "t7"
    } else if n == 16 {
        "s0"
    } else if n == 17 {
        "s1"
    } else if n == 18 {
        "s2"
    } else if n == 19 {
        "s3"
    } else if n == 20 {
        "s4"
    } else if n == 21 {
        "s5"
    } else if n == 22 {
        "s6"
    } else if n == 23 {
        "s7"
    } else if n == 24 {
        "t8"
    } else if n == 25 {
        "t9"
    } else if n == 26 {
        "k0"
    } else if n == 27 {
        "k1"
    } else if n == 28 {
        "gp"
    } else if n == 29 {
        "sp"
    } else if n == 30 {
        "fp"
    } else {
        "ra"
    }
}

impl Register {
    #[verifier::type_invariant]
    spec fn in_range(self) -> bool {
        self.number < 32
    }

    /// The register with this number: numbers 0 to 31 name a register, any
    /// other is out of range.
    pub fn from_number(number: u32) -> (r: Result<Register, MipsyError>)
        ensures
            match r {
                Ok(register) => number < 32 && register@ == number,
                Err(e) => number >= 32 && e@ == MipsyErrorView::Compile(
                    CompileErrorView::NumberedRegisterOutOfRange { number },
                ),
            },
    {
        if number < 32 {
            Ok(Register { number })
        } else {
            Err(MipsyError::Compile(CompileError::NumberedRegisterOutOfRange { number }))
        }
    }

    /// The register with this lower-case name.
    pub fn from_str(name: &str) -> (r: Result<Register, MipsyError>)
        ensures
            match r {
                Ok(register) => register_named(name@) == Some(register@),
                Err(e) => register_named(name@) is None && e@ == MipsyErrorView::Compile(
                    CompileErrorView::NamedRegisterUnknown { name: name@ },
                ),
            },
    {
        let mut n: u32 = 0;
        while n < 32
            invariant
                n <= 32,
                forall|m: int| 0 <= m < n ==> register_name_of(m) != name@,
            decreases 32 - n,
        {
            if str_eq(name, name_of(n)) {
                proof {
                    let found = n as int;
                    assert(0 <= found < 32 && register_name_of(found) == name@);
                    let chosen = choose|k: int|
                        0 <= k < 32 && register_name_of(k) == name@ && forall|m: int|
                            0 <= m < k ==> register_name_of(m) != name@;
                    assert(chosen == found);
                }
                return Ok(Register { number: n });
            }
            n += 1;
        }
        Err(MipsyError::Compile(CompileError::NamedRegisterUnknown { name: name.to_owned() }))
    }

    /// The register's number.
    pub fn to_u32(&self) -> (number: u32)
        ensures
            number == self@,
            number < 32,
    {
        proof {
            use_type_invariant(self);
        }
        self.number
    }

    /// The register's lower-case name.
    pub fn to_lower_str(&self) -> (name: &'static str)
        ensures
            name@ == register_name_of(self@ as int),
    {
        proof {
            use_type_invariant(self);
        }
        name_of(self.number)
    }
}

} // verus!
