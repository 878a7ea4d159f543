//! Lexically validated names for tables and columns.
use vstd::prelude::*;

verus! {

use vstd::string::StrSliceExecFns;

/// A starting character of a name: a letter or an underscore.
pub open spec fn is_start_char(c: char) -> bool {
    ||| ('a' as u32) <= (c as u32) && (c as u32) <= ('z' as u32)
    ||| ('A' as u32) <= (c as u32) && (c as u32) <= ('Z' as u32)
    ||| c == '_'
}

/// A continuation character of a name: a letter, a digit or an underscore.
pub open spec fn is_continue_char(c: char) -> bool {
    ||| is_start_char(c)
    ||| ('0' as u32) <= (c as u32) && (c as u32) <= ('9' as u32)
}

/// A valid name: nonempty, starting with a letter or underscore, continuing
/// with letters, digits or underscores.
pub open spec fn is_valid_identifier(s: Seq<char>) -> bool {
    &&& 1 <= s.len()
    &&& is_start_char(s[0])
    &&& forall|i: int| 0 < i < s.len() ==> is_continue_char(#[trigger] s[i])
}

/// The identity of a table or a column: a lexically validated name. The one
/// constructor accepts exactly the valid identifiers.
#[derive(Debug)]
pub struct Identifier {
    name: String,
}

impl Identifier {
    /// The characters of the name.
    pub closed spec fn chars(self) -> Seq<char> {
        self.name@
    }

    /// An owned copy of the same name.
    pub fn duplicate(&self) -> (r: Identifier)
        ensures
            r == *self,
    {
        Identifier { name: self.name.clone() }
    }

    /// Parse a name, accepting exactly the valid identifiers.
    pub fn new(name: &str) -> (r: Option<Identifier>)
        ensures
            r is Some <==> is_valid_identifier(name@),
            r is Some ==> r->0.chars() == name@,
    {
        let len = name.unicode_len();
        if len == 0 {
            return None;
        }
        if !exec_is_start_char(name.get_char(0)) {
            return None;
        }
        let mut i: usize = 1;
        while i < len
            invariant
                1 <= i <= len,
                len == name@.len(),
                is_start_char(name@[0]),
                forall|j: int| 0 < j < i ==> is_continue_char(#[trigger] name@[j]),
            decreases len - i,
        {
            if !exec_is_continue_char(name.get_char(i)) {
                return None;
            }
            i = i + 1;
        }
        Some(Identifier { name: name.to_owned() })
    }

    /// The name itself.
    pub fn as_str(&self) -> (r: &str)
        ensures
            r@ == self.chars(),
    {
        self.name.as_str()
    }

    /// Two identifiers are the same name exactly when their characters agree.
    pub fn eq_name(&self, other: &Identifier) -> (r: bool)
        ensures
            r == (self.chars() == other.chars()),
    {
        self.name == other.name
    }
}

fn exec_is_start_char(c: char) -> (r: bool)
    ensures
        r == is_start_char(c),
{
    let v = c as u32;
    (97 <= v && v <= 122) || (65 <= v && v <= 90) || c == '_'
}

fn exec_is_continue_char(c: char) -> (r: bool)
    ensures
        r == is_continue_char(c),
{
    exec_is_start_char(c) || {
        let v = c as u32;
        48 <= v && v <= 57
    }
}

} // verus!
