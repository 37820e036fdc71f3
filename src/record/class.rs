use vstd::prelude::*;
use crate::error::Error;

verus! {

/// DNS Class.
#[derive(Debug, Clone, Copy, PartialEq, Eq, Structural)]
pub enum Class {
    /// Internet Class.  By far the most common.
    IN,
    /// CSNET class (obsoleted)
    CSNET,
    /// CHAOS class (https://en.wikipedia.org/wiki/Chaosnet)
    CHAOS,
    /// Hesiod (https://en.wikipedia.org/wiki/Hesiod_(name_service))
    HS,
    /// None.  Used for "name is not in use" requests.
    NONE,
    /// Any.  Used for "name is in use" requests.
    ANY,
}

impl Class {
    /// The class's code on the wire.
    pub open spec fn spec_code(self) -> u16 {
        match self {
            Class::IN => 1,
            Class::CSNET => 2,
            Class::CHAOS => 3,
            Class::HS => 4,
            Class::NONE => 254,
            Class::ANY => 255,
        }
    }

    /// The class with a given code, if there is one.
    pub open spec fn spec_from_code(code: u16) -> Option<Class> {
        if code == 1 {
            Some(Class::IN)
        } else if code == 2 {
            Some(Class::CSNET)
        } else if code == 3 {
            Some(Class::CHAOS)
        } else if code == 4 {
            Some(Class::HS)
        } else if code == 254 {
            Some(Class::NONE)
        } else if code == 255 {
            Some(Class::ANY)
        } else {
            None
        }
    }

    /// The class's code on the wire.
    pub fn code(&self) -> (r: u16)
        ensures
            r == self.spec_code(),
            Self::spec_from_code(r) == Some(*self),
    {
        match self {
            Class::IN => 1,
            Class::CSNET => 2,
            Class::CHAOS => 3,
            Class::HS => 4,
            Class::NONE => 254,
            Class::ANY => 255,
        }
    }

    /// The class of a record's class field; a code outside the known classes
    /// is an error.
    pub fn from_rr_class(rr_class: u16) -> (r: Result<Class, Error>)
        ensures
            match Self::spec_from_code(rr_class) {
                Some(c) => r == Ok::<Class, Error>(c) && c.spec_code() == rr_class,
                None => r == Err::<Class, Error>(Error::UnknownClass(rr_class)),
            },
    {
        match rr_class {
            1 => Ok(Class::IN),
            2 => Ok(Class::CSNET),
            3 => Ok(Class::CHAOS),
            4 => Ok(Class::HS),
            254 => Ok(Class::NONE),
            255 => Ok(Class::ANY),
            other => Err(Error::UnknownClass(other)),
        }
    }
}

} // verus!
