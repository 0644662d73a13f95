//! The arguments of a command, read from left to right.

use vstd::prelude::*;
use vstd::string::*;

use crate::error::ArgError;
use crate::text::{number_error, parse_number, written_number};

verus! {

/// One argument: its own text, and the text of the message from this argument on.
#[derive(Debug)]
pub struct Argument {
    pub text: String,
    pub rest: String,
}

/// Arguments with a position; what lies before the position has been read.
#[derive(Debug)]
pub struct Arguments {
    items: Vec<Argument>,
    offset: usize,
}

impl View for Arguments {
    type V = Seq<Argument>;

    /// The arguments that are left.
    closed spec fn view(&self) -> Seq<Argument> {
        self.items@.skip(self.offset as int)
    }
}

/// The text from the next argument on, empty if no argument is left.
pub open spec fn rest_text(left: Seq<Argument>) -> Seq<char> {
    if left.len() == 0 {
        Seq::empty()
    } else {
        left[0].rest@
    }
}

/// How reading the next argument as a number ends.
pub open spec fn is_number_reading(left: Seq<Argument>, r: Result<usize, ArgError>) -> bool {
    if left.len() == 0 {
        r matches Err(ArgError::Eos)
    } else {
        match written_number(left[0].text@) {
            Some(v) if v <= usize::MAX => r matches Ok(n) && n == v,
            _ => r matches Err(ArgError::Parse(e)) && e@ == number_error(left[0].text@),
        }
    }
}

impl Arguments {
    #[verifier::type_invariant]
    spec fn in_range(self) -> bool {
        self.offset <= self.items@.len()
    }

    /// All arguments of a message, none of them read.
    pub fn new(items: Vec<Argument>) -> (r: Self)
        ensures
            r@ == items@,
    {
        let r = Arguments { items, offset: 0 };
        assert(r@ =~= items@);
        r
    }

    pub fn is_empty(&self) -> (r: bool)
        ensures
            r == (self@.len() == 0),
    {
        proof {
            use_type_invariant(self);
        }
        self.offset >= self.items.len()
    }

    /// The text of the next argument.
    pub fn current(&self) -> (r: Option<&str>)
        ensures
            match r {
                Some(text) => self@.len() > 0 && text@ == self@[0].text@,
                None => self@.len() == 0,
            },
    {
        proof {
            use_type_invariant(self);
        }
        if self.offset >= self.items.len() {
            None
        } else {
            Some(self.items[self.offset].text.as_str())
        }
    }

    /// Moves past the next argument, if there is one.
    pub fn advance(&mut self)
        ensures
            final(self)@ == if old(self)@.len() == 0 {
                old(self)@
            } else {
                old(self)@.drop_first()
            },
    {
        proof {
            use_type_invariant(&*self);
        }
        if self.offset < self.items.len() {
            self.offset = self.offset + 1;
            assert(self@ =~= old(self)@.drop_first());
        }
    }

    /// The text of the message from the next argument on.
    pub fn rest(&self) -> (r: &str)
        ensures
            r@ == rest_text(self@),
    {
        proof {
            use_type_invariant(self);
            reveal_strlit("");
        }
        if self.offset >= self.items.len() {
            let none = "";
            assert(none@ =~= Seq::empty());
            none
        } else {
            self.items[self.offset].rest.as_str()
        }
    }

    /// Reads the next argument as a number, and stays there.
    pub fn parse_number(&self) -> (r: Result<usize, ArgError>)
        ensures
            is_number_reading(self@, r),
    {
        match self.current() {
            None => Err(ArgError::Eos),
            Some(text) => match parse_number(text) {
                Ok(n) => Ok(n),
                Err(e) => Err(ArgError::Parse(e)),
            },
        }
    }

    /// Reads the next argument as a number, and moves past it if it is one.
    pub fn single_number(&mut self) -> (r: Result<usize, ArgError>)
        ensures
            is_number_reading(old(self)@, r),
            final(self)@ == if r is Ok {
                old(self)@.drop_first()
            } else {
                old(self)@
            },
    {
        match self.parse_number() {
            Ok(n) => {
                self.advance();
                Ok(n)
            },
            Err(e) => Err(e),
        }
    }
}

} // verus!
