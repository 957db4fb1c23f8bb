use vstd::prelude::*;

verus! {

/// A value that carries a fixed HTTP status, a machine code and a message.
pub trait HttpCode {
    spec fn spec_status(&self) -> u16;

    spec fn spec_code(&self) -> Seq<char>;

    spec fn spec_message(&self) -> Seq<char>;

    fn status(&self) -> (r: u16)
        ensures
            r == self.spec_status(),
    ;

    fn code(&self) -> (r: &'static str)
        ensures
            r@ == self.spec_code(),
    ;

    fn message(&self) -> (r: &'static str)
        ensures
            r@ == self.spec_message(),
    ;
}

/// Success markers.
#[derive(Clone, Copy, Debug, PartialEq, Eq, Structural)]
pub enum Http2xx {
    Success,
    Created,
}

impl HttpCode for Http2xx {
    open spec fn spec_status(&self) -> u16 {
        match self {
            Http2xx::Success => 200,
            Http2xx::Created => 201,
        }
    }

    open spec fn spec_code(&self) -> Seq<char> {
        match self {
            Http2xx::Success => "S001"@,
            Http2xx::Created => "S002"@,
        }
    }

    open spec fn spec_message(&self) -> Seq<char> {
        match self {
            Http2xx::Success => "success"@,
            Http2xx::Created => "created"@,
        }
    }

    fn status(&self) -> (r: u16) {
        match self {
            Http2xx::Success => 200,
            Http2xx::Created => 201,
        }
    }

    fn code(&self) -> (r: &'static str) {
        match self {
            Http2xx::Success => "S001",
            Http2xx::Created => "S002",
        }
    }

    fn message(&self) -> (r: &'static str) {
        match self {
            Http2xx::Success => "success",
            Http2xx::Created => "created",
        }
    }
}

} // verus!
