use vstd::prelude::*;

verus! {

/// The routing envelope every inbound message carries.
pub struct ServerMessage {
    pub addr: String,
}

/// A full replacement of the step matrix.
pub struct MatrixMessage {
    pub addr: String,
    pub matrix: Vec<i32>,
}

/// A tempo change, in eighths of a tempo unit.
pub struct WheelMessage {
    pub addr: String,
    pub value: u8,
}

/// A change of the number of tracks that are shown.
pub struct LinesMessage {
    pub addr: String,
    pub value: usize,
}

/// The outbound request for the current matrix.
pub struct MatrixRequestMessage {
    addr: String,
}

/// The address of the outbound matrix request.
pub open spec fn request_addr() -> Seq<char> {
    seq!['/', 'g', 'e', 't', '-', 'm', 'a', 't', 'r', 'i', 'x']
}

impl MatrixRequestMessage {
    pub closed spec fn addr_spec(&self) -> Seq<char> {
        self.addr@
    }

    pub fn new() -> (r: Self)
        ensures
            r.addr_spec() == request_addr(),
    {
        let addr = "/get-matrix".to_owned();
        proof {
            reveal_strlit("/get-matrix");
            assert(addr@ =~= request_addr());
        }
        MatrixRequestMessage { addr }
    }

    pub fn addr(&self) -> (r: String)
        ensures
            r@ == self.addr_spec(),
    {
        self.addr.clone()
    }
}

/// An inbound update, already decoded, as the render loop receives it.
pub enum Messages {
    Matrix(MatrixMessage),
    Wheel(WheelMessage),
    Lines(LinesMessage),
}

/// Which update an inbound message carries, chosen by its address.
#[derive(PartialEq, Eq, Structural, Clone, Copy, Debug)]
pub enum MessageKind {
    Matrix,
    Wheel,
    Lines,
}

pub open spec fn matrix_addr() -> Seq<char> {
    seq!['/', 'm', 'a', 't', 'r', 'i', 'x']
}

pub open spec fn wheel_addr() -> Seq<char> {
    seq!['/', 'w', 'h', 'e', 'e', 'l']
}

pub open spec fn lines_addr() -> Seq<char> {
    seq!['/', 'l', 'i', 'n', 'e', 's']
}

pub open spec fn kind_of_spec(addr: Seq<char>) -> Option<MessageKind> {
    if addr == matrix_addr() {
        Some(MessageKind::Matrix)
    } else if addr == wheel_addr() {
        Some(MessageKind::Wheel)
    } else if addr == lines_addr() {
        Some(MessageKind::Lines)
    } else {
        None
    }
}

/// Routes an inbound message by its address; unknown addresses are dropped.
pub fn kind_of(addr: &String) -> (r: Option<MessageKind>)
    ensures
        r == kind_of_spec(addr@),
{
    let matrix = "/matrix".to_owned();
    let wheel = "/wheel".to_owned();
    let lines = "/lines".to_owned();
    proof {
        reveal_strlit("/matrix");
        reveal_strlit("/wheel");
        reveal_strlit("/lines");
        assert(matrix@ =~= matrix_addr());
        assert(wheel@ =~= wheel_addr());
        assert(lines@ =~= lines_addr());
    }
    if *addr == matrix {
        Some(MessageKind::Matrix)
    } else if *addr == wheel {
        Some(MessageKind::Wheel)
    } else if *addr == lines {
        Some(MessageKind::Lines)
    } else {
        None
    }
}

} // verus!
