//! Messages of four shapes, one of which carries coordinates.

use vstd::prelude::*;

verus! {

/// An instruction sent to a drawing surface.
#[derive(Debug)]
pub enum Message {
    Quit,
    Move { x: i32, y: i32 },
    Write(String),
    ChangeColor(i32, i32, i32),
}

impl Message {
    /// The target of a `Move`; nothing for any other message.
    pub fn get_coordinates(&self) -> (coordinates: Option<(i32, i32)>)
        ensures
            coordinates == (match *self {
                Message::Move { x, y } => Some((x, y)),
                _ => None::<(i32, i32)>,
            }),
    {
        match *self {
            Message::Move { x, y } => Some((x, y)),
            Message::Quit => None,
            Message::Write(_) => None,
            Message::ChangeColor(_, _, _) => None,
        }
    }
}

} // verus!
