use vstd::prelude::*;
use crate::movement::Position;
use crate::text::{signed_decimal, push_signed_decimal};

verus! {

/// The label that shows the player's position.
#[derive(Clone, Debug)]
pub struct PlayerPosition {
    pub text: String,
}

/// "x, y" for a position, each coordinate in decimal.
pub open spec fn position_text(p: Position) -> Seq<char> {
    signed_decimal(p.x as int) + seq![',', ' '] + signed_decimal(p.y as int)
}

/// The text "x, y" for `pos`.
pub fn format_position(pos: &Position) -> (r: String)
    ensures
        r@ == position_text(*pos),
{
    let mut s = String::new();
    push_signed_decimal(&mut s, pos.x);
    proof {
        reveal_strlit(", ");
    }
    s.append(", ");
    push_signed_decimal(&mut s, pos.y);
    assert(s@ =~= position_text(*pos));
    s
}

impl PlayerPosition {
    /// A label showing `pos`.
    pub fn new(pos: &Position) -> (r: PlayerPosition)
        ensures
            r.text@ == position_text(*pos),
    {
        PlayerPosition { text: format_position(pos) }
    }
}

/// Rewrites the label to show `pos`.
pub fn text_update_position(label: &mut PlayerPosition, pos: &Position)
    ensures
        final(label).text@ == position_text(*pos),
{
    label.text = format_position(pos);
}

} // verus!
