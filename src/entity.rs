//! The capabilities that the player and the creatures share.
use crate::position::{within_sight, Position};
use crate::render::RenderInfo;
use crate::rpg::CharacterStats;
use vstd::prelude::*;

verus! {

pub trait Entity {
    /// Where the entity stands.
    spec fn spot(&self) -> Position;

    /// The entity's perception level: how far it sees.
    spec fn perception(&self) -> int;

    fn current_position(&self) -> (r: &Position)
        ensures
            *r == self.spot(),
    ;

    /// Write access to where the entity stands.
    fn position(&mut self) -> (r: &mut Position)
        ensures
            *r == old(self).spot(),
            final(self).spot() == *final(r),
    ;

    fn render_info(&self) -> (r: &RenderInfo);

    fn name(&self) -> (r: Option<&str>);

    fn kind(&self) -> (r: &str);

    fn stats(&self) -> (r: &CharacterStats)
        ensures
            r.per.level() == self.perception(),
    ;

    /// Whether the entity sees `position`: the euclidean distance to it is
    /// below the entity's perception level.
    fn can_see(&self, position: &Position) -> (r: bool)
        ensures
            r == within_sight(
                self.spot().px(),
                self.spot().py(),
                position.px(),
                position.py(),
                self.perception(),
            ),
    ;
}

} // verus!
