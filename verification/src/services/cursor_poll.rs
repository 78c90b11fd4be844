//! Which agent the cursor is over.

use vstd::prelude::*;
use vstd::string::*;
use crate::text::opt_text;

verus! {

/// The rectangle on screen in which an agent can be pointed at.
#[derive(Debug)]
pub struct HitZone {
    pub agent_id: String,
    pub x: i32,
    pub y: i32,
    pub width: i32,
    pub height: i32,
}

impl Clone for HitZone {
    fn clone(&self) -> (r: Self)
        ensures
            r == *self,
    {
        HitZone {
            agent_id: self.agent_id.clone(),
            x: self.x,
            y: self.y,
            width: self.width,
            height: self.height,
        }
    }
}

/// Whether the point lies in the zone widened by `padding` on every side.
pub open spec fn zone_holds(zone: HitZone, cursor_x: i32, cursor_y: i32, padding: i32) -> bool {
    &&& cursor_x >= zone.x - padding
    &&& cursor_x <= zone.x + zone.width + padding
    &&& cursor_y >= zone.y - padding
    &&& cursor_y <= zone.y + zone.height + padding
}

/// The first of the zones that holds the point, if one does.
pub open spec fn first_hit(
    zones: Seq<HitZone>,
    cursor_x: i32,
    cursor_y: i32,
    padding: i32,
) -> Option<int>
    decreases zones.len(),
{
    if zones.len() == 0 {
        None
    } else {
        match first_hit(zones.drop_last(), cursor_x, cursor_y, padding) {
            Some(i) => Some(i),
            None => if zone_holds(zones.last(), cursor_x, cursor_y, padding) {
                Some(zones.len() - 1)
            } else {
                None
            },
        }
    }
}

/// The agent that the cursor is over: the agent of the first zone that holds
/// the cursor.
pub open spec fn hovered_agent(
    zones: Seq<HitZone>,
    cursor_x: i32,
    cursor_y: i32,
    padding: i32,
) -> Option<Seq<char>> {
    match first_hit(zones, cursor_x, cursor_y, padding) {
        Some(i) => Some(zones[i].agent_id@),
        None => None,
    }
}

impl HitZone {
    /// Whether the point lies in the zone widened by `padding` on every side.
    pub fn contains(&self, cursor_x: i32, cursor_y: i32, padding: i32) -> (r: bool)
        ensures
            r == zone_holds(*self, cursor_x, cursor_y, padding),
    {
        let x = cursor_x as i64;
        let y = cursor_y as i64;
        let pad = padding as i64;
        x >= self.x as i64 - pad && x <= self.x as i64 + self.width as i64 + pad && y
            >= self.y as i64 - pad && y <= self.y as i64 + self.height as i64 + pad
    }
}

/// Finds the agent that the cursor is over.
pub fn find_hovered(zones: &Vec<HitZone>, cursor_x: i32, cursor_y: i32, padding: i32) -> (r:
    Option<String>)
    ensures
        opt_text(r) == hovered_agent(zones@, cursor_x, cursor_y, padding),
{
    let mut i: usize = 0;
    while i < zones.len()
        invariant
            i <= zones@.len(),
            first_hit(zones@.take(i as int), cursor_x, cursor_y, padding) is None,
        decreases zones@.len() - i,
    {
        proof {
            assert(zones@.take(i + 1).drop_last() =~= zones@.take(i as int));
        }
        if zones[i].contains(cursor_x, cursor_y, padding) {
            proof {
                lemma_first_hit_extends(zones@, i + 1, cursor_x, cursor_y, padding);
            }
            return Some(zones[i].agent_id.clone());
        }
        i = i + 1;
    }
    assert(zones@.take(zones@.len() as int) =~= zones@);
    None
}

/// A hit among the first `n` zones is the first hit among all of them.
pub proof fn lemma_first_hit_extends(
    zones: Seq<HitZone>,
    n: int,
    cursor_x: i32,
    cursor_y: i32,
    padding: i32,
)
    requires
        0 <= n <= zones.len(),
        first_hit(zones.take(n), cursor_x, cursor_y, padding) is Some,
    ensures
        first_hit(zones, cursor_x, cursor_y, padding) == first_hit(
            zones.take(n),
            cursor_x,
            cursor_y,
            padding,
        ),
        first_hit(zones.take(n), cursor_x, cursor_y, padding).unwrap() < n,
    decreases zones.len() - n,
{
    lemma_first_hit_bound(zones.take(n), cursor_x, cursor_y, padding);
    if n < zones.len() {
        assert(zones.take(n + 1).drop_last() =~= zones.take(n));
        lemma_first_hit_extends(zones, n + 1, cursor_x, cursor_y, padding);
    } else {
        assert(zones.take(n) =~= zones);
    }
}

/// The first hit is a position among the zones.
pub proof fn lemma_first_hit_bound(zones: Seq<HitZone>, cursor_x: i32, cursor_y: i32, padding: i32)
    ensures
        first_hit(zones, cursor_x, cursor_y, padding) matches Some(i) ==> 0 <= i < zones.len(),
    decreases zones.len(),
{
    if zones.len() > 0 {
        lemma_first_hit_bound(zones.drop_last(), cursor_x, cursor_y, padding);
    }
}

} // verus!
