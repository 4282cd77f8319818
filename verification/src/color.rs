//! Color-map tables for value-to-color rendering.

use vstd::prelude::*;
use crate::series::Rgb;

verus! {

/// A table of color stops for linear interpolation. The table itself is
/// plain data; the host interpolates between neighboring stops when it
/// turns a normalized value into a color.
pub struct LinearColorMap {
    pub colors: Vec<(u8, u8, u8)>,
}

impl LinearColorMap {
    /// A color map over the given stops, in their order.
    pub fn new(colors: &[Rgb]) -> (map: LinearColorMap)
        ensures
            map.colors@.len() == colors@.len(),
            forall|i: int|
                0 <= i < colors@.len() ==> #[trigger] map.colors@[i] == (
                    colors@[i].0,
                    colors@[i].1,
                    colors@[i].2,
                ),
    {
        let mut table: Vec<(u8, u8, u8)> = Vec::new();
        let mut i: usize = 0;
        while i < colors.len()
            invariant
                i <= colors@.len(),
                table@.len() == i,
                forall|k: int|
                    0 <= k < i ==> #[trigger] table@[k] == (
                        colors@[k].0,
                        colors@[k].1,
                        colors@[k].2,
                    ),
            decreases colors@.len() - i,
        {
            let stop = colors[i];
            table.push((stop.0, stop.1, stop.2));
            i = i + 1;
        }
        LinearColorMap { colors: table }
    }

    /// How many color stops the map holds.
    pub fn num_colors(&self) -> (n: usize)
        ensures
            n == self.colors@.len(),
    {
        self.colors.len()
    }
}

} // verus!
