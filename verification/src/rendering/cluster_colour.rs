//! Which colour of the palette a cluster gets.

use vstd::prelude::*;

verus! {

/// The colour of a point.
#[derive(Clone, Copy, Debug, PartialEq, Eq, Structural)]
pub enum ColourChoice {
    /// The colour at this place of the palette.
    Palette(usize),
    /// The one colour of all clusters that the palette has no colour for.
    Fallback,
}

/// The palette of the clusters, as far as its size goes.
#[derive(Clone, Copy, Debug, PartialEq, Eq, Structural)]
pub struct ClusterColour {
    colours: usize,
}

/// The colour of the cluster with the given number in a palette of
/// `colours` colours: its own where the palette has that many, else the
/// one that the palette falls back to.
pub open spec fn colour_of_cluster(colours: nat, cluster_index: int) -> ColourChoice {
    if 0 <= cluster_index < colours {
        ColourChoice::Palette(cluster_index as usize)
    } else {
        ColourChoice::Fallback
    }
}

impl ClusterColour {
    /// Number of colours in the palette.
    pub closed spec fn len(&self) -> nat {
        self.colours as nat
    }

    /// A palette of the given number of colours.
    pub fn new(colours: usize) -> (palette: ClusterColour)
        ensures
            palette.len() == colours,
    {
        ClusterColour { colours }
    }

    /// The colour of the cluster with the given number.
    pub fn get_colour(&self, cluster_index: usize) -> (colour: ColourChoice)
        ensures
            colour == colour_of_cluster(self.len(), cluster_index as int),
    {
        if cluster_index >= self.colours {
            ColourChoice::Fallback
        } else {
            ColourChoice::Palette(cluster_index)
        }
    }
}

} // verus!
