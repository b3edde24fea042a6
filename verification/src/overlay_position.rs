//! Hit-circle overlay draw-order selector.

use vstd::prelude::*;

use crate::Error;
use crate::strutil::str_eq;

verus! {

/// Draw order of hit-circle overlays compared to hit numbers.
#[derive(Debug, Clone, Copy, PartialEq, Eq, Structural, PartialOrd, Ord, Hash)]
pub enum OverlayPosition {
    Below,
    Above,
}

/// The overlay position a name denotes: exactly `Below` or `Above`.
pub open spec fn spec_overlay_position_from_name(s: Seq<char>) -> Result<OverlayPosition, Error> {
    if s == "Below"@ {
        Ok(OverlayPosition::Below)
    } else if s == "Above"@ {
        Ok(OverlayPosition::Above)
    } else {
        Err(Error::InvalidInput("invalid overlay position value"))
    }
}

impl OverlayPosition {
    /// Converts an overlay-position name, rejecting anything but the two
    /// names.
    pub fn from_name(s: &str) -> (r: Result<OverlayPosition, Error>)
        ensures
            r == spec_overlay_position_from_name(s@),
    {
        if str_eq(s, "Below") {
            Ok(OverlayPosition::Below)
        } else if str_eq(s, "Above") {
            Ok(OverlayPosition::Above)
        } else {
            Err(Error::InvalidInput("invalid overlay position value"))
        }
    }

    /// Converts an overlay-position name, `None` for anything else.
    pub fn parse(s: &str) -> (r: Option<OverlayPosition>)
        ensures
            r == match spec_overlay_position_from_name(s@) {
                Ok(v) => Some(v),
                Err(_) => None::<OverlayPosition>,
            },
    {
        match OverlayPosition::from_name(s) {
            Ok(v) => Some(v),
            Err(_) => None,
        }
    }
}

impl Default for OverlayPosition {
    /// The default overlay position.
    fn default() -> (r: Self)
        ensures
            r == OverlayPosition::Below,
    {
        OverlayPosition::Below
    }
}

} // verus!
