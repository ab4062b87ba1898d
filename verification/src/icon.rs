//! The notification icon that stands for a brightness level.

use vstd::prelude::*;

verus! {

/// Icon shown for the lowest third of the scale.
pub const ICON_LOW: &'static str = "display-brightness-low-symbolic";

/// Icon shown for the middle third of the scale.
pub const ICON_MEDIUM: &'static str = "display-brightness-medium-symbolic";

/// Icon shown for the upper third of the scale.
pub const ICON_HIGH: &'static str = "display-brightness-high-symbolic";

/// First brightness of the medium bucket.
pub const MEDIUM_FROM: u8 = 33;

/// First brightness of the high bucket.
pub const HIGH_FROM: u8 = 66;

/// The icon name for a brightness: below 33 low, from 33 to 65 medium, from 66 on high.
pub open spec fn icon_name(brightness: u8) -> Seq<char> {
    if brightness < MEDIUM_FROM {
        ICON_LOW@
    } else if brightness < HIGH_FROM {
        ICON_MEDIUM@
    } else {
        ICON_HIGH@
    }
}

/// Chooses the icon name for a brightness percentage.
pub fn icon_for(brightness: u8) -> (icon: &'static str)
    ensures
        icon@ == icon_name(brightness),
{
    if brightness < MEDIUM_FROM {
        ICON_LOW
    } else if brightness < HIGH_FROM {
        ICON_MEDIUM
    } else {
        ICON_HIGH
    }
}

/// The three buckets share the scale among them with no overlap and no gap:
/// each brightness has exactly one of the three icons, low up to 32, medium
/// from 33 to 65, high from 66 on.
pub proof fn lemma_icon_buckets(brightness: u8)
    ensures
        icon_name(brightness) == ICON_LOW@ <==> brightness <= 32,
        icon_name(brightness) == ICON_MEDIUM@ <==> 33 <= brightness <= 65,
        icon_name(brightness) == ICON_HIGH@ <==> 66 <= brightness,
        ICON_LOW@ != ICON_MEDIUM@ && ICON_MEDIUM@ != ICON_HIGH@ && ICON_LOW@ != ICON_HIGH@,
{
    reveal_strlit("display-brightness-low-symbolic");
    reveal_strlit("display-brightness-medium-symbolic");
    reveal_strlit("display-brightness-high-symbolic");
    assert(ICON_LOW@[19] == 'l');
    assert(ICON_MEDIUM@[19] == 'm');
    assert(ICON_HIGH@[19] == 'h');
}

} // verus!
