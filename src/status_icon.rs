use vstd::prelude::*;

verus! {

/// Hue of the colour for added files, in degrees.
pub const ADDED_HUE_DEGREES: u16 = 142;
pub const ADDED_SATURATION_PERCENT: u8 = 68;
pub const ADDED_LIGHTNESS_PERCENT: u8 = 45;

/// Hue of the colour for modified files, in degrees.
pub const MODIFIED_HUE_DEGREES: u16 = 48;
pub const MODIFIED_SATURATION_PERCENT: u8 = 76;
pub const MODIFIED_LIGHTNESS_PERCENT: u8 = 47;

/// Hue of the colour for removed, deleted and conflicted files, in degrees.
pub const REMOVED_HUE_DEGREES: u16 = 355;
pub const REMOVED_SATURATION_PERCENT: u8 = 65;
pub const REMOVED_LIGHTNESS_PERCENT: u8 = 65;

/// Every palette colour is fully opaque.
pub const OPAQUE_ALPHA_PERCENT: u8 = 100;

/// The facets of a file's version-control state. They are independent: a file
/// may be modified and conflicted at once. None set means clean or added.
#[derive(Clone, Copy, Debug, PartialEq, Eq, Structural)]
pub struct FileStatus {
    pub conflicted: bool,
    pub deleted: bool,
    pub modified: bool,
}

impl FileStatus {
    pub fn is_conflicted(&self) -> (r: bool)
        ensures
            r == self.conflicted,
    {
        self.conflicted
    }

    pub fn is_deleted(&self) -> (r: bool)
        ensures
            r == self.deleted,
    {
        self.deleted
    }

    pub fn is_modified(&self) -> (r: bool)
        ensures
            r == self.modified,
    {
        self.modified
    }
}

/// The glyph drawn for a file status.
#[derive(Clone, Copy, Debug, PartialEq, Eq, Structural)]
pub enum IconName {
    Warning,
    SquareMinus,
    SquareDot,
    SquarePlus,
}

/// The three colours of the status palette.
#[derive(Clone, Copy, Debug, PartialEq, Eq, Structural)]
pub enum StatusColor {
    /// Green.
    Added,
    /// Yellow.
    Modified,
    /// Red: removed, deleted and conflicted files.
    Removed,
}

/// A colour as hue in degrees and saturation, lightness and alpha in
/// hundredths.
#[derive(Clone, Copy, Debug, PartialEq, Eq, Structural)]
pub struct HslaPercent {
    pub hue_degrees: u16,
    pub saturation_percent: u8,
    pub lightness_percent: u8,
    pub alpha_percent: u8,
}

impl StatusColor {
    pub open spec fn spec_hsla(self) -> HslaPercent {
        match self {
            StatusColor::Added => HslaPercent {
                hue_degrees: ADDED_HUE_DEGREES,
                saturation_percent: ADDED_SATURATION_PERCENT,
                lightness_percent: ADDED_LIGHTNESS_PERCENT,
                alpha_percent: OPAQUE_ALPHA_PERCENT,
            },
            StatusColor::Modified => HslaPercent {
                hue_degrees: MODIFIED_HUE_DEGREES,
                saturation_percent: MODIFIED_SATURATION_PERCENT,
                lightness_percent: MODIFIED_LIGHTNESS_PERCENT,
                alpha_percent: OPAQUE_ALPHA_PERCENT,
            },
            StatusColor::Removed => HslaPercent {
                hue_degrees: REMOVED_HUE_DEGREES,
                saturation_percent: REMOVED_SATURATION_PERCENT,
                lightness_percent: REMOVED_LIGHTNESS_PERCENT,
                alpha_percent: OPAQUE_ALPHA_PERCENT,
            },
        }
    }

    /// The palette entry's components.
    pub fn hsla(&self) -> (r: HslaPercent)
        ensures
            r == self.spec_hsla(),
            r.hue_degrees < 360,
            r.saturation_percent <= 100,
            r.lightness_percent <= 100,
            r.alpha_percent == 100,
    {
        match self {
            StatusColor::Added => HslaPercent {
                hue_degrees: ADDED_HUE_DEGREES,
                saturation_percent: ADDED_SATURATION_PERCENT,
                lightness_percent: ADDED_LIGHTNESS_PERCENT,
                alpha_percent: OPAQUE_ALPHA_PERCENT,
            },
            StatusColor::Modified => HslaPercent {
                hue_degrees: MODIFIED_HUE_DEGREES,
                saturation_percent: MODIFIED_SATURATION_PERCENT,
                lightness_percent: MODIFIED_LIGHTNESS_PERCENT,
                alpha_percent: OPAQUE_ALPHA_PERCENT,
            },
            StatusColor::Removed => HslaPercent {
                hue_degrees: REMOVED_HUE_DEGREES,
                saturation_percent: REMOVED_SATURATION_PERCENT,
                lightness_percent: REMOVED_LIGHTNESS_PERCENT,
                alpha_percent: OPAQUE_ALPHA_PERCENT,
            },
        }
    }
}

/// What a status is drawn with: one glyph and one colour.
#[derive(Clone, Copy, Debug, PartialEq, Eq, Structural)]
pub struct IconDescriptor {
    pub icon_name: IconName,
    pub color: StatusColor,
}

/// The first facet set, in the order conflicted, deleted, modified, picks the
/// icon; with none set the file counts as added.
pub open spec fn classify(status: FileStatus) -> IconDescriptor {
    if status.conflicted {
        IconDescriptor { icon_name: IconName::Warning, color: StatusColor::Removed }
    } else if status.deleted {
        IconDescriptor { icon_name: IconName::SquareMinus, color: StatusColor::Removed }
    } else if status.modified {
        IconDescriptor { icon_name: IconName::SquareDot, color: StatusColor::Modified }
    } else {
        IconDescriptor { icon_name: IconName::SquarePlus, color: StatusColor::Added }
    }
}

/// The icon and colour for a file's status. Total: every status gets exactly
/// one descriptor.
pub fn git_status_icon(status: FileStatus) -> (r: IconDescriptor)
    ensures
        r == classify(status),
        status.conflicted ==> r == (IconDescriptor {
            icon_name: IconName::Warning,
            color: StatusColor::Removed,
        }),
        !status.conflicted && status.deleted ==> r == (IconDescriptor {
            icon_name: IconName::SquareMinus,
            color: StatusColor::Removed,
        }),
        !status.conflicted && !status.deleted && status.modified ==> r == (IconDescriptor {
            icon_name: IconName::SquareDot,
            color: StatusColor::Modified,
        }),
        !status.conflicted && !status.deleted && !status.modified ==> r == (IconDescriptor {
            icon_name: IconName::SquarePlus,
            color: StatusColor::Added,
        }),
{
    let (icon_name, color) = if status.is_conflicted() {
        (IconName::Warning, StatusColor::Removed)
    } else if status.is_deleted() {
        (IconName::SquareMinus, StatusColor::Removed)
    } else if status.is_modified() {
        (IconName::SquareDot, StatusColor::Modified)
    } else {
        (IconName::SquarePlus, StatusColor::Added)
    };
    IconDescriptor { icon_name, color }
}

/// A conflict outranks a deletion: whether or not the file is also deleted,
/// a conflicted file is drawn with the red warning icon.
pub proof fn lemma_conflict_outranks_deletion(modified: bool)
    ensures
        classify(FileStatus { conflicted: true, deleted: true, modified })
            == classify(FileStatus { conflicted: true, deleted: false, modified }),
        classify(FileStatus { conflicted: true, deleted: false, modified }) == (IconDescriptor {
            icon_name: IconName::Warning,
            color: StatusColor::Removed,
        }),
{
}

/// Classification depends on the status alone: equal statuses always get
/// equal descriptors.
pub proof fn lemma_classify_deterministic(a: FileStatus, b: FileStatus)
    requires
        a == b,
    ensures
        classify(a) == classify(b),
{
}

} // verus!
