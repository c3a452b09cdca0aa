//! Per-entry styling configuration, passed explicitly into every accessor
//! that renders a value, so no accessor reads hidden global state.

use vstd::prelude::*;
use crate::enums::{DetailField, SizeUnit, Typ};
use crate::fmt::{dec_str, markup_of};

verus! {

/// Styles for the hard-link count: directories are expected to have more
/// than one link, files exactly one, so the notable case of each kind can
/// carry a distinct style.
pub struct NlinkStyles {
    /// style for a file with one hard link (the expected case)
    pub file_sing: String,
    /// style for a file with several hard links (the notable case)
    pub file_plur: String,
    /// style for a directory with one hard link (the notable case)
    pub dir_sing: String,
    /// style for a directory with several hard links (the expected case)
    pub dir_plur: String,
}

impl NlinkStyles {
    /// The style directives that apply to a link count `n` on an entry of
    /// type `typ`.
    pub open spec fn style_of(&self, n: u64, typ: Typ) -> Seq<char> {
        if typ == Typ::Dir {
            if n == 1 {
                self.dir_sing@
            } else {
                self.dir_plur@
            }
        } else {
            if n == 1 {
                self.file_sing@
            } else {
                self.file_plur@
            }
        }
    }

    /// Render a hard-link count under the style for the entry's type.
    pub fn format(&self, n: u64, typ: &Typ) -> (r: String)
        ensures
            r@ == markup_of(self.style_of(n, *typ), dec_str(n as nat)),
    {
        let style: &String = if *typ == Typ::Dir {
            if n == 1 {
                &self.dir_sing
            } else {
                &self.dir_plur
            }
        } else {
            if n == 1 {
                &self.file_sing
            } else {
                &self.file_plur
            }
        };
        crate::fmt::markup_dec(style.as_str(), n)
    }
}

/// Styling configuration for one entry's renderable fields.
///
/// Timestamp formats are format descriptions in the notation of the
/// formatting backend; they are expected to be validated when the
/// configuration is loaded, so a malformed one degrades to an absent
/// rendering rather than a failure mid-listing.
pub struct EntryConst {
    /// style for the device number
    pub dev_style: String,
    /// style for the inode number
    pub ino_style: String,
    /// style for the block count
    pub blocks_style: String,
    /// style for the byte size
    pub size_style: String,
    /// the unit system byte sizes are scaled by
    pub size_unit: SizeUnit,
    /// style for ordinary permission characters
    pub perm_style: String,
    /// style for special permission characters (setuid, setgid, sticky)
    pub perm_special_style: String,
    /// style for the octal permission rendering
    pub oct_style: String,
    /// style for a user that is the invoking user
    pub user_curr_style: String,
    /// style for a user other than the invoking user
    pub user_other_style: String,
    /// style for a group the invoking user belongs to
    pub group_curr_style: String,
    /// style for any other group
    pub group_other_style: String,
    /// styles for the hard-link count
    pub nlink_styles: NlinkStyles,
    /// format description for the access time
    pub atime_format: String,
    /// format description for the creation time
    pub btime_format: String,
    /// format description for the status-change time
    pub ctime_format: String,
    /// format description for the modification time
    pub mtime_format: String,
}

impl EntryConst {
    /// The timestamp format description configured for `field`.
    pub open spec fn timestamp_format_of(&self, field: DetailField) -> Seq<char> {
        match field {
            DetailField::Atime => self.atime_format@,
            DetailField::Btime => self.btime_format@,
            DetailField::Ctime => self.ctime_format@,
            DetailField::Mtime => self.mtime_format@,
        }
    }

    /// The timestamp format description configured for `field`.
    pub fn timestamp_format(&self, field: DetailField) -> (r: &str)
        ensures
            r@ == self.timestamp_format_of(field),
    {
        match field {
            DetailField::Atime => self.atime_format.as_str(),
            DetailField::Btime => self.btime_format.as_str(),
            DetailField::Ctime => self.ctime_format.as_str(),
            DetailField::Mtime => self.mtime_format.as_str(),
        }
    }
}

} // verus!
