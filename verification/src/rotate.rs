//! The per-channel rotating destination: one logical file whose name is
//! derived from the channel name and the hour-aligned timestamp of the last
//! rotation, replaced by a freshly named file once rotation is due.

use vstd::prelude::*;
use crate::path::{build_path, path_chars};
use crate::time::{rotation_due, rotation_due_spec, Timestamp};

verus! {

/// The state of one rotating destination.  The open file handle itself
/// lives with the caller, which opens (for append, never truncating) the
/// path this state designates and reopens whenever `check_rotation` says
/// so.
pub struct RotatingFile {
    /// The channel identifier, used verbatim as the file-name prefix.
    pub channel_name: String,
    /// The directory every file of this destination lives in.
    pub dir: String,
    /// The hour-aligned timestamp of the last rotation.
    pub last_rotation: Timestamp,
}

/// How one destination evolves over a write at reading `now`, together
/// with the reopen order handed back: on a due rotation the state moves to
/// the aligned hour of `now` and the caller is told the new path to open;
/// otherwise nothing changes and no reopen is ordered.
pub open spec fn rotated_to(
    before: RotatingFile,
    after: RotatingFile,
    reopen: Option<String>,
    now: Timestamp,
) -> bool {
    &&& after.channel_name == before.channel_name
    &&& after.dir == before.dir
    &&& if rotation_due_spec(before.last_rotation, now) {
        &&& after.last_rotation == now.align_spec()
        &&& match reopen {
            Some(p) => p@ == path_chars(after.dir@, after.channel_name@, now.align_spec()),
            None => false,
        }
    } else {
        &&& after == before
        &&& reopen == None::<String>
    }
}

impl RotatingFile {
    /// Well-formed: the last-rotation timestamp is a valid, hour-aligned
    /// calendar reading.
    pub open spec fn wf(self) -> bool {
        self.last_rotation.wf() && self.last_rotation.aligned()
    }

    /// The path of the file currently in use, as the path rule derives it
    /// from the channel name and the last-rotation timestamp.
    pub open spec fn path_spec(self) -> Seq<char> {
        path_chars(self.dir@, self.channel_name@, self.last_rotation)
    }

    /// Set up the destination for channel `channel_name` under `dir` at
    /// reading `now`: the first rotation timestamp is the aligned hour of
    /// `now`.  The caller opens the path that `current_path` returns in
    /// append mode, so content from an earlier run is preserved.
    pub fn create(dir: &str, channel_name: &str, now: Timestamp) -> (r: RotatingFile)
        requires
            now.wf(),
        ensures
            r.dir@ == dir@,
            r.channel_name@ == channel_name@,
            r.last_rotation == now.align_spec(),
            r.wf(),
    {
        RotatingFile {
            channel_name: channel_name.to_owned(),
            dir: dir.to_owned(),
            last_rotation: now.align(),
        }
    }

    /// The path of the file currently in use.
    pub fn current_path(&self) -> (r: String)
        requires
            self.wf(),
        ensures
            r@ == self.path_spec(),
    {
        build_path(self.dir.as_str(), self.channel_name.as_str(), self.last_rotation)
    }

    /// Run the rotation check for a write at reading `now`.  When rotation
    /// is due, move this destination to the aligned hour of `now` and
    /// return the path of the file to open; otherwise leave it untouched.
    pub fn check_rotation(&mut self, now: Timestamp) -> (reopen: Option<String>)
        requires
            old(self).wf(),
            now.wf(),
        ensures
            final(self).wf(),
            rotated_to(*old(self), *final(self), reopen, now),
    {
        if rotation_due(self.last_rotation, now) {
            self.last_rotation = now.align();
            Some(self.current_path())
        } else {
            None
        }
    }
}

} // verus!
