//! The channel router: a two-phase protocol that consumes one line at a
//! time.  With no channel pending, a line whose trimmed form names a known
//! channel is remembered as the selector and nothing is written; any other
//! line goes verbatim to the fallback destination.  With a channel pending,
//! the line is the payload for that channel, and the pending slot is
//! cleared unconditionally.

use vstd::prelude::*;
use crate::rotate::{rotated_to, RotatingFile};
use crate::time::Timestamp;

verus! {

/// The Unicode White_Space characters, as the standard library's trimming
/// understands them.
pub open spec fn is_wspace(c: char) -> bool {
    ||| c == '\u{0009}'
    ||| c == '\u{000A}'
    ||| c == '\u{000B}'
    ||| c == '\u{000C}'
    ||| c == '\u{000D}'
    ||| c == ' '
    ||| c == '\u{0085}'
    ||| c == '\u{00A0}'
    ||| c == '\u{1680}'
    ||| ('\u{2000}' <= c && c <= '\u{200A}')
    ||| c == '\u{2028}'
    ||| c == '\u{2029}'
    ||| c == '\u{202F}'
    ||| c == '\u{205F}'
    ||| c == '\u{3000}'
}

/// `s` with its maximal trailing run of whitespace characters removed.
pub open spec fn trim_end_spec(s: Seq<char>) -> Seq<char>
    decreases s.len(),
{
    if s.len() > 0 && is_wspace(s.last()) {
        trim_end_spec(s.drop_last())
    } else {
        s
    }
}

/// Relies on `str::trim_end`: it returns the slice with the maximal
/// trailing run of characters having the Unicode White_Space property
/// removed, which is exactly `trim_end_spec`.
#[verifier::external_body]
fn trim_end_ws(s: &str) -> (r: &str)
    ensures
        r@ == trim_end_spec(s@),
{
    s.trim_end()
}

/// Where a payload line is to be written.
#[derive(Clone, Copy, PartialEq, Eq, Structural, Debug)]
pub enum Target {
    /// The rotating file of the channel at this position of the
    /// configured channel list.
    Channel(usize),
    /// The fallback destination for lines of unrecognized channels.
    Fallback,
}

/// One write the caller must perform: append the accepted line, verbatim,
/// to the target's current file — after first opening `reopen` in append
/// mode, if a rotation just renamed that file.
pub struct WritePlan {
    pub target: Target,
    pub reopen: Option<String>,
}

/// The router: one rotating destination per configured channel, one
/// fallback destination, and the at-most-one pending channel selector.
/// A ghost record keeps every write it has ordered, so that no routed
/// payload is lost or duplicated on the way to a destination.
pub struct ChannelRouter {
    pub channels: Vec<String>,
    pub files: Vec<RotatingFile>,
    pub fallback: RotatingFile,
    pub pending: Option<usize>,
    /// Every write ordered so far, oldest first: the target and the
    /// verbatim line handed over for it.
    pub write_log: Ghost<Seq<(Target, Seq<char>)>>,
}

impl ChannelRouter {
    /// Well-formed: destinations line up with the channel list, every
    /// destination is well-formed, and a pending selector indexes a
    /// configured channel.
    pub open spec fn wf(self) -> bool {
        &&& self.files@.len() == self.channels@.len()
        &&& forall|i: int|
            0 <= i < self.files@.len() ==> (#[trigger] self.files@[i]).wf()
                && self.files@[i].channel_name@ == self.channels@[i]@
        &&& self.fallback.wf()
        &&& match self.pending {
            Some(i) => i < self.channels@.len(),
            None => true,
        }
    }

    /// The configured channel names, in order.
    pub open spec fn channels_spec(self) -> Seq<String> {
        self.channels@
    }

    /// The per-channel destinations, in the order of the channel list.
    pub open spec fn files_spec(self) -> Seq<RotatingFile> {
        self.files@
    }

    /// The fallback destination.
    pub open spec fn fallback_spec(self) -> RotatingFile {
        self.fallback
    }

    /// The pending channel selector, if a selector line was just consumed.
    pub open spec fn pending_spec(self) -> Option<usize> {
        self.pending
    }

    /// Build the router for reading `now`: one destination per name in
    /// `channel_names` (in order, under that verbatim name), plus the
    /// fallback destination under `fallback_name`, all rooted at `dir`;
    /// no channel is pending.
    pub fn new(dir: &str, channel_names: Vec<String>, fallback_name: &str, now: Timestamp) -> (r:
        ChannelRouter)
        requires
            now.wf(),
        ensures
            r.wf(),
            r.pending_spec() == None::<usize>,
            r.write_log@ == Seq::<(Target, Seq<char>)>::empty(),
            r.channels_spec() == channel_names@,
            r.files_spec().len() == channel_names@.len(),
            forall|i: int|
                0 <= i < channel_names@.len() ==> (#[trigger] r.files_spec()[i]).dir@ == dir@
                    && r.files_spec()[i].channel_name@ == channel_names@[i]@
                    && r.files_spec()[i].last_rotation == now.align_spec(),
            r.fallback_spec().dir@ == dir@,
            r.fallback_spec().channel_name@ == fallback_name@,
            r.fallback_spec().last_rotation == now.align_spec(),
    {
        let mut files: Vec<RotatingFile> = Vec::new();
        let mut i: usize = 0;
        while i < channel_names.len()
            invariant
                i <= channel_names@.len(),
                files@.len() == i,
                now.wf(),
                forall|j: int|
                    0 <= j < i as int ==> (#[trigger] files@[j]).dir@ == dir@
                        && files@[j].channel_name@ == channel_names@[j]@
                        && files@[j].last_rotation == now.align_spec() && files@[j].wf(),
            decreases channel_names@.len() - i,
        {
            let f = RotatingFile::create(dir, channel_names[i].as_str(), now);
            files.push(f);
            i = i + 1;
        }
        let fallback = RotatingFile::create(dir, fallback_name, now);
        ChannelRouter {
            channels: channel_names,
            files,
            fallback,
            pending: None,
            write_log: Ghost(Seq::empty()),
        }
    }

    /// How many channels are configured.
    pub fn channel_count(&self) -> (r: usize)
        ensures
            r == self.channels_spec().len(),
    {
        self.channels.len()
    }

    /// The path of the file currently in use for the channel at `i`.
    pub fn channel_path(&self, i: usize) -> (r: String)
        requires
            self.wf(),
            i < self.channels_spec().len(),
        ensures
            r@ == self.files_spec()[i as int].path_spec(),
    {
        self.files[i].current_path()
    }

    /// The path of the file currently in use for the fallback.
    pub fn fallback_path(&self) -> (r: String)
        requires
            self.wf(),
        ensures
            r@ == self.fallback_spec().path_spec(),
    {
        self.fallback.current_path()
    }

    /// The position of the first configured channel named `cand`, if any.
    fn find_channel(&self, cand: &String) -> (r: Option<usize>)
        ensures
            match r {
                Some(k) => k < self.channels_spec().len() && self.channels_spec()[k as int]@
                    == cand@ && forall|j: int|
                    0 <= j < k ==> (#[trigger] self.channels_spec()[j])@ != cand@,
                None => forall|j: int|
                    0 <= j < self.channels_spec().len() ==> (#[trigger] self.channels_spec()[j])@
                        != cand@,
            },
    {
        let mut i: usize = 0;
        while i < self.channels.len()
            invariant
                i <= self.channels@.len(),
                forall|j: int| 0 <= j < i as int ==> (#[trigger] self.channels@[j])@ != cand@,
            decreases self.channels@.len() - i,
        {
            if self.channels[i].eq(cand) {
                return Some(i);
            }
            i = i + 1;
        }
        None
    }

    /// Consume one input line at reading `now`.
    ///
    /// With no pending channel, the line trimmed of trailing whitespace is
    /// a candidate selector: if it names a configured channel, it is
    /// remembered and nothing is written; otherwise the caller is ordered
    /// to write the untrimmed line to the fallback.  With a channel
    /// pending, the caller is ordered to write the line to that channel,
    /// and the pending slot is cleared unconditionally — also when the
    /// write later fails, the next line is a fresh selector attempt.
    pub fn accept(&mut self, line: &str, now: Timestamp) -> (r: Option<WritePlan>)
        requires
            old(self).wf(),
            now.wf(),
        ensures
            final(self).wf(),
            final(self).channels_spec() == old(self).channels_spec(),
            ({
                let t = trim_end_spec(line@);
                match old(self).pending_spec() {
                    None => {
                        if exists|i: int|
                            0 <= i < old(self).channels_spec().len() && (#[trigger] old(
                                self,
                            ).channels_spec()[i])@ == t {
                            &&& r == None::<WritePlan>
                            &&& final(self).write_log == old(self).write_log
                            &&& final(self).files_spec() == old(self).files_spec()
                            &&& final(self).fallback_spec() == old(self).fallback_spec()
                            &&& match final(self).pending_spec() {
                                Some(k) => k < old(self).channels_spec().len() && old(
                                    self,
                                ).channels_spec()[k as int]@ == t && forall|j: int|
                                    0 <= j < k ==> (#[trigger] old(self).channels_spec()[j])@ != t,
                                None => false,
                            }
                        } else {
                            &&& final(self).pending_spec() == None::<usize>
                            &&& final(self).write_log@ == old(self).write_log@.push(
                                (Target::Fallback, line@),
                            )
                            &&& final(self).files_spec() == old(self).files_spec()
                            &&& match r {
                                Some(plan) => plan.target == Target::Fallback && rotated_to(
                                    old(self).fallback_spec(),
                                    final(self).fallback_spec(),
                                    plan.reopen,
                                    now,
                                ),
                                None => false,
                            }
                        }
                    },
                    Some(i) => {
                        &&& final(self).pending_spec() == None::<usize>
                        &&& final(self).write_log@ == old(self).write_log@.push(
                            (Target::Channel(i), line@),
                        )
                        &&& final(self).fallback_spec() == old(self).fallback_spec()
                        &&& final(self).files_spec().len() == old(self).files_spec().len()
                        &&& forall|j: int|
                            0 <= j < old(self).files_spec().len() && j != i as int
                                ==> final(self).files_spec()[j] == (#[trigger] old(
                                self,
                            ).files_spec()[j])
                        &&& match r {
                            Some(plan) => plan.target == Target::Channel(i) && rotated_to(
                                old(self).files_spec()[i as int],
                                final(self).files_spec()[i as int],
                                plan.reopen,
                                now,
                            ),
                            None => false,
                        }
                    },
                }
            }),
    {
        match self.pending {
            None => {
                let trimmed = trim_end_ws(line);
                let cand = trimmed.to_owned();
                match self.find_channel(&cand) {
                    Some(k) => {
                        self.pending = Some(k);
                        None
                    },
                    None => {
                        let reopen = self.fallback.check_rotation(now);
                        self.write_log = Ghost(self.write_log@.push((Target::Fallback, line@)));
                        Some(WritePlan { target: Target::Fallback, reopen })
                    },
                }
            },
            Some(i) => {
                self.pending = None;
                let reopen = self.files[i].check_rotation(now);
                self.write_log = Ghost(self.write_log@.push((Target::Channel(i), line@)));
                Some(WritePlan { target: Target::Channel(i), reopen })
            },
        }
    }
}

} // verus!

