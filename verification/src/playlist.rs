//! The playlist: an ordered list of video file paths plus a cursor. The
//! caller lists the directory (an outside capability) and hands the entries
//! to `apply_discovery`, which filters them by the video file suffix,
//! optionally shuffles them, and resets the cursor; `next_path` then hands
//! out one path per call. When the cursor runs off the list the playlist
//! asks for discovery again, so directory contents are re-read live once per
//! full cycle.

use vstd::prelude::*;
use vstd::arithmetic::div_mod::{
    lemma_small_mod, lemma_mod_bound, lemma_fundamental_div_mod, lemma_fundamental_div_mod_converse,
};
use rand::seq::SliceRandom;
use crate::video::VideoError;
use crate::display::TransferError;

verus! {

/// Why playback could not go on.
#[derive(Debug)]
pub enum PlaybackError {
    /// The playlist's directory holds no candidate video file.
    EmptyPlaylist,
    /// Reading the directory or a file failed.
    IOError(std::io::Error),
    /// The current video is unusable.
    VideoError(VideoError),
    /// The display failed; the panel's state is unknown.
    TransferError(TransferError),
}

/// The suffix a candidate video file must carry.
pub open spec fn video_suffix() -> Seq<char> {
    ".bgr565be"@
}

/// Whether a path ends with the video file suffix.
pub open spec fn has_video_suffix(s: Seq<char>) -> bool {
    s.len() >= video_suffix().len() && s.subrange(
        s.len() - video_suffix().len(),
        s.len() as int,
    ) == video_suffix()
}

/// The directory entries that are candidate video files, in directory
/// order.
pub open spec fn matching(entries: Seq<String>) -> Seq<String>
    decreases entries.len(),
{
    if entries.len() == 0 {
        Seq::empty()
    } else {
        let rest = matching(entries.drop_last());
        if has_video_suffix(entries.last()@) {
            rest.push(entries.last())
        } else {
            rest
        }
    }
}

/// Relies on str's `ends_with`: true exactly when the string's characters
/// end with the suffix's characters.
#[verifier::external_body]
fn str_ends_with(s: &String, suffix: &str) -> (r: bool)
    ensures
        r == (s@.len() >= suffix@.len() && s@.subrange(
            s@.len() - suffix@.len(),
            s@.len() as int,
        ) == suffix@),
{
    s.ends_with(suffix)
}

/// Relies on rand's `SliceRandom::shuffle`: permutes the slice in place,
/// leaving the same elements in some order.
#[verifier::external_body]
fn shuffle_strings(files: &mut Vec<String>)
    ensures
        final(files)@.len() == old(files)@.len(),
        final(files)@.to_multiset() == old(files)@.to_multiset(),
{
    files.shuffle(&mut rand::rng());
}

/// An ordered list of video file paths plus a cursor into it. A fresh
/// playlist asks for discovery before it can hand out a path.
pub struct Playlist {
    path: String,
    files: Vec<String>,
    index: usize,
}

impl Playlist {
    /// The directory this playlist draws from.
    pub closed spec fn spec_path(self) -> Seq<char> {
        self.path@
    }

    /// The current list of video file paths.
    pub closed spec fn spec_files(self) -> Seq<String> {
        self.files@
    }

    /// The cursor: how many paths of the current list were handed out.
    pub closed spec fn spec_index(self) -> usize {
        self.index
    }

    /// Whether the cursor has run off the list, so the next advance must be
    /// preceded by a (re-)discovery of the directory.
    pub open spec fn spec_needs_discovery(self) -> bool {
        self.spec_index() >= self.spec_files().len()
    }

    /// A fresh playlist over a directory: no files yet, and a cursor that
    /// forces discovery before the first advance.
    pub fn from_dir(path: &str) -> (p: Playlist)
        ensures
            p.spec_path() == path@,
            p.spec_files().len() == 0,
            p.spec_index() == usize::MAX,
            p.spec_needs_discovery(),
    {
        Playlist { path: String::from_str(path), files: Vec::new(), index: usize::MAX }
    }

    /// The playlist's directory, for the caller that lists it.
    pub fn path(&self) -> (r: &String)
        ensures
            r@ == self.spec_path(),
    {
        &self.path
    }

    /// How many files the current list holds.
    pub fn file_count(&self) -> (n: usize)
        ensures
            n == self.spec_files().len(),
    {
        self.files.len()
    }

    /// Whether the next advance needs a fresh directory listing first.
    pub fn needs_discovery(&self) -> (r: bool)
        ensures
            r == self.spec_needs_discovery(),
    {
        self.index >= self.files.len()
    }

    /// Replaces the list with the candidate video files among the given
    /// directory entries — those with the video suffix, in directory order,
    /// optionally shuffled — and resets the cursor. The directory is not
    /// assumed stable: each discovery starts from the entries given now.
    pub fn apply_discovery(&mut self, entries: Vec<String>, shuffle: bool)
        ensures
            final(self).spec_path() == old(self).spec_path(),
            final(self).spec_index() == 0,
            final(self).spec_files().len() == matching(entries@).len(),
            final(self).spec_files().to_multiset() == matching(entries@).to_multiset(),
            !shuffle ==> final(self).spec_files() == matching(entries@),
    {
        let mut files: Vec<String> = Vec::new();
        let mut i: usize = 0;
        while i < entries.len()
            invariant
                i <= entries@.len(),
                files@ == matching(entries@.take(i as int)),
            decreases entries@.len() - i,
        {
            let keep = str_ends_with(&entries[i], ".bgr565be");
            if keep {
                files.push(entries[i].clone());
            }
            proof {
                assert(entries@.take(i + 1).drop_last() =~= entries@.take(i as int));
                assert(entries@.take(i + 1).last() == entries@[i as int]);
            }
            i = i + 1;
        }
        proof {
            assert(entries@.take(entries@.len() as int) =~= entries@);
        }
        if shuffle {
            shuffle_strings(&mut files);
        }
        self.files = files;
        self.index = 0;
    }

    /// Hands out the path at the cursor and advances it; an empty list
    /// fails with `EmptyPlaylist` and changes nothing, so the next advance
    /// re-discovers again. The caller discovers first whenever
    /// `needs_discovery` says so.
    pub fn next_path(&mut self) -> (r: Result<String, PlaybackError>)
        requires
            old(self).spec_index() < old(self).spec_files().len() || old(self).spec_files().len()
                == 0,
        ensures
            final(self).spec_path() == old(self).spec_path(),
            final(self).spec_files() == old(self).spec_files(),
            old(self).spec_files().len() == 0 ==> (r matches Err(PlaybackError::EmptyPlaylist)
                && final(self).spec_index() == old(self).spec_index()),
            old(self).spec_files().len() > 0 ==> (r matches Ok(p)
                && p == old(self).spec_files()[old(self).spec_index() as int]
                && final(self).spec_index() == old(self).spec_index() + 1),
    {
        if self.files.len() == 0 {
            return Err(PlaybackError::EmptyPlaylist);
        }
        let p = self.files[self.index].clone();
        self.index = self.index + 1;
        Ok(p)
    }
}

/// The playlist protocol over a static directory, as one step function: the
/// state is the file list and cursor; a step re-discovers (filters the same
/// entries afresh, in directory order) exactly when the cursor has run off
/// the list, then hands out the file at the cursor and advances, or reports
/// an empty list.
pub open spec fn step_state(entries: Seq<String>, files: Seq<String>, index: int) -> (
    Seq<String>,
    int,
) {
    let files2 = if index >= files.len() {
        matching(entries)
    } else {
        files
    };
    let index2: int = if index >= files.len() {
        0
    } else {
        index
    };
    if files2.len() == 0 {
        (files2, index2)
    } else {
        (files2, index2 + 1)
    }
}

/// What one protocol step hands out.
pub open spec fn step_output(entries: Seq<String>, files: Seq<String>, index: int) -> Option<
    String,
> {
    let files2 = if index >= files.len() {
        matching(entries)
    } else {
        files
    };
    let index2: int = if index >= files.len() {
        0
    } else {
        index
    };
    if files2.len() == 0 {
        None
    } else {
        Some(files2[index2])
    }
}

/// Whether one protocol step re-discovers the directory.
pub open spec fn step_rediscovers(files: Seq<String>, index: int) -> bool {
    index >= files.len()
}

/// The playlist state after `k` advances from a fresh playlist.
pub open spec fn run_state(entries: Seq<String>, k: nat) -> (Seq<String>, int)
    decreases k,
{
    if k == 0 {
        (Seq::empty(), 0)
    } else {
        let prev = run_state(entries, (k - 1) as nat);
        step_state(entries, prev.0, prev.1)
    }
}

/// Over a non-empty, static directory the playlist is cyclic: advance `k`
/// hands out candidate file `k mod n` (of `n` candidates, in directory
/// order), re-discovery happens exactly at the start of each cycle — once
/// per `n` advances — and so advance `n` returns to the first file.
pub proof fn lemma_playlist_cycle(entries: Seq<String>, k: nat)
    requires
        matching(entries).len() > 0,
    ensures
        ({
            let m = matching(entries);
            let n = m.len() as int;
            let s = run_state(entries, k);
            &&& step_output(entries, s.0, s.1) == Some(m[(k as int) % n])
            &&& (step_rediscovers(s.0, s.1) <==> (k as int) % n == 0)
            &&& run_state(entries, (k + 1) as nat) == (m, (k as int) % n + 1)
        }),
    decreases k,
{
    let m = matching(entries);
    let n = m.len() as int;
    if k == 0 {
        lemma_small_mod(0nat, m.len());
        assert(run_state(entries, 1nat) == step_state(entries, Seq::<String>::empty(), 0));
    } else {
        lemma_playlist_cycle(entries, (k - 1) as nat);
        let j = ((k - 1) as int) % n;
        lemma_mod_bound((k - 1) as int, n);
        lemma_fundamental_div_mod((k - 1) as int, n);
        let q = ((k - 1) as int) / n;
        assert(run_state(entries, k) == (m, j + 1));
        if j + 1 == n {
            assert((k as int) == (q + 1) * n + 0) by (nonlinear_arith)
                requires
                    (k - 1) as int == q * n + j,
                    j + 1 == n,
            ;
            lemma_fundamental_div_mod_converse(k as int, n, q + 1, 0);
        } else {
            lemma_fundamental_div_mod_converse(k as int, n, q, j + 1);
        }
    }
}

} // verus!
