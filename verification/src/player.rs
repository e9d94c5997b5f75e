//! The player: couples one display to one playlist and a current video,
//! advancing exactly one frame per invocation. The caller performs the two
//! outside capabilities — listing the playlist's directory and loading a
//! file's bytes — and hands the results in; the player makes every
//! decision: when a new video is needed, where the frame cursor stands,
//! and what reaches the display.

use vstd::prelude::*;
use crate::display::{Display, Transport, DigitalOutput, at_level};
use crate::playlist::{Playlist, PlaybackError, matching};
use crate::video::{Video, VideoError, FRAME_SIZE, frame_bytes};

verus! {

/// One display bound to one playlist, a current video, and a frame cursor.
pub struct Player<T: Transport, D: DigitalOutput> {
    display: Display<T, D>,
    playlist: Playlist,
    current_video: Option<Video>,
    current_frame: usize,
}

impl<T: Transport, D: DigitalOutput> Player<T, D> {
    /// The display this player renders to.
    pub closed spec fn spec_display(self) -> Display<T, D> {
        self.display
    }

    /// The playlist this player draws videos from.
    pub closed spec fn spec_playlist(self) -> Playlist {
        self.playlist
    }

    /// The video currently playing, if any.
    pub closed spec fn spec_current_video(self) -> Option<Video> {
        self.current_video
    }

    /// The index of the next frame to render from the current video.
    pub closed spec fn spec_current_frame(self) -> usize {
        self.current_frame
    }

    /// The display's frame length matches the video frame size, and any
    /// current video is well-formed.
    pub open spec fn wf(self) -> bool {
        &&& self.spec_display().spec_width() * self.spec_display().spec_height() * 2 == FRAME_SIZE
        &&& (self.spec_current_video() matches Some(v) ==> v.wf())
    }

    /// Whether the current video is absent or exhausted, so a new one must
    /// be loaded before the next frame can be rendered.
    pub open spec fn spec_needs_video(self) -> bool {
        match self.spec_current_video() {
            Option::None => true,
            Option::Some(v) => self.spec_current_frame() >= v.spec_frames(),
        }
    }

    /// Binds a ready display to a fresh playlist over a directory. No video
    /// is playing yet, so the first advance asks for one.
    pub fn new(display: Display<T, D>, playlist_dir: &str) -> (p: Player<T, D>)
        requires
            display.spec_width() * display.spec_height() * 2 == FRAME_SIZE,
        ensures
            p.wf(),
            p.spec_display() == display,
            p.spec_playlist().spec_path() == playlist_dir@,
            p.spec_playlist().spec_files().len() == 0,
            p.spec_playlist().spec_needs_discovery(),
            p.spec_current_video() is None,
            p.spec_current_frame() == 0,
    {
        Player {
            display,
            playlist: Playlist::from_dir(playlist_dir),
            current_video: None,
            current_frame: 0,
        }
    }

    /// Whether a new video must be loaded before the next frame.
    pub fn needs_video(&self) -> (r: bool)
        ensures
            r == self.spec_needs_video(),
    {
        match &self.current_video {
            Some(video) => self.current_frame >= video.frames(),
            None => true,
        }
    }

    /// The playlist's directory, for the caller that lists it.
    pub fn playlist_path(&self) -> (r: &String)
        ensures
            r@ == self.spec_playlist().spec_path(),
    {
        self.playlist.path()
    }

    /// Whether the playlist needs a fresh directory listing before it can
    /// hand out the next path.
    pub fn playlist_needs_discovery(&self) -> (r: bool)
        ensures
            r == self.spec_playlist().spec_needs_discovery(),
    {
        self.playlist.needs_discovery()
    }

    /// Hands a fresh directory listing to the playlist (see
    /// `Playlist::apply_discovery`).
    pub fn apply_discovery(&mut self, entries: Vec<String>, shuffle: bool)
        ensures
            final(self).spec_display() == old(self).spec_display(),
            final(self).spec_current_video() == old(self).spec_current_video(),
            final(self).spec_current_frame() == old(self).spec_current_frame(),
            final(self).spec_playlist().spec_path() == old(self).spec_playlist().spec_path(),
            final(self).spec_playlist().spec_index() == 0,
            final(self).spec_playlist().spec_files().len() == matching(entries@).len(),
            final(self).spec_playlist().spec_files().to_multiset() == matching(
                entries@,
            ).to_multiset(),
            !shuffle ==> final(self).spec_playlist().spec_files() == matching(entries@),
    {
        self.playlist.apply_discovery(entries, shuffle);
    }

    /// Asks the playlist for the path of the next video to load (see
    /// `Playlist::next_path`).
    pub fn next_video_path(&mut self) -> (r: Result<String, PlaybackError>)
        requires
            old(self).spec_playlist().spec_index() < old(self).spec_playlist().spec_files().len()
                || old(self).spec_playlist().spec_files().len() == 0,
        ensures
            final(self).spec_display() == old(self).spec_display(),
            final(self).spec_current_video() == old(self).spec_current_video(),
            final(self).spec_current_frame() == old(self).spec_current_frame(),
            final(self).spec_playlist().spec_path() == old(self).spec_playlist().spec_path(),
            final(self).spec_playlist().spec_files() == old(self).spec_playlist().spec_files(),
            old(self).spec_playlist().spec_files().len() == 0 ==> (r matches Err(
                PlaybackError::EmptyPlaylist,
            ) && final(self).spec_playlist().spec_index() == old(self).spec_playlist().spec_index()),
            old(self).spec_playlist().spec_files().len() > 0 ==> (r matches Ok(p)
                && p == old(self).spec_playlist().spec_files()[old(self).spec_playlist().spec_index() as int] && final(self).spec_playlist().spec_index()
                == old(self).spec_playlist().spec_index() + 1),
    {
        self.playlist.next_path()
    }

    /// Makes loaded video data the current video and resets the frame
    /// cursor to its first frame — after which no new video is needed, so
    /// the next advance renders frame zero. Succeeds exactly when the data
    /// is a positive whole number of frames; otherwise the current video
    /// and cursor stay as they were and the corrupted size is reported.
    pub fn load_video(&mut self, data: Vec<u8>) -> (r: Result<(), PlaybackError>)
        requires
            old(self).wf(),
        ensures
            final(self).wf(),
            final(self).spec_display() == old(self).spec_display(),
            final(self).spec_playlist() == old(self).spec_playlist(),
            r is Ok <==> data@.len() > 0 && data@.len() as int % (FRAME_SIZE as int) == 0,
            r is Ok ==> !final(self).spec_needs_video(),
            r is Ok ==> (final(self).spec_current_video() matches Some(v) && v.contents() == data@
                && v.spec_frames() == data@.len() as int / (FRAME_SIZE as int) && final(self).spec_current_frame() == 0),
            r is Err ==> final(self).spec_current_video() == old(self).spec_current_video()
                && final(self).spec_current_frame() == old(self).spec_current_frame() && (
            r matches Err(PlaybackError::VideoError(VideoError::CorruptedFile { file_size }))
                && file_size == data@.len()),
    {
        match Video::new(data) {
            Ok(video) => {
                self.current_video = Some(video);
                self.current_frame = 0;
                Ok(())
            },
            Err(e) => Err(PlaybackError::VideoError(e)),
        }
    }

    /// Renders the frame at the cursor from the current video and advances
    /// the cursor by one — never past the video's frame count, since an
    /// exhausted video must be replaced first (`needs_video`), and a new
    /// video is asked for exactly when the advance consumed the last frame.
    /// On success the display's traffic grows by exactly that frame's bytes
    /// at data level; a display failure changes neither the traffic log nor
    /// the cursor, and is fatal to this player.
    pub fn render_next_frame(&mut self) -> (r: Result<(), PlaybackError>)
        requires
            old(self).wf(),
            !old(self).spec_needs_video(),
        ensures
            final(self).wf(),
            final(self).spec_playlist() == old(self).spec_playlist(),
            final(self).spec_display().spec_width() == old(self).spec_display().spec_width(),
            final(self).spec_display().spec_height() == old(self).spec_display().spec_height(),
            old(self).spec_current_video() matches Some(v) ==> (final(self).spec_current_video() matches Some(v2) && v2.contents() == v.contents()
                && v2.spec_frames() == v.spec_frames()),
            old(self).spec_current_video() matches Some(v) ==> (r is Ok
                ==> final(self).spec_display().traffic() == old(self).spec_display().traffic()
                + at_level(true, frame_bytes(v.contents(), old(self).spec_current_frame() as int))),
            old(self).spec_current_video() matches Some(v) ==> (r is Ok
                ==> (final(self).spec_needs_video()
                <==> old(self).spec_current_frame() + 1 >= v.spec_frames())),
            r is Ok ==> final(self).spec_current_frame() == old(self).spec_current_frame() + 1,
            r is Err ==> (r matches Err(PlaybackError::TransferError(e))
                && final(self).spec_display().traffic() == old(self).spec_display().traffic()
                && final(self).spec_current_frame() == old(self).spec_current_frame()),
    {
        let n = self.current_frame as u64;
        match self.current_video.take() {
            Some(video) => {
                let mut video = video;
                match video.read_frame(n) {
                    Ok(frame) => {
                        let rendered = self.display.render(frame.0.as_slice());
                        self.current_video = Some(video);
                        match rendered {
                            Ok(_) => {
                                self.current_frame = self.current_frame + 1;
                                Ok(())
                            },
                            Err(e) => Err(PlaybackError::TransferError(e)),
                        }
                    },
                    Err(e) => {
                        self.current_video = Some(video);
                        Err(PlaybackError::VideoError(e))
                    },
                }
            },
            None => Err(PlaybackError::EmptyPlaylist),
        }
    }
}

} // verus!
