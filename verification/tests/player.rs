use std::cell::RefCell;
use std::rc::Rc;

use oled_player::display::{DigitalOutput, Display, TransferError, Transport, TransportError};
use oled_player::player::Player;
use oled_player::playlist::PlaybackError;
use oled_player::video::FRAME_SIZE;

/// What went over the wire: select-line changes and byte chunks.
#[derive(Clone, Debug, PartialEq)]
enum Event {
    Level(bool),
    Chunk(Vec<u8>),
}

#[derive(Clone)]
struct Wire(Rc<RefCell<Vec<Event>>>);

impl Wire {
    fn new() -> Wire {
        Wire(Rc::new(RefCell::new(Vec::new())))
    }

    fn take(&self) -> Vec<Event> {
        std::mem::take(&mut *self.0.borrow_mut())
    }
}

struct FakeTransport(Wire);

impl Transport for FakeTransport {
    fn write_bytes(&mut self, data: &[u8]) -> Result<(), TransportError> {
        self.0 .0.borrow_mut().push(Event::Chunk(data.to_vec()));
        Ok(())
    }
}

struct FakeSelect(Wire);

impl DigitalOutput for FakeSelect {
    fn set_level(&mut self, high: bool) -> Result<(), TransportError> {
        self.0 .0.borrow_mut().push(Event::Level(high));
        Ok(())
    }
}

fn new_display(wire: &Wire) -> Display<FakeTransport, FakeSelect> {
    Display::new(FakeTransport(wire.clone()), FakeSelect(wire.clone()), 128, 128)
        .expect("a fake wire never fails")
}

fn pattern(len: usize, salt: usize) -> Vec<u8> {
    (0..len).map(|i| ((i + salt) % 251) as u8).collect()
}

/// The start-up command sequence for a 128 x 128 panel, opcode and
/// parameter bytes, in issue order.
fn expected_startup() -> Vec<(u8, Vec<u8>)> {
    vec![
        (0xfd, vec![0x12]),
        (0xfd, vec![0xb1]),
        (0xae, vec![]),
        (0xb3, vec![0xf1]),
        (0xca, vec![0x7f]),
        (0x15, vec![0, 127]),
        (0x75, vec![0, 127]),
        (0xa0, vec![0x30]),
        (0xa1, vec![0]),
        (0xa2, vec![0]),
        (0xb5, vec![0]),
        (0xab, vec![1]),
        (0xb1, vec![0x32]),
        (0xb4, vec![0xa1, 0xb5, 0x55]),
        (0xbe, vec![0x05]),
        (0xc7, vec![0x0f]),
        (0xbb, vec![0x01]),
        (0xa6, vec![]),
        (0xc1, vec![0xff, 0xff, 0xff]),
        (0xaf, vec![]),
        (0x5c, vec![]),
    ]
}

#[test]
fn construction_sends_exactly_the_startup_sequence() {
    let wire = Wire::new();
    let _display = new_display(&wire);
    let mut expected: Vec<Event> = Vec::new();
    for (op, params) in expected_startup() {
        expected.push(Event::Level(false));
        expected.push(Event::Chunk(vec![op]));
        if !params.is_empty() {
            expected.push(Event::Level(true));
            expected.push(Event::Chunk(params));
        }
    }
    assert_eq!(wire.take(), expected);
}

#[test]
fn render_sends_one_data_chunk_of_the_whole_frame() {
    let wire = Wire::new();
    let mut display = new_display(&wire);
    wire.take();
    let frame = pattern(FRAME_SIZE, 7);
    display.render(&frame).unwrap();
    assert_eq!(wire.take(), vec![Event::Level(true), Event::Chunk(frame)]);
}

/// One playback advance, the way the playback loop drives a player over a
/// fixed in-memory directory: discover and load when needed, then render.
fn advance<T: Transport, D: DigitalOutput>(
    player: &mut Player<T, D>,
    dir: &[(&str, Vec<u8>)],
    rediscoveries: &mut usize,
) {
    if player.needs_video() {
        if player.playlist_needs_discovery() {
            let names: Vec<String> = dir.iter().map(|(n, _)| n.to_string()).collect();
            player.apply_discovery(names, false);
            *rediscoveries += 1;
        }
        let path = player.next_video_path().expect("the directory is not empty");
        let data = dir
            .iter()
            .find(|(n, _)| *n == path)
            .expect("the playlist only hands out discovered paths")
            .1
            .clone();
        player.load_video(data).expect("the fixture files are whole frames");
    }
    player.render_next_frame().expect("a fake wire never fails");
}

fn rendered_payload(events: Vec<Event>) -> Vec<u8> {
    assert_eq!(events.len(), 2, "one render is one level change and one chunk");
    assert_eq!(events[0], Event::Level(true));
    match &events[1] {
        Event::Chunk(data) => data.clone(),
        other => panic!("expected a chunk, got {:?}", other),
    }
}

#[test]
fn cursor_resets_exactly_at_the_video_boundary() {
    // A three-frame video followed by another video: four advances render
    // frames 0, 1, 2, then frame 0 of the next video — never frame 3.
    let a = pattern(3 * FRAME_SIZE, 0);
    let b = pattern(2 * FRAME_SIZE, 100);
    let dir = [("a.bgr565be", a.clone()), ("b.bgr565be", b.clone())];
    let wire = Wire::new();
    let mut player = Player::new(new_display(&wire), "/videos/1");
    let mut rediscoveries = 0;
    let mut payloads: Vec<Vec<u8>> = Vec::new();
    for _ in 0..4 {
        wire.take();
        advance(&mut player, &dir, &mut rediscoveries);
        payloads.push(rendered_payload(wire.take()));
    }
    assert_eq!(payloads[0], a[0..FRAME_SIZE].to_vec());
    assert_eq!(payloads[1], a[FRAME_SIZE..2 * FRAME_SIZE].to_vec());
    assert_eq!(payloads[2], a[2 * FRAME_SIZE..3 * FRAME_SIZE].to_vec());
    assert_eq!(payloads[3], b[0..FRAME_SIZE].to_vec());
}

#[test]
fn single_file_directory_loops_through_the_file() {
    // End to end: a 128 x 128, two-bytes-per-pixel, three-frame file in a
    // directory of its own; five advances render exactly the file's byte
    // ranges [0, 32768), [32768, 65536), [65536, 98304), [0, 32768),
    // [32768, 65536), in that order.
    let file = pattern(3 * FRAME_SIZE, 13);
    let dir = [("only.bgr565be", file.clone())];
    let wire = Wire::new();
    let mut player = Player::new(new_display(&wire), "/videos/2");
    let mut rediscoveries = 0;
    let mut payloads: Vec<Vec<u8>> = Vec::new();
    for _ in 0..5 {
        wire.take();
        advance(&mut player, &dir, &mut rediscoveries);
        payloads.push(rendered_payload(wire.take()));
    }
    assert_eq!(payloads.len(), 5);
    assert_eq!(payloads[0], file[0..32768].to_vec());
    assert_eq!(payloads[1], file[32768..65536].to_vec());
    assert_eq!(payloads[2], file[65536..98304].to_vec());
    assert_eq!(payloads[3], file[0..32768].to_vec());
    assert_eq!(payloads[4], file[32768..65536].to_vec());
    assert_eq!(rediscoveries, 2); // at the start, then exactly once at the wrap
}

/// A transport that can be made to fail between calls.
struct FlakyTransport {
    wire: Wire,
    fail: Rc<RefCell<bool>>,
}

impl Transport for FlakyTransport {
    fn write_bytes(&mut self, data: &[u8]) -> Result<(), TransportError> {
        if *self.fail.borrow() {
            return Err(TransportError::SPIError(std::io::Error::new(
                std::io::ErrorKind::Other,
                "wire broke",
            )));
        }
        self.wire.0.borrow_mut().push(Event::Chunk(data.to_vec()));
        Ok(())
    }
}

#[test]
fn display_failure_is_reported_and_does_not_advance_the_cursor() {
    let file = pattern(2 * FRAME_SIZE, 3);
    let dir = [("v.bgr565be", file.clone())];
    let wire = Wire::new();
    let fail = Rc::new(RefCell::new(false));
    let display = Display::new(
        FlakyTransport { wire: wire.clone(), fail: fail.clone() },
        FakeSelect(wire.clone()),
        128,
        128,
    )
    .unwrap();
    let mut player = Player::new(display, "/videos/5");
    let mut rediscoveries = 0;
    wire.take();
    advance(&mut player, &dir, &mut rediscoveries);
    assert_eq!(rendered_payload(wire.take()), file[0..FRAME_SIZE].to_vec());

    // The wire breaks: the advance fails with a transport error and the
    // cursor does not move.
    *fail.borrow_mut() = true;
    assert!(!player.needs_video());
    match player.render_next_frame() {
        Err(PlaybackError::TransferError(TransferError::SPIError(_))) => (),
        other => panic!("expected a fatal transport error, got {:?}", other),
    }

    // After the wire heals, the same frame is rendered — nothing was
    // skipped by the failure.
    *fail.borrow_mut() = false;
    wire.take();
    advance(&mut player, &dir, &mut rediscoveries);
    assert_eq!(rendered_payload(wire.take()), file[FRAME_SIZE..2 * FRAME_SIZE].to_vec());
}

#[test]
fn corrupted_file_is_reported_and_does_not_replace_the_video() {
    let wire = Wire::new();
    let mut player = Player::new(new_display(&wire), "/videos/3");
    player.apply_discovery(vec!["bad.bgr565be".to_string()], false);
    let path = player.next_video_path().unwrap();
    assert_eq!(path, "bad.bgr565be");
    assert!(player.load_video(pattern(FRAME_SIZE - 1, 0)).is_err());
    assert!(player.needs_video());
}

#[test]
fn empty_directory_fails_with_empty_playlist() {
    let wire = Wire::new();
    let mut player = Player::new(new_display(&wire), "/videos/4");
    player.apply_discovery(Vec::new(), false);
    match player.next_video_path() {
        Err(PlaybackError::EmptyPlaylist) => (),
        _ => panic!("an empty directory must fail with EmptyPlaylist"),
    }
}
