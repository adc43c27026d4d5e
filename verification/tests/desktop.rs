use alacritree::icon::{icon_from, load_window_icon, Frame};
use alacritree::logging::{
    log_owner, prunable, session_log_name, Created, LogSearch, LogStep, Tee, RETAIN_DAYS,
    SINK_FAILED,
};
use alacritree::notify::{attention, is_click, latest_click, request_name};
use alacritree::paint_phases::{
    record_glyph_miss, summarize_phase, Phase, PhaseTotal, Totals,
};
use alacritree::paths::file_name;
use alacritree::side::Platform;

#[test]
fn a_pile_of_notification_clicks_resolves_to_the_newest() {
    let mut clicks = vec![];
    assert_eq!(latest_click(&mut clicks), None);
    clicks.push(3);
    clicks.push(7);
    clicks.push(5);
    assert_eq!(latest_click(&mut clicks), Some(5));
    // The drain consumed everything, not just the returned click.
    assert_eq!(latest_click(&mut clicks), None);
}

#[test]
fn a_notification_names_the_directory() {
    let unix = Platform::Unix;
    assert_eq!(attention(Some("/home/lev/api"), "zsh", unix), "api is waiting for input");
    assert_eq!(attention(Some("/"), "zsh", unix), "zsh is waiting for input");
    assert_eq!(attention(None, "zsh", unix), "zsh is waiting for input");
    assert_eq!(attention(None, "", unix), "Session is waiting for input");
    assert_eq!(
        attention(Some(r"C:\work\api"), "zsh", Platform::Windows),
        "api is waiting for input"
    );
    assert!(is_click("default"));
    assert!(!is_click("__closed"));
    assert_eq!(request_name(4, 12), "attention-4-12");
}

#[test]
fn the_last_name_of_a_path_is_found() {
    let unix = Platform::Unix;
    assert_eq!(file_name("/a/b/", unix), Some("b".to_string()));
    assert_eq!(file_name("/a/.", unix), Some("a".to_string()));
    assert_eq!(file_name("/a/..", unix), None);
    assert_eq!(file_name("/", unix), None);
    assert_eq!(file_name("", unix), None);
    assert_eq!(file_name(r"a\b", unix), Some(r"a\b".to_string()));
    assert_eq!(file_name(r"C:\", Platform::Windows), None);
}

/// A log the user named is never a deletion candidate.
#[test]
fn retention_leaves_a_named_log_alone() {
    assert_eq!(log_owner("keep-me.log"), None);
}

/// A full disk must degrade to a log without a file, not fail the log call.
#[test]
fn an_erroring_sink_is_dropped_without_failing_the_write() {
    let mut tee = Tee::new();
    tee.fill();
    assert_eq!(tee.mirrored(&b"hello".to_vec(), 5), Some(b"hello".to_vec()));
    assert_eq!(tee.sink_wrote(false), Some(SINK_FAILED));
    assert!(!tee.open, "the broken sink was kept");
    assert_eq!(tee.sink_wrote(false), None);
}

/// Writing the whole buffer while the stream took a part would duplicate it.
#[test]
fn a_short_write_mirrors_only_the_accepted_prefix() {
    let mut tee = Tee::new();
    assert_eq!(tee.mirrored(&b"abcdefgh".to_vec(), 3), None);
    tee.fill();
    assert_eq!(tee.mirrored(&b"abcdefgh".to_vec(), 3), Some(b"abc".to_vec()));
    assert_eq!(tee.sink_wrote(true), None);
    assert!(tee.open);
}

#[test]
fn a_dead_producers_stale_log_is_pruned() {
    let day = 86_400;
    let now = 100 * day;
    assert_eq!(log_owner("alacritree-1-0.log"), Some(0));
    assert!(prunable(false, Some(now - 10 * day), now), "a stale dead-pid log survived");
    assert!(prunable(false, Some(now - RETAIN_DAYS * day), now));
    assert!(!prunable(false, Some(now - RETAIN_DAYS * day + 1), now));
    assert!(!prunable(false, None, now));
}

#[test]
fn a_live_producers_stale_log_is_spared() {
    let now = 8_640_000;
    assert!(!prunable(true, Some(0), now), "a live process's log was deleted");
}

#[test]
fn a_log_is_known_by_its_name() {
    assert_eq!(session_log_name(1, 77, 0), "alacritree-1-77.log");
    assert_eq!(session_log_name(1, 77, 2), "alacritree-1-77-2.log");
    assert_eq!(log_owner(&session_log_name(1700000000, 4242, 3)), Some(4242));
    assert_eq!(log_owner("alacritree-1-"), None);
    assert_eq!(log_owner("alacritree--1.log"), None);
    assert_eq!(log_owner("alacritree-1-2x"), None);
    assert_eq!(log_owner("alacritree-1-4294967295"), Some(u32::MAX));
    assert_eq!(log_owner("alacritree-1-4294967296"), None);
    assert_eq!(log_owner("alacritree-99999999999999999999999-1.log"), None);
}

#[test]
fn a_taken_name_moves_on_to_the_next() {
    let (mut search, step) = LogSearch::start(5);
    assert_eq!(step, LogStep::Try(5));
    let mut first = search;
    assert_eq!(first.next(Created::Opened), LogStep::Opened { settles: true });
    assert_eq!(search.next(Created::Exists), LogStep::Try(6));
    let mut second = search;
    assert_eq!(second.next(Created::Opened), LogStep::Opened { settles: false });
    assert_eq!(second.next(Created::Failed), LogStep::GiveUp);
    for n in 0..30 {
        assert_eq!(search.next(Created::Exists), LogStep::Try(7 + n));
    }
    assert_eq!(search.next(Created::Exists), LogStep::GiveUp);
}

#[test]
fn totals_add_up_and_divide() {
    let mut totals = Totals::new();
    totals.record(Phase::Capture, 1_200_000);
    totals.record(Phase::Capture, 800_001);
    record_glyph_miss(&mut totals);
    let frame = totals.per_frame(2);
    assert_eq!(frame.capture, PhaseTotal { elapsed: 1_000_000, calls: 1 });
    assert_eq!(frame.glyph_misses, 0);
    let more = totals;
    totals.add_assign(more);
    assert_eq!(totals.capture, PhaseTotal { elapsed: 4_000_002, calls: 4 });
    assert_eq!(totals.glyph_misses, 2);
    totals.reset();
    assert_eq!(totals.capture.calls, 0);
}

#[test]
fn a_summary_leaves_out_phases_that_never_ran() {
    let mut totals = Totals::new();
    assert_eq!(totals.summary(), "miss 0");
    totals.record(Phase::Capture, 1_200_000);
    totals.record(Phase::WriteRows, 300_000);
    assert_eq!(totals.summary(), "capture 1.2ms/1 write 300µs/1 miss 0");
    totals.record(Phase::Decorations, 1);
    assert_eq!(totals.summary(), "capture 1.2ms/1 write 300µs/1 decor 1ns/1 miss 0");
    let total = PhaseTotal { elapsed: 1, calls: 2 };
    assert_eq!(summarize_phase(Phase::Capture, total, "x"), "capture x/2 ");
}

/// The bytes of a picture two pixels wide and one high.
fn picture() -> Vec<u8> {
    let mut file = Vec::new();
    {
        let mut encoder = png::Encoder::new(&mut file, 2, 1);
        encoder.set_color(png::ColorType::Rgba);
        encoder.set_depth(png::BitDepth::Eight);
        let mut writer = encoder.write_header().expect("a header");
        writer.write_image_data(&[1, 2, 3, 4, 5, 6, 7, 8]).expect("the pixels");
    }
    file
}

#[test]
fn a_picture_is_decoded() {
    let icon = load_window_icon(&picture()).expect("a picture");
    assert_eq!((icon.width, icon.height), (2, 1));
    assert_eq!(icon.rgba, vec![1, 2, 3, 4, 5, 6, 7, 8]);
}

#[test]
fn a_bad_picture_is_no_picture() {
    let error = load_window_icon(&b"not a picture".to_vec()).err().expect("an error");
    assert!(error.starts_with("failed to read window icon header: "), "{error}");
    let mut cut = picture();
    cut.truncate(45);
    let error = load_window_icon(&cut).err().expect("an error");
    assert!(error.starts_with("failed to "), "{error}");
}

#[test]
fn a_frame_gives_the_part_of_its_buffer_it_takes() {
    let frame = Frame { buffer: vec![1, 2, 3, 4, 9], used: 4, width: 1, height: 1 };
    assert_eq!(icon_from(frame).rgba, vec![1, 2, 3, 4]);
    let frame = Frame { buffer: vec![1], used: 4, width: 1, height: 1 };
    assert_eq!(icon_from(frame).rgba, vec![1]);
}
