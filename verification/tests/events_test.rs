use webp2jpg::events::{paths_to_convert, EventKind, WatchEvent};

fn v(s: &[u8]) -> Vec<u8> {
    s.to_vec()
}

#[test]
fn create_event_selects_only_webp_paths() {
    let ev = WatchEvent {
        kind: EventKind::Create,
        paths: vec![
            v(b"/d/a.webp"),
            v(b"/d/b.png"),
            v(b"/d/c.WEBP"),
            v(b"/d/d.jpeg"),
        ],
    };
    let selected = paths_to_convert(&ev);
    assert_eq!(selected, vec![v(b"/d/a.webp"), v(b"/d/c.WEBP")]);
}

#[test]
fn modify_event_selects_webp_paths() {
    let ev = WatchEvent {
        kind: EventKind::Modify,
        paths: vec![v(b"/d/a.webp")],
    };
    assert_eq!(paths_to_convert(&ev), vec![v(b"/d/a.webp")]);
}

#[test]
fn other_event_selects_nothing() {
    let ev = WatchEvent {
        kind: EventKind::Other,
        paths: vec![v(b"/d/a.webp")],
    };
    assert!(paths_to_convert(&ev).is_empty());
}

#[test]
fn non_webp_files_trigger_no_conversion() {
    let ev = WatchEvent {
        kind: EventKind::Create,
        paths: vec![v(b"/d/a.png"), v(b"/d/b.jpeg"), v(b"/d/c.gif")],
    };
    assert!(paths_to_convert(&ev).is_empty());
}

#[test]
fn selection_keeps_arrival_order() {
    let ev = WatchEvent {
        kind: EventKind::Create,
        paths: vec![v(b"/d/z.webp"), v(b"/d/a.webp"), v(b"/d/m.webp")],
    };
    assert_eq!(
        paths_to_convert(&ev),
        vec![v(b"/d/z.webp"), v(b"/d/a.webp"), v(b"/d/m.webp")]
    );
}
