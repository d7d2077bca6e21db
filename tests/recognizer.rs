use hex_caster::caster::{admits, SpellCaster, Submission, MIN_STROKE_LEN};
use hex_caster::command::{CmdHandler, Mode};
use hex_caster::keys::{dispatch, launch_report, release_report, HidStep, RELEASE_DELAY_MS};
use hex_caster::shape::{pad_to_length, SHAPE_POINTS};
use hex_caster::stroke::Spell;

fn line(n: u16) -> Spell {
    (1..=n).map(|i| (i, i)).collect()
}

#[test]
fn starts_in_learning_mode() {
    let c: SpellCaster<Spell> = SpellCaster::new();
    assert_eq!(c.mode(), Mode::Learning);
    assert_eq!(c.len(), 0);
}

#[test]
fn short_strokes_are_not_admitted() {
    assert_eq!(MIN_STROKE_LEN, 5);
    assert!(!admits(&line(0)));
    assert!(!admits(&line(4)));
    assert!(admits(&line(5)));
    assert!(admits(&line(70)));
}

#[test]
fn learning_grows_corpus_by_one() {
    let mut c: SpellCaster<Spell> = SpellCaster::new();
    let s = line(8);
    assert!(admits(&s));
    assert_eq!(c.submit(s.clone()), Submission::Learned(1));
    assert_eq!(c.len(), 1);
    let short = line(4);
    if admits(&short) {
        c.submit(short);
    }
    assert_eq!(c.len(), 1);
    assert_eq!(c.templates()[0], s);
    assert_eq!(c.submit(line(6)), Submission::Learned(2));
}

#[test]
fn casting_with_empty_corpus_does_nothing() {
    let mut c: SpellCaster<Spell> = SpellCaster::new();
    c.set_mode(Mode::Casting);
    assert_eq!(c.submit(line(9)), Submission::NoTemplates);
    assert_eq!(c.len(), 0);
}

#[test]
fn casting_asks_for_match_and_keeps_corpus() {
    let mut c: SpellCaster<Spell> = SpellCaster::new();
    c.submit(line(7));
    let h = CmdHandler::new();
    c.command(&h.handle_data(b"/cast"));
    assert_eq!(c.mode(), Mode::Casting);
    assert_eq!(c.submit(line(7)), Submission::Compare);
    assert_eq!(c.len(), 1);
    c.command(&h.handle_data(b"/learn"));
    assert_eq!(c.mode(), Mode::Learning);
    c.command(&h.handle_data(b"/greet you"));
    assert_eq!(c.mode(), Mode::Learning);
}

#[test]
fn confident_match_sends_press_then_release() {
    let press = launch_report();
    assert_eq!(press.modifier, 0x08);
    assert_eq!(press.keycodes, [0x28, 0, 0, 0, 0, 0]);
    let steps = dispatch(true, press);
    assert_eq!(steps.len(), 3);
    let sends: Vec<_> = steps
        .iter()
        .filter_map(|s| match s {
            HidStep::Send(k) => Some(*k),
            HidStep::Wait(_) => None,
        })
        .collect();
    assert_eq!(sends.len(), 2);
    match steps[0] {
        HidStep::Send(k) => {
            assert_eq!(k.modifier, 0x08);
            assert_eq!(k.keycodes, [0x28, 0, 0, 0, 0, 0]);
        }
        _ => panic!("press first"),
    }
    match steps[1] {
        HidStep::Wait(ms) => assert_eq!(ms, 250),
        _ => panic!("then wait"),
    }
    assert_eq!(RELEASE_DELAY_MS, 250);
    match steps[2] {
        HidStep::Send(k) => {
            assert_eq!(k.modifier, 0);
            assert_eq!(k.keycodes, [0; 6]);
        }
        _ => panic!("release last"),
    }
}

#[test]
fn weak_match_sends_nothing() {
    assert!(dispatch(false, launch_report()).is_empty());
}

#[test]
fn release_report_is_empty() {
    let r = release_report();
    assert_eq!(r.modifier, 0);
    assert_eq!(r.keycodes, [0; 6]);
}

#[test]
fn pad_repeats_last_point() {
    let mut v = vec![(0.0f32, 0.0f32), (1.5, 2.5)];
    pad_to_length(&mut v, SHAPE_POINTS);
    assert_eq!(v.len(), 64);
    assert_eq!(v[0], (0.0, 0.0));
    assert!(v[1..].iter().all(|p| *p == (1.5, 2.5)));
}

#[test]
fn pad_leaves_long_paths_alone() {
    let mut v: Vec<u32> = (0..70).collect();
    pad_to_length(&mut v, 64);
    assert_eq!(v, (0..70).collect::<Vec<u32>>());
    let mut w = vec![7u32; 64];
    pad_to_length(&mut w, 64);
    assert_eq!(w, vec![7u32; 64]);
}
