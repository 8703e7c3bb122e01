use simple_synth::bank::{Bank, Update};
use simple_synth::render::RenderLoop;
use simple_synth::waveform::Waveform;

#[derive(Clone, Copy, Debug, PartialEq)]
struct Config {
    frequency: f32,
    amplitude: f32,
    waveform: Waveform,
    speed: f32,
    phase: f32,
}

fn config(frequency: f32, waveform: Waveform) -> Config {
    Config { frequency, amplitude: 0.1, waveform, speed: 1.0, phase: 0.0 }
}

fn seeded() -> Bank<Config> {
    Bank::new(vec![
        config(440.0, Waveform::Sine),
        config(550.0, Waveform::Square),
        config(660.0, Waveform::Sawtooth),
    ])
}

fn contents(bank: &Bank<Config>) -> Vec<Config> {
    (0..bank.len()).map(|i| *bank.get(i)).collect()
}

#[test]
fn new_bank_keeps_seed_order() {
    let bank = seeded();
    assert_eq!(bank.len(), 3);
    assert_eq!(bank.get(1).frequency, 550.0);
}

#[test]
fn replace_changes_only_the_addressed_oscillator() {
    let mut bank = seeded();
    let before = contents(&bank);
    let new = Config { frequency: 20.0, amplitude: 0.5, waveform: Waveform::Sawtooth, speed: 2.0, phase: 0.25 };
    bank.apply(Update { index: 1, config: new });
    assert_eq!(bank.len(), 3);
    assert_eq!(*bank.get(1), new);
    assert_eq!(*bank.get(0), before[0]);
    assert_eq!(*bank.get(2), before[2]);
}

#[test]
fn index_at_length_appends() {
    let mut bank = seeded();
    let new = config(100.0, Waveform::Square);
    bank.apply(Update { index: 3, config: new });
    assert_eq!(bank.len(), 4);
    assert_eq!(*bank.get(3), new);
}

#[test]
fn far_out_of_range_index_appends_without_gap() {
    let mut bank = seeded();
    let before = contents(&bank);
    let new = config(100.0, Waveform::Square);
    bank.apply(Update { index: bank.len() + 100, config: new });
    assert_eq!(bank.len(), 4);
    assert_eq!(*bank.get(3), new);
    assert_eq!(contents(&bank)[..3], before[..]);
}

#[test]
fn last_write_wins_within_a_batch() {
    let mut bank = seeded();
    let first = config(1.0, Waveform::Sine);
    let second = config(2.0, Waveform::Square);
    bank.apply_all(vec![Update { index: 0, config: first }, Update { index: 0, config: second }]);
    assert_eq!(bank.len(), 3);
    assert_eq!(*bank.get(0), second);
}

#[test]
fn last_write_wins_for_an_append_at_the_end() {
    let mut bank = seeded();
    let first = config(1.0, Waveform::Sine);
    let second = config(2.0, Waveform::Square);
    bank.apply_all(vec![Update { index: 3, config: first }, Update { index: 3, config: second }]);
    assert_eq!(bank.len(), 4);
    assert_eq!(*bank.get(3), second);
}

#[test]
fn far_index_twice_appends_twice() {
    let mut bank = seeded();
    let first = config(1.0, Waveform::Sine);
    let second = config(2.0, Waveform::Square);
    bank.apply_all(vec![Update { index: 103, config: first }, Update { index: 103, config: second }]);
    assert_eq!(bank.len(), 5);
    assert_eq!(*bank.get(3), first);
    assert_eq!(*bank.get(4), second);
}

#[test]
fn empty_batch_leaves_bank_alone() {
    let mut bank = seeded();
    let before = contents(&bank);
    bank.apply_all(Vec::new());
    assert_eq!(contents(&bank), before);
}

#[test]
fn get_mut_writes_through() {
    let mut bank = seeded();
    bank.get_mut(2).phase = 0.5;
    assert_eq!(bank.get(2).phase, 0.5);
    assert_eq!(bank.get(1).phase, 0.0);
}

#[test]
fn render_loop_applies_pending_updates_in_order() {
    let (tx, rx) = flume::unbounded();
    let mut render = RenderLoop::new(seeded(), rx);
    tx.send(Update { index: 0, config: config(1.0, Waveform::Sine) }).unwrap();
    tx.send(Update { index: 0, config: config(2.0, Waveform::Square) }).unwrap();
    tx.send(Update { index: 9, config: config(3.0, Waveform::Sawtooth) }).unwrap();
    assert_eq!(render.apply_pending(), 3);
    let bank = render.bank();
    assert_eq!(bank.len(), 4);
    assert_eq!(*bank.get(0), config(2.0, Waveform::Square));
    assert_eq!(*bank.get(3), config(3.0, Waveform::Sawtooth));
}

#[test]
fn render_loop_with_empty_channel_changes_nothing() {
    let (_tx, rx) = flume::unbounded();
    let mut render = RenderLoop::new(seeded(), rx);
    assert_eq!(render.apply_pending(), 0);
    assert_eq!(contents(render.bank()), contents(&seeded()));
}

#[test]
fn render_loop_drains_after_senders_are_gone() {
    let (tx, rx) = flume::unbounded();
    let mut render = RenderLoop::new(seeded(), rx);
    tx.send(Update { index: 1, config: config(7.0, Waveform::Sine) }).unwrap();
    drop(tx);
    assert_eq!(render.apply_pending(), 1);
    assert_eq!(render.apply_pending(), 0);
    assert_eq!(*render.bank().get(1), config(7.0, Waveform::Sine));
}

#[test]
fn render_loop_applies_a_given_batch() {
    let (_tx, rx) = flume::unbounded();
    let mut render = RenderLoop::new(seeded(), rx);
    render.apply_batch(vec![Update { index: 2, config: config(5.0, Waveform::Square) }]);
    assert_eq!(*render.bank().get(2), config(5.0, Waveform::Square));
    render.bank_mut().get_mut(0).amplitude = 0.75;
    assert_eq!(render.bank().get(0).amplitude, 0.75);
}
