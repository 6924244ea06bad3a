use tug_of_war::buttons::{Button, ButtonState};
use tug_of_war::dispatch::{on_edge, on_loop_done, on_tick, Device};
use tug_of_war::display::DisplayOp;
use tug_of_war::game::Game;
use tug_of_war::mutex::Mutex;
use tug_of_war::sound::{AudioCmd, Note, Sound, Wave};

fn device() -> Device {
    Device { buttons: ButtonState::new(), sound: Sound::init() }
}

#[test]
fn tick_skipped_until_device_is_there() {
    critical_section::with(|cs| {
        let mut game = Mutex::new(Game::new());
        let mut dev = <Mutex<Device>>::new_uinit();
        assert!(on_tick(cs, &mut game, &mut dev, 0).is_none());
        dev.init(cs, device());
        let (ops, audio) = on_tick(cs, &mut game, &mut dev, 0).unwrap();
        assert_eq!(ops, vec![DisplayOp::ShowPx(0, 2)]);
        assert!(audio.is_empty());
        let g = game.try_lock(cs).unwrap();
        assert!(matches!(*g, Game::IdleAnimation { cnt: 0, .. }));
    });
}

#[test]
fn tick_skipped_while_game_is_locked() {
    critical_section::with(|cs| {
        let mut game = Mutex::new(Game::new());
        let mut dev = Mutex::new(device());
        std::mem::forget(game.try_lock(cs).unwrap());
        assert!(on_tick(cs, &mut game, &mut dev, 0).is_none());
        assert!(dev.try_lock(cs).is_some());
    });
}

#[test]
fn tick_skipped_for_out_of_range_game() {
    critical_section::with(|cs| {
        let mut game = Mutex::new(Game::ReadyAnimation { count_down: 0, cnt: 0 });
        let mut dev = Mutex::new(device());
        assert!(on_tick(cs, &mut game, &mut dev, 0).is_none());
    });
}

#[test]
fn edges_reach_the_game() {
    critical_section::with(|cs| {
        let mut game = Mutex::new(Game::new());
        let mut dev = Mutex::new(device());
        assert!(on_edge(cs, &mut dev, true, false, false, true));
        {
            let d = dev.try_lock(cs).unwrap();
            assert!(d.buttons.both_pressed());
            assert_eq!(d.buttons.last_edge(), Button::A);
        }
        on_tick(cs, &mut game, &mut dev, 0).unwrap();
        let g = game.try_lock(cs).unwrap();
        assert!(matches!(*g, Game::ReadyAnimation { count_down: 3, cnt: 0 }));
    });
}

#[test]
fn loop_done_walks_the_track() {
    critical_section::with(|cs| {
        let mut dev = Mutex::new(device());
        assert_eq!(on_loop_done(cs, &mut dev), Some(vec![]));
        {
            let mut d = dev.try_lock(cs).unwrap();
            d.sound.play_track(vec![Note { wave: Wave::Si, t_ms: 500 }]);
        }
        assert_eq!(on_loop_done(cs, &mut dev), Some(vec![AudioCmd::Stop, AudioCmd::Disconnect]));
        let mut empty = <Mutex<Device>>::new_uinit();
        assert_eq!(on_loop_done(cs, &mut empty), None);
        assert!(!on_edge(cs, &mut empty, true, true, false, false));
    });
}
