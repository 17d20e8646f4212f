use native_fisher::config::Configuration;
use native_fisher::controller::{decide, drop_item_ids, Command, Event, PlayerState, Stage};
use native_fisher::progress::Progress;
use native_fisher::script::FishingScript;

const IDLE: PlayerState = PlayerState { moving: false, animating: false };
const MOVING: PlayerState = PlayerState { moving: true, animating: false };
const ANIMATING: PlayerState = PlayerState { moving: false, animating: true };

fn ready_script() -> FishingScript {
    let mut s = FishingScript::new();
    s.on_start(1_000, 50);
    s.configuration.complete_editing();
    s
}

#[test]
fn default_configuration() {
    let c = Configuration::default();
    assert_eq!(c.spot_action, "Net");
    assert_eq!(c.spot_name, "Fishing spot");
    assert!(c.editing);
}

#[test]
fn new_script_is_editing_and_not_started() {
    let s = FishingScript::new();
    assert!(s.configuration.editing);
    assert_eq!(s.progress.start_exp, 0);
    assert_eq!(s.progress.start_time_ms, 0);
    assert_eq!(s.progress.status, "");
    assert_eq!(s.stage, Stage::Idle);
}

#[test]
fn on_start_records_run() {
    let mut s = FishingScript::new();
    s.on_start(1_700_000_000_000, 1234);
    assert_eq!(s.progress.start_time_ms, 1_700_000_000_000);
    assert_eq!(s.progress.start_exp, 1234);
    assert_eq!(s.progress.status, "Started");
}

#[test]
fn editing_tick_asks_nothing() {
    let mut s = FishingScript::new();
    s.on_start(0, 10);
    assert_eq!(s.on_loop(), Command::Finish(1000));
    assert_eq!(s.stage, Stage::Idle);
    assert_eq!(s.progress.status, "Started");
    // An answer arriving outside a tick changes nothing but ends the tick.
    assert_eq!(s.on_event(Event::InventoryFull(true)), Command::Finish(100));
    assert_eq!(s.progress.status, "Started");
}

#[test]
fn editing_tick_from_any_stage() {
    let mut s = ready_script();
    assert_eq!(s.on_loop(), Command::CheckInventory);
    s.configuration.begin_editing();
    assert_eq!(s.on_loop(), Command::Finish(1000));
    assert_eq!(s.stage, Stage::Idle);
}

#[test]
fn full_inventory_drops_fish() {
    let mut s = ready_script();
    assert_eq!(s.on_loop(), Command::CheckInventory);
    assert_eq!(s.on_event(Event::InventoryFull(true)), Command::Drop(vec![317, 321, 335, 331, 359, 371]));
    assert_eq!(s.progress.status, "Dropping");
    assert_eq!(s.on_event(Event::Dropped), Command::Finish(100));
    assert_eq!(s.stage, Stage::Idle);
    assert_eq!(s.progress.status, "Dropping");
}

#[test]
fn drop_ids_are_the_six_fish() {
    assert_eq!(drop_item_ids(), vec![317, 321, 335, 331, 359, 371]);
}

#[test]
fn moving_player_is_fishing() {
    let mut s = ready_script();
    s.on_loop();
    assert_eq!(s.on_event(Event::InventoryFull(false)), Command::FindPlayer);
    assert_eq!(s.on_event(Event::Player(Some(MOVING))), Command::Finish(100));
    assert_eq!(s.progress.status, "Fishing");
    assert_eq!(s.stage, Stage::Idle);
}

#[test]
fn animating_player_is_fishing() {
    let mut s = ready_script();
    s.on_loop();
    s.on_event(Event::InventoryFull(false));
    assert_eq!(s.on_event(Event::Player(Some(ANIMATING))), Command::Finish(100));
    assert_eq!(s.progress.status, "Fishing");
}

#[test]
fn no_player_leaves_status() {
    let mut s = ready_script();
    s.on_loop();
    s.on_event(Event::InventoryFull(false));
    assert_eq!(s.on_event(Event::Player(None)), Command::Finish(100));
    assert_eq!(s.progress.status, "Started");
}

#[test]
fn no_target_leaves_status() {
    let mut s = ready_script();
    s.on_loop();
    s.on_event(Event::InventoryFull(false));
    assert_eq!(s.on_event(Event::Player(Some(IDLE))), Command::FindTarget("Fishing spot".to_string()));
    assert_eq!(s.on_event(Event::TargetFound(false)), Command::Finish(100));
    assert_eq!(s.progress.status, "Started");
}

#[test]
fn failed_interaction_stays_interacting() {
    let mut s = ready_script();
    s.on_loop();
    s.on_event(Event::InventoryFull(false));
    s.on_event(Event::Player(Some(IDLE)));
    assert_eq!(s.on_event(Event::TargetFound(true)), Command::Interact("Net".to_string()));
    assert_eq!(s.progress.status, "Interacting");
    assert_eq!(s.on_event(Event::Interacted(false)), Command::Finish(100));
    assert_eq!(s.progress.status, "Interacting");
}

#[test]
fn configured_strings_reach_the_host() {
    let mut s = ready_script();
    s.configuration.spot_name = "Rod Fishing spot".to_string();
    s.configuration.spot_action = "Lure".to_string();
    s.on_loop();
    s.on_event(Event::InventoryFull(false));
    assert_eq!(s.on_event(Event::Player(Some(IDLE))), Command::FindTarget("Rod Fishing spot".to_string()));
    assert_eq!(s.on_event(Event::TargetFound(true)), Command::Interact("Lure".to_string()));
}

fn interacted_script() -> FishingScript {
    let mut s = ready_script();
    s.on_loop();
    s.on_event(Event::InventoryFull(false));
    s.on_event(Event::Player(Some(IDLE)));
    s.on_event(Event::TargetFound(true));
    assert_eq!(s.on_event(Event::Interacted(true)), Command::PollPlayer(0));
    s
}

#[test]
fn successful_interaction_waits_early_exit() {
    let mut s = interacted_script();
    assert_eq!(s.on_event(Event::Polled(IDLE)), Command::PollPlayer(100));
    assert_eq!(s.on_event(Event::Polled(IDLE)), Command::PollPlayer(100));
    // The player starts moving: the first wait ends.
    assert_eq!(s.on_event(Event::Polled(MOVING)), Command::PollPlayer(0));
    assert_eq!(s.stage, Stage::AwaitFinish { waited_ms: 0 });
    assert_eq!(s.on_event(Event::Polled(ANIMATING)), Command::PollPlayer(100));
    // The player stops animating: the tick ends.
    assert_eq!(s.on_event(Event::Polled(IDLE)), Command::Finish(100));
    assert_eq!(s.progress.status, "Interacting");
    assert_eq!(s.stage, Stage::Idle);
}

#[test]
fn start_wait_gives_up_after_6000_ms() {
    let mut s = interacted_script();
    let mut slept: u32 = 0;
    loop {
        match s.on_event(Event::Polled(IDLE)) {
            Command::PollPlayer(100) => slept += 100,
            Command::PollPlayer(0) => break,
            other => panic!("unexpected {:?}", other),
        }
    }
    assert_eq!(slept, 6000);
    assert_eq!(s.stage, Stage::AwaitFinish { waited_ms: 0 });
}

#[test]
fn finish_wait_gives_up_after_3000_ms() {
    let mut s = interacted_script();
    assert_eq!(s.on_event(Event::Polled(ANIMATING)), Command::PollPlayer(0));
    let mut slept: u32 = 0;
    loop {
        match s.on_event(Event::Polled(ANIMATING)) {
            Command::PollPlayer(100) => slept += 100,
            Command::Finish(100) => break,
            other => panic!("unexpected {:?}", other),
        }
    }
    assert_eq!(slept, 3000);
    assert_eq!(s.stage, Stage::Idle);
}

#[test]
fn unexpected_answer_ends_tick() {
    let c = Configuration::default();
    let d = decide(Stage::AwaitPlayer, &c, Event::InventoryFull(true));
    assert_eq!(d.stage, Stage::Idle);
    assert_eq!(d.status, None);
    assert_eq!(d.command, Command::Finish(100));
}

#[test]
fn experience_gained_is_difference() {
    let mut p = Progress::new();
    p.start(5_000, 1_000);
    assert_eq!(p.experience_gained(1_000), 0);
    assert_eq!(p.experience_gained(1_250), 250);
    assert_eq!(p.experience_gained(4_000), 3_000);
    assert_eq!(p.experience_gained(i32::MAX), i32::MAX as i64 - 1_000);
}

#[test]
fn experience_gained_extremes_do_not_overflow() {
    let mut p = Progress::new();
    p.start(0, i32::MIN);
    assert_eq!(p.experience_gained(i32::MAX), u32::MAX as i64);
}

#[test]
fn elapsed_from_start() {
    let mut p = Progress::new();
    p.start(10_000, 0);
    assert_eq!(p.elapsed_ms(10_000), 0);
    assert_eq!(p.elapsed_ms(13_600_000), 13_590_000);
    assert_eq!(p.elapsed_ms(9_000), 0);
}

#[test]
fn set_status_replaces_label_only() {
    let mut p = Progress::new();
    p.start(42, 7);
    p.set_status("Dropping");
    assert_eq!(p.status, "Dropping");
    assert_eq!(p.start_time_ms, 42);
    assert_eq!(p.start_exp, 7);
}

#[test]
fn toggling_editing_keeps_strings() {
    let mut c = Configuration::default();
    c.spot_action = "Cage".to_string();
    c.spot_name = "Harpoon spot".to_string();
    c.complete_editing();
    c.begin_editing();
    assert!(c.editing);
    c.complete_editing();
    assert!(!c.editing);
    assert_eq!(c.spot_action, "Cage");
    assert_eq!(c.spot_name, "Harpoon spot");
}
