use party_screen::codec::{compress, CompressedResource};
use party_screen::data::Pokemon;
use party_screen::gpu::Gpu;
use party_screen::input::{Button, InputFrame};
use party_screen::menu::{ExitAction, PokeAction, Style};
use party_screen::sched::Scheduler;
use party_screen::task::{AssetPack, Phase, Resumed, ScreenTask};

fn asset(data: Vec<u8>, elem: usize) -> CompressedResource {
    let len = data.len();
    let payload = compress(&data);
    CompressedResource::from_ref(payload, len, elem).expect("whole elements")
}

fn assets() -> AssetPack {
    AssetPack {
        tileset: asset(vec![0u8; 64], 32),
        pal: asset(vec![0u8; 192], 2),
        scroll_bg_map: asset(vec![0u8; 32], 2),
        mon_bg_map: asset(vec![0u8; 32], 2),
        hp_map: asset(vec![1u8; 16], 1),
        tera_sprite: asset(vec![0u8; 32], 32),
        tera_sprite_pal: asset(vec![0u8; 32], 2),
        status_sheet: asset(vec![0u8; 32], 32),
        status_pal: asset(vec![0u8; 32], 2),
        item_icon_pal: asset(vec![0u8; 32], 2),
    }
}

fn roster_item(species: u16, item: u16) -> Pokemon {
    Pokemon::new(species, false, 10, 20, 40, item, 0, false, 0, 0, vec![0xBB, 0xFF])
}

fn egg() -> Pokemon {
    Pokemon::new(412, true, 1, 1, 1, 0, 0, false, 0, 0, vec![0xBB, 0xFF])
}

fn start(roster: Vec<Pokemon>) -> (Scheduler, Gpu) {
    let mut sched = Scheduler::new();
    let gpu = Gpu::new();
    sched.set(ScreenTask::new(Style::Party, roster, 0, assets()));
    (sched, gpu)
}

fn tick(sched: &mut Scheduler, gpu: &mut Gpu, input: InputFrame) -> Resumed {
    let r = sched.step(gpu, &input);
    gpu.tick();
    r
}

fn phase_of(sched: &Scheduler) -> Option<Phase> {
    match sched.task_ref() {
        Some(t) => Some(t.phase()),
        None => None,
    }
}

fn run_to_main_loop(sched: &mut Scheduler, gpu: &mut Gpu) {
    for _ in 0..300 {
        if phase_of(sched) == Some(Phase::MainLoop) {
            return;
        }
        tick(sched, gpu, InputFrame::idle());
    }
    panic!("session never reached the interactive loop");
}

fn menu_len(sched: &Scheduler) -> usize {
    sched.task_ref().as_ref().unwrap().menu_ref().as_ref().unwrap().len()
}

#[test]
fn session_loads_three_live_entries_of_a_six_slot_layout() {
    let (mut sched, mut gpu) = start(vec![
        roster_item(10, 0),
        roster_item(11, 0),
        roster_item(12, 0),
    ]);
    assert_eq!(gpu.sprites.live_count(), 0);
    assert_eq!(gpu.windows.live_count(), 0);
    run_to_main_loop(&mut sched, &mut gpu);

    assert_eq!(menu_len(&sched), 3);
    // each entry: one primary sprite and a tera icon (no held item, no
    // status), and exactly two windows
    assert_eq!(gpu.sprites.live_count(), 6);
    assert_eq!(gpu.windows.live_count(), 6);
    assert_eq!(gpu.bgs.live_count(), 3);
    // cell tints 0-5 and the two frame banks
    assert_eq!(gpu.bg_palettes.live_count(), 8);
    // the status and tera icon banks
    assert_eq!(gpu.obj_palettes.live_count(), 2);
}

#[test]
fn session_teardown_releases_every_claim() {
    let (mut sched, mut gpu) = start(vec![
        roster_item(10, 5),
        roster_item(11, 0),
        roster_item(12, 0),
    ]);
    run_to_main_loop(&mut sched, &mut gpu);
    assert!(gpu.sprites.live_count() > 0);

    // cancel out of the screen
    tick(&mut sched, &mut gpu, InputFrame::press(Button::B));
    let mut done: Option<Resumed> = None;
    for _ in 0..100 {
        let r = tick(&mut sched, &mut gpu, InputFrame::idle());
        if r.finished.is_some() {
            done = Some(r);
            break;
        }
    }
    let done = done.expect("the exit fade ends");
    assert_eq!(done.finished, Some(ExitAction::ReturnToCaller));
    let roster = done.roster.expect("the roster comes back");
    assert_eq!(roster.len(), 3);
    assert_eq!(roster[0].species(), 10);
    assert!(!sched.is_active());

    // post-teardown live counts equal the pre-session counts
    assert_eq!(gpu.sprites.live_count(), 0);
    assert_eq!(gpu.windows.live_count(), 0);
    assert_eq!(gpu.bgs.live_count(), 0);
    assert_eq!(gpu.bg_palettes.live_count(), 0);
    assert_eq!(gpu.obj_palettes.live_count(), 0);
}

#[test]
fn session_focus_down_jumps_a_row_and_clamps_with_four_live_entries() {
    let (mut sched, mut gpu) = start(vec![
        roster_item(1, 0),
        roster_item(2, 0),
        roster_item(3, 0),
        roster_item(4, 0),
    ]);
    run_to_main_loop(&mut sched, &mut gpu);
    let t = sched.task_ref().as_ref().unwrap();
    let m = t.menu_ref().as_ref().unwrap();
    let down = InputFrame::press(Button::Down);
    // from the first cell, one press of down moves one row down
    assert_eq!(m.update_index(0, &down), 3);
    // down again clamps: with four live entries the focus stays put
    assert_eq!(m.update_index(3, &down), 3);
}

#[test]
fn session_focus_right_wraps_with_six_live_entries() {
    let (mut sched, mut gpu) = start(vec![
        roster_item(1, 0),
        roster_item(2, 0),
        roster_item(3, 0),
        roster_item(4, 0),
        roster_item(5, 0),
        roster_item(6, 0),
    ]);
    run_to_main_loop(&mut sched, &mut gpu);
    let t = sched.task_ref().as_ref().unwrap();
    let m = t.menu_ref().as_ref().unwrap();
    assert_eq!(m.update_index(5, &InputFrame::press(Button::Right)), 0);
    assert_eq!(m.update_index(0, &InputFrame::press(Button::Left)), 5);
    assert_eq!(m.update_index(0, &InputFrame::press(Button::Down)), 3);
    assert_eq!(m.update_index(3, &InputFrame::press(Button::Up)), 0);
    assert_eq!(m.update_index(2, &InputFrame::idle()), 2);
}

#[test]
fn session_action_list_is_filtered_by_item_and_egg() {
    let (mut sched, mut gpu) = start(vec![roster_item(1, 9), roster_item(2, 0), egg()]);
    run_to_main_loop(&mut sched, &mut gpu);
    let t = sched.task_ref().as_ref().unwrap();
    let m = t.menu_ref().as_ref().unwrap();

    let with_item = m.available_actions(m.entry_at(0));
    assert_eq!(
        with_item,
        vec![PokeAction::Summary, PokeAction::Switch, PokeAction::GiveItem, PokeAction::TakeItem]
    );

    // no held item: the list omits taking one
    let without_item = m.available_actions(m.entry_at(1));
    assert_eq!(
        without_item,
        vec![PokeAction::Summary, PokeAction::Switch, PokeAction::GiveItem]
    );

    // an egg can only be inspected
    let for_egg = m.available_actions(m.entry_at(2));
    assert_eq!(for_egg, vec![PokeAction::Summary]);
}

#[test]
fn session_swap_exchanges_owned_resources_and_keeps_claim_counts() {
    let (mut sched, mut gpu) = start(vec![
        roster_item(10, 0),
        roster_item(11, 7),
        roster_item(12, 0),
        roster_item(13, 0),
        roster_item(14, 0),
        roster_item(15, 0),
    ]);
    run_to_main_loop(&mut sched, &mut gpu);

    let sprites_before = gpu.sprites.live_count();
    let windows_before = gpu.windows.live_count();
    let obj_pal_before = gpu.obj_palettes.live_count();

    // focus the second cell and open its action list
    tick(&mut sched, &mut gpu, InputFrame::press(Button::Right));
    tick(&mut sched, &mut gpu, InputFrame::press(Button::A));
    assert_eq!(phase_of(&sched), Some(Phase::ActionMenu));
    // move the cursor from inspect to swap and confirm
    tick(&mut sched, &mut gpu, InputFrame::press(Button::Down));
    tick(&mut sched, &mut gpu, InputFrame::press(Button::A));
    assert_eq!(phase_of(&sched), Some(Phase::SwitchSelect));
    // pick the cell one row down and confirm
    tick(&mut sched, &mut gpu, InputFrame::press(Button::Down));
    tick(&mut sched, &mut gpu, InputFrame::press(Button::A));
    assert_eq!(phase_of(&sched), Some(Phase::SwitchAnim));
    // the slide runs a fixed number of frames, then the swap lands
    for _ in 0..21 {
        tick(&mut sched, &mut gpu, InputFrame::idle());
    }
    assert_eq!(phase_of(&sched), Some(Phase::MainLoop));

    let t = sched.task_ref().as_ref().unwrap();
    let m = t.menu_ref().as_ref().unwrap();
    // the roster items and held item icons changed cells
    assert_eq!(m.entry_at(1).poke().species(), 14);
    assert_eq!(m.entry_at(4).poke().species(), 11);
    assert_eq!(m.entry_at(1).poke().item(), None);
    assert_eq!(m.entry_at(4).poke().item(), Some(7));
    assert!(!m.entry_at(1).has_item_sprite());
    assert!(m.entry_at(4).has_item_sprite());
    // the cells keep their positions
    assert_eq!(m.entry_at(1).cell_index(), 1);
    assert_eq!(m.entry_at(4).cell_index(), 4);
    // net resource claims did not change
    assert_eq!(gpu.sprites.live_count(), sprites_before);
    assert_eq!(gpu.windows.live_count(), windows_before);
    assert_eq!(gpu.obj_palettes.live_count(), obj_pal_before);
}

#[test]
fn session_taking_the_held_item_banks_it_and_frees_its_claims() {
    let (mut sched, mut gpu) = start(vec![roster_item(21, 9)]);
    run_to_main_loop(&mut sched, &mut gpu);
    let sprites_before = gpu.sprites.live_count();
    let obj_pal_before = gpu.obj_palettes.live_count();

    tick(&mut sched, &mut gpu, InputFrame::press(Button::A));
    assert_eq!(phase_of(&sched), Some(Phase::ActionMenu));
    // cursor: inspect, swap, give, take
    tick(&mut sched, &mut gpu, InputFrame::press(Button::Down));
    tick(&mut sched, &mut gpu, InputFrame::press(Button::Down));
    tick(&mut sched, &mut gpu, InputFrame::press(Button::Down));
    let r = tick(&mut sched, &mut gpu, InputFrame::press(Button::A));
    assert_eq!(r.banked_item, Some(9));
    assert_eq!(phase_of(&sched), Some(Phase::MainLoop));

    let t = sched.task_ref().as_ref().unwrap();
    let m = t.menu_ref().as_ref().unwrap();
    assert_eq!(m.entry_at(0).poke().item(), None);
    assert!(!m.entry_at(0).has_item_sprite());
    assert_eq!(gpu.sprites.live_count(), sprites_before - 1);
    assert_eq!(gpu.obj_palettes.live_count(), obj_pal_before - 1);
}

#[test]
fn session_inspect_decides_the_exit_and_remembers_the_entry() {
    let (mut sched, mut gpu) = start(vec![roster_item(1, 0), roster_item(2, 0)]);
    run_to_main_loop(&mut sched, &mut gpu);
    tick(&mut sched, &mut gpu, InputFrame::press(Button::Right));
    tick(&mut sched, &mut gpu, InputFrame::press(Button::A));
    // confirm the first list entry: inspection
    let _ = tick(&mut sched, &mut gpu, InputFrame::press(Button::A));
    let mut done: Option<Resumed> = None;
    for _ in 0..100 {
        let r = tick(&mut sched, &mut gpu, InputFrame::idle());
        if r.finished.is_some() {
            done = Some(r);
            break;
        }
    }
    let done = done.expect("the exit fade ends");
    assert_eq!(done.finished, Some(ExitAction::OpenSummary { index: 1 }));
}

#[test]
fn session_resumes_at_the_remembered_focus_index() {
    let mut sched = Scheduler::new();
    let mut gpu = Gpu::new();
    sched.set(ScreenTask::new(
        Style::Party,
        vec![roster_item(1, 0), roster_item(2, 0), roster_item(3, 0)],
        2,
        assets(),
    ));
    run_to_main_loop(&mut sched, &mut gpu);
    let t = sched.task_ref().as_ref().unwrap();
    let m = t.menu_ref().as_ref().unwrap();
    assert_eq!(m.focused_index(), 2);

    // an index past the live entries settles on the first cell
    let mut sched2 = Scheduler::new();
    let mut gpu2 = Gpu::new();
    sched2.set(ScreenTask::new(
        Style::Party,
        vec![roster_item(1, 0), roster_item(2, 0)],
        5,
        assets(),
    ));
    run_to_main_loop(&mut sched2, &mut gpu2);
    let t2 = sched2.task_ref().as_ref().unwrap();
    let m2 = t2.menu_ref().as_ref().unwrap();
    assert_eq!(m2.focused_index(), 0);
}

#[test]
fn scheduler_never_resumes_an_absent_task() {
    let mut sched = Scheduler::new();
    let mut gpu = Gpu::new();
    assert!(!sched.is_active());
    let r = sched.step(&mut gpu, &InputFrame::idle());
    assert!(r.finished.is_none() && r.banked_item.is_none() && r.roster.is_none());
    assert!(!sched.is_active());
    assert_eq!(gpu.sprites.live_count(), 0);
}

#[test]
fn scheduler_resumes_the_task_exactly_once_per_step() {
    let (mut sched, mut gpu) = start(vec![roster_item(1, 0)]);
    for k in 1..=5u64 {
        tick(&mut sched, &mut gpu, InputFrame::idle());
        let t = sched.task_ref().as_ref().unwrap();
        assert_eq!(t.resumes(), k);
    }
}

#[test]
fn scheduler_drops_a_completed_task_and_never_resumes_it_again() {
    let (mut sched, mut gpu) = start(vec![roster_item(1, 0)]);
    run_to_main_loop(&mut sched, &mut gpu);
    tick(&mut sched, &mut gpu, InputFrame::press(Button::B));
    let mut finished = false;
    for _ in 0..100 {
        let r = tick(&mut sched, &mut gpu, InputFrame::idle());
        if r.finished.is_some() {
            finished = true;
            break;
        }
    }
    assert!(finished);
    assert!(!sched.is_active());
    // further steps find no task and do nothing
    let r = sched.step(&mut gpu, &InputFrame::idle());
    assert!(r.finished.is_none());
    assert!(!sched.is_active());
}

#[test]
fn task_wait_suspends_for_exactly_the_counted_ticks() {
    let mut gpu = Gpu::new();
    let mut task = ScreenTask::new(Style::Party, vec![roster_item(1, 0)], 0, assets());
    assert_eq!(task.phase(), Phase::Boot);
    assert_eq!(task.wait_ticks(), 0);

    // the first resume runs the reset segment at once (a zero-tick delay
    // never suspends) and suspends for one tick
    let _ = task.resume(&mut gpu, &InputFrame::idle());
    assert_eq!(task.phase(), Phase::Load);
    assert_eq!(task.wait_ticks(), 1);

    // the next resume only counts the delay down: no logic runs
    let _ = task.resume(&mut gpu, &InputFrame::idle());
    assert_eq!(task.phase(), Phase::Load);
    assert_eq!(task.wait_ticks(), 0);

    // with the counter at zero, the suspended logic continues
    let _ = task.resume(&mut gpu, &InputFrame::idle());
    assert_eq!(task.phase(), Phase::Backgrounds);
    assert_eq!(task.resumes(), 3);
}

#[test]
fn session_read_only_style_offers_inspection_alone() {
    let mut sched = Scheduler::new();
    let mut gpu = Gpu::new();
    sched.set(ScreenTask::new(
        Style::ReadOnly,
        vec![roster_item(1, 9)],
        0,
        assets(),
    ));
    run_to_main_loop(&mut sched, &mut gpu);
    let t = sched.task_ref().as_ref().unwrap();
    let m = t.menu_ref().as_ref().unwrap();
    assert_eq!(m.available_actions(m.entry_at(0)), vec![PokeAction::Summary]);
}
