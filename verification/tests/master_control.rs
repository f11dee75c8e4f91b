use pincel::coord_map::CoordMap;
use pincel::coordinate_system::XZBBox;
use pincel::master_control::{
    directive, parse_manifest_line, region_halo_bounds, region_index, regions_to_process,
    BesmSignal, Directive, InputAction, MasterControl, RegionStatus, SharedDashboardState,
    SignalAction, UserInput, IDLE_STATUS, MAX_PROJECT_QUOTA_BYTES,
};

#[test]
fn coord_map_insert_get() {
    let mut m: CoordMap<u64> = CoordMap::new();
    m.insert((1, 2), 10);
    m.insert((3, 4), 20);
    m.insert((1, 2), 30);
    assert_eq!(m.len(), 2);
    assert_eq!(m.get((1, 2)), Some(30));
    assert_eq!(m.get((9, 9)), None);
    assert!(m.contains_key((3, 4)));
    assert_eq!(m.to_vec(), vec![((1, 2), 30), ((3, 4), 20)]);
    let mut lists: CoordMap<Vec<i32>> = CoordMap::new();
    lists.push_value((0, 0), 1);
    lists.push_value((0, 0), 2);
    lists.push_value((5, 5), 3);
    assert_eq!(lists.get_ref((0, 0)), Some(&vec![1, 2]));
    assert_eq!(lists.get_ref((5, 5)), Some(&vec![3]));
}

#[test]
fn dashboard_starts_idle() {
    let s = SharedDashboardState::new();
    assert_eq!(s.regions_map.len(), 0);
    assert_eq!(s.accumulated_bytes_written, 0);
    assert!(s.log_buffer.is_empty());
    assert!(!s.is_generating);
    assert_eq!(s.status_msg, IDLE_STATUS);
    assert_eq!(s.status_at(0, 0), RegionStatus::Empty);
}

#[test]
fn log_keeps_at_most_one_hundred_lines() {
    let mut s = SharedDashboardState::new();
    for i in 0..100 {
        s.push_log(format!("line {}", i));
    }
    assert_eq!(s.log_buffer.len(), 100);
    s.push_log("line 100".to_string());
    assert_eq!(s.log_buffer.len(), 51);
    assert_eq!(s.log_buffer[0], "line 50");
    assert_eq!(s.log_buffer[50], "line 100");
}

#[test]
fn sealing_twice_counts_bytes_once() {
    let mut s = SharedDashboardState::new();
    assert!(!s.record_sealed(1, 1, 1000));
    assert!(!s.record_sealed(2, 1, 500));
    assert_eq!(s.accumulated_bytes_written, 1500);
    assert!(!s.record_sealed(1, 1, 300));
    assert_eq!(s.accumulated_bytes_written, 800);
    assert_eq!(s.status_at(1, 1), RegionStatus::Sealed);
    assert!(s.record_sealed(3, 3, MAX_PROJECT_QUOTA_BYTES - 800));
}

#[test]
fn signals_update_the_dashboard() {
    let mut c = MasterControl::new(SharedDashboardState::new());
    assert_eq!(c.handle_signal(BesmSignal::RegionProcessing(3, 4)), SignalAction::Continue);
    assert_eq!(c.state().status_at(3, 4), RegionStatus::Processing);
    assert_eq!(c.state().status_msg, "VARREDURA: r.3.4");
    assert_eq!(c.camera(), (0, 0));
    c.handle_signal(BesmSignal::RegionProcessing(40, 0));
    assert_eq!(c.camera(), (40, 0));
    c.handle_signal(BesmSignal::RegionProcessing(60, 30));
    assert_eq!(c.camera(), (40, 0));
    c.handle_signal(BesmSignal::RegionFailed(5, 5));
    assert_eq!(c.state().status_at(5, 5), RegionStatus::Corrupted);
    c.handle_signal(BesmSignal::RegionCached(6, 5));
    assert_eq!(c.state().status_at(6, 5), RegionStatus::Cached);
    c.handle_signal(BesmSignal::RegionEmpty(6, 5));
    assert_eq!(c.state().status_at(6, 5), RegionStatus::Empty);
    c.handle_signal(BesmSignal::Log("hello".to_string()));
    assert_eq!(c.state().log_buffer.last().map(|s| s.as_str()), Some("hello"));
    c.start_generation("go".to_string());
    assert!(c.state().is_generating);
    assert_eq!(c.handle_signal(BesmSignal::RegionSealed(3, 4, 77)), SignalAction::Continue);
    assert_eq!(c.state().accumulated_bytes_written, 77);
    assert_eq!(c.handle_signal(BesmSignal::GenerationComplete), SignalAction::FlushManifest);
    assert!(!c.state().is_generating);
    assert_eq!(c.state().status_msg, IDLE_STATUS);
    assert_eq!(c.handle_signal(BesmSignal::GenerationComplete), SignalAction::Continue);
}

#[test]
fn quota_signal_aborts() {
    let mut c = MasterControl::new(SharedDashboardState::new());
    assert_eq!(
        c.handle_signal(BesmSignal::RegionSealed(0, 0, MAX_PROJECT_QUOTA_BYTES)),
        SignalAction::AbortForQuota
    );
}

#[test]
fn typing_and_commands() {
    let mut c = MasterControl::new(SharedDashboardState::new());
    assert_eq!(c.handle_input(UserInput::Command("-".to_string())), InputAction::Continue);
    c.handle_input(UserInput::Command("g".to_string()));
    c.handle_input(UserInput::Command("x".to_string()));
    c.handle_input(UserInput::Command("BACKSPACE".to_string()));
    assert_eq!(
        c.handle_input(UserInput::Command("\n".to_string())),
        InputAction::Execute("-g".to_string())
    );
    assert_eq!(c.handle_input(UserInput::Command("\n".to_string())), InputAction::Execute(String::new()));
    c.handle_input(UserInput::MoveCamera(1, -1));
    assert_eq!(c.camera(), (2, -2));
    assert_eq!(c.handle_input(UserInput::Quit), InputAction::Quit);
    c.start_generation("busy".to_string());
    assert_eq!(c.handle_input(UserInput::Command("a".to_string())), InputAction::Refused);
}

#[test]
fn directives() {
    let presets = vec!["-gerar df".to_string(), "-gerar guara".to_string(), "-gerar df".to_string()];
    assert_eq!(directive("-sair", &presets), Directive::Exit);
    assert_eq!(directive("exit", &presets), Directive::Exit);
    assert_eq!(directive("-gerar df", &presets), Directive::Generate(0));
    assert_eq!(directive("-gerar guara", &presets), Directive::Generate(1));
    assert_eq!(directive("-gerar lua", &presets), Directive::Unknown);
    assert_eq!(directive("", &presets), Directive::Nothing);
}

#[test]
fn regions_of_a_box() {
    assert_eq!(region_index(0), 0);
    assert_eq!(region_index(511), 0);
    assert_eq!(region_index(512), 1);
    assert_eq!(region_index(-1), -1);
    assert_eq!(region_index(-512), -1);
    assert_eq!(region_index(-513), -2);
    let v = regions_to_process(&XZBBox::new(-1, 600, 0, 1100));
    assert_eq!(v, vec![(-1, 0), (0, 0), (1, 0), (-1, 1), (0, 1), (1, 1), (-1, 2), (0, 2), (1, 2)]);
    assert_eq!(region_halo_bounds(0, -1), (-16, 527, -528, 15));
}

#[test]
fn manifest_lines() {
    assert_eq!(parse_manifest_line("3,-4,1024"), Some((3, -4, 1024)));
    assert_eq!(parse_manifest_line("3,-4"), None);
    assert_eq!(parse_manifest_line("3,-4,1,2"), None);
    assert_eq!(parse_manifest_line("a,1,2"), None);
    assert_eq!(parse_manifest_line("1,2,-3"), None);
    assert_eq!(parse_manifest_line("1,2,"), None);
}
