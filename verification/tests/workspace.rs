//! Workspaces and window titles.

use vibepanel::window_title::{WindowInfo, WindowTitleService};
use vibepanel::workspace::{
    build_snapshot, CompositorRequest, PerOutputState, Workspace, WorkspaceMeta, WorkspaceService,
    WorkspaceSnapshot,
};

fn make_meta(id: i32) -> WorkspaceMeta {
    WorkspaceMeta {
        id,
        idx: id,
        name: id.to_string(),
        output: None,
    }
}

#[test]
fn test_workspace_from_meta_no_active() {
    let snapshot = WorkspaceSnapshot::default();
    let meta = make_meta(1);

    let ws = Workspace::from_meta(&meta, &snapshot);

    assert_eq!(ws.id, 1);
    assert!(!ws.active);
    assert!(!ws.occupied);
    assert!(!ws.urgent);
}

#[test]
fn test_workspace_from_meta_single_active() {
    let mut snapshot = WorkspaceSnapshot::default();
    snapshot.active_workspace.insert(2);

    // Workspace 2 should be active
    let ws2 = Workspace::from_meta(&make_meta(2), &snapshot);
    assert!(ws2.active);

    // Workspace 1 should not be active
    let ws1 = Workspace::from_meta(&make_meta(1), &snapshot);
    assert!(!ws1.active);

    // Workspace 3 should not be active
    let ws3 = Workspace::from_meta(&make_meta(3), &snapshot);
    assert!(!ws3.active);
}

#[test]
fn test_workspace_from_meta_multiple_active() {
    // Multi-tag view: workspaces 1, 3, 5 are all active
    let mut snapshot = WorkspaceSnapshot::default();
    snapshot.active_workspace.insert(1);
    snapshot.active_workspace.insert(3);
    snapshot.active_workspace.insert(5);

    // All three should be marked active
    assert!(Workspace::from_meta(&make_meta(1), &snapshot).active);
    assert!(Workspace::from_meta(&make_meta(3), &snapshot).active);
    assert!(Workspace::from_meta(&make_meta(5), &snapshot).active);

    // Others should not be active
    assert!(!Workspace::from_meta(&make_meta(2), &snapshot).active);
    assert!(!Workspace::from_meta(&make_meta(4), &snapshot).active);
}

#[test]
fn test_workspace_from_meta_occupied_and_urgent() {
    let mut snapshot = WorkspaceSnapshot::default();
    snapshot.occupied_workspaces.insert(1);
    snapshot.occupied_workspaces.insert(2);
    snapshot.urgent_workspaces.insert(2);
    snapshot.window_counts.insert(1, 3);
    snapshot.window_counts.insert(2, 1);

    let ws1 = Workspace::from_meta(&make_meta(1), &snapshot);
    assert!(ws1.occupied);
    assert!(!ws1.urgent);
    assert_eq!(ws1.window_count, Some(3));

    let ws2 = Workspace::from_meta(&make_meta(2), &snapshot);
    assert!(ws2.occupied);
    assert!(ws2.urgent);
    assert_eq!(ws2.window_count, Some(1));

    let ws3 = Workspace::from_meta(&make_meta(3), &snapshot);
    assert!(!ws3.occupied);
    assert!(!ws3.urgent);
    assert_eq!(ws3.window_count, None);
}

#[test]
fn test_workspace_from_meta_per_output_single_active() {
    let mut snapshot = WorkspaceSnapshot::default();

    // Set up per-output state for "eDP-1"
    let mut per_output_state = PerOutputState::default();
    per_output_state.active_workspace.insert(2);
    per_output_state.occupied_workspaces.insert(2);
    per_output_state.window_counts.insert(2, 5);
    snapshot
        .per_output
        .insert("eDP-1".to_string(), per_output_state);

    // Workspace 2 should be active on eDP-1
    let ws2 = Workspace::from_meta_per_output(&make_meta(2), &snapshot, "eDP-1");
    assert!(ws2.active);
    assert!(ws2.occupied);
    assert_eq!(ws2.window_count, Some(5));

    // Workspace 1 should not be active on eDP-1
    let ws1 = Workspace::from_meta_per_output(&make_meta(1), &snapshot, "eDP-1");
    assert!(!ws1.active);
}

#[test]
fn test_workspace_from_meta_per_output_multiple_active() {
    // Multi-tag view on a specific output
    let mut snapshot = WorkspaceSnapshot::default();

    let mut per_output_state = PerOutputState::default();
    per_output_state.active_workspace.insert(1);
    per_output_state.active_workspace.insert(3);
    per_output_state.active_workspace.insert(5);
    snapshot
        .per_output
        .insert("DP-1".to_string(), per_output_state);

    // All three should be active on DP-1
    assert!(Workspace::from_meta_per_output(&make_meta(1), &snapshot, "DP-1").active);
    assert!(Workspace::from_meta_per_output(&make_meta(3), &snapshot, "DP-1").active);
    assert!(Workspace::from_meta_per_output(&make_meta(5), &snapshot, "DP-1").active);

    // Others should not be active
    assert!(!Workspace::from_meta_per_output(&make_meta(2), &snapshot, "DP-1").active);
    assert!(!Workspace::from_meta_per_output(&make_meta(4), &snapshot, "DP-1").active);
}

#[test]
fn test_workspace_from_meta_per_output_fallback_to_global() {
    // When per-output state doesn't exist, should fall back to global
    let mut snapshot = WorkspaceSnapshot::default();
    snapshot.active_workspace.insert(1);
    snapshot.occupied_workspaces.insert(1);

    // No per-output state for "HDMI-1", should use global
    let ws = Workspace::from_meta_per_output(&make_meta(1), &snapshot, "HDMI-1");
    assert!(ws.active);
    assert!(ws.occupied);
}

// ----- services -----

fn on_output(id: i32, output: &str) -> WorkspaceMeta {
    WorkspaceMeta { id, idx: id, name: id.to_string(), output: Some(output.to_string()) }
}

#[test]
fn outputs_list_their_own_workspaces() {
    let mut snapshot = WorkspaceSnapshot::default();
    let mut state = PerOutputState::default();
    state.active_workspace.insert(1);
    snapshot.per_output.insert("DP-1".to_string(), state);
    snapshot.per_output.insert("DP-2".to_string(), PerOutputState::default());
    let metas = vec![on_output(1, "DP-1"), on_output(2, "DP-2"), make_meta(3)];
    let built = build_snapshot(&metas, &snapshot);
    assert_eq!(built.workspaces.len(), 3);
    let ids = |name: &str| {
        built
            .per_output
            .get(name)
            .map(|p| p.workspaces.iter().map(|w| w.id).collect::<Vec<_>>())
    };
    assert_eq!(ids("DP-1"), Some(vec![1, 3]));
    assert_eq!(ids("DP-2"), Some(vec![2, 3]));
    assert_eq!(ids("HDMI"), None);
    assert!(built.per_output.get("DP-1").unwrap().active_workspace.contains(&1));
}

#[test]
fn workspace_listeners_are_told() {
    let mut service = WorkspaceService::new(WorkspaceSnapshot::default(), Vec::new());
    let (first, told) = service.connect();
    assert_eq!(told.map(|t| t.workspaces.len()), Some(0));
    let (ids, built) = service.handle_update(WorkspaceSnapshot::default(), vec![make_meta(1)]);
    assert_eq!(ids, vec![first]);
    assert_eq!(built.workspaces.len(), 1);
    let (second, told) = service.connect();
    assert_eq!(told.map(|t| t.workspaces.len()), Some(1));
    assert!(service.disconnect(first));
    assert!(!service.disconnect(first));
    let (ids, _) = service.handle_update(WorkspaceSnapshot::default(), Vec::new());
    assert_eq!(ids, vec![second]);
    assert!(matches!(service.switch_workspace(4), CompositorRequest::SwitchWorkspace(4)));
}

fn window(title: &str) -> WindowInfo {
    WindowInfo { title: title.to_string(), app_id: "app".to_string(), output: Some("DP-1".to_string()) }
}

#[test]
fn title_listeners_are_told() {
    let mut service = WindowTitleService::new(None);
    let (first, told) = service.connect();
    assert_eq!(told.map(|t| t.title), Some(String::new()));
    let (ids, snapshot) = service.handle_update(&window("One"));
    assert_eq!(ids, vec![first]);
    assert_eq!((snapshot.title.as_str(), snapshot.app_id.as_str()), ("One", "app"));
    assert_eq!(snapshot.output.as_deref(), Some("DP-1"));
    let (_, told) = service.connect();
    assert_eq!(told.map(|t| t.title), Some("One".to_string()));
    assert!(service.disconnect(first));
    let mut ready = WindowTitleService::new(Some(window("Two")));
    assert_eq!(ready.connect().1.map(|t| t.title), Some("Two".to_string()));
}
