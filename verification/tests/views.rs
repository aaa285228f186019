use app_work::Loadable;
use app_work::cli::Command;
use app_work::cli::GlobalArgs;
use app_work::cli::ListResourceGroupsArgs;
use app_work::cli::LogLevel;
use app_work::cli::ResourceGroupTuiArgs;
use app_work::resource_groups::ResourceGroupRecord;
use app_work::resource_groups::RoleAssignmentRecord;
use app_work::resource_groups::assignments_for_scope;
use app_work::resource_groups::group_by_resource_group;
use app_work::tui::KeyInput;
use app_work::tui::PanelView;
use app_work::tui::PrincipalKind;
use app_work::tui::PrincipalRecord;
use app_work::tui::RgListView;
use app_work::tui::Selection;
use app_work::tui::UiAction;
use app_work::tui::action_of_key;
use app_work::tui::panel_view;
use app_work::tui::principal_entries;
use app_work::tui::rg_list_view;

fn group(name: &str, scope: &str) -> ResourceGroupRecord {
    ResourceGroupRecord { name: name.to_string(), scope: scope.to_string() }
}

fn assignment(scope: &str, role_name: &str, principal_id: &str) -> RoleAssignmentRecord {
    RoleAssignmentRecord {
        scope: scope.to_string(),
        role_name: role_name.to_string(),
        principal_id: principal_id.to_string(),
        can_read: true,
    }
}

#[test]
fn debug_flag_decides_the_log_level() {
    assert_eq!(GlobalArgs { debug: true }.log_level(), LogLevel::Debug);
    assert_eq!(GlobalArgs { debug: false }.log_level(), LogLevel::Info);
    assert_eq!(GlobalArgs::default().log_level(), LogLevel::Info);
}

#[test]
fn global_args_round_trip_to_words() {
    assert_eq!(GlobalArgs { debug: true }.to_args(), vec!["--debug".to_string()]);
    assert_eq!(GlobalArgs { debug: false }.to_args(), Vec::<String>::new());
}

#[test]
fn commands_round_trip_to_words() {
    assert_eq!(
        Command::ListResourceGroups(ListResourceGroupsArgs {}).to_args(),
        vec!["list-resource-groups".to_string()],
    );
    assert_eq!(
        Command::ResourceGroupTui(ResourceGroupTuiArgs {}).to_args(),
        vec!["resource-group-tui".to_string()],
    );
    assert_eq!(ListResourceGroupsArgs {}.to_args(), Vec::<String>::new());
    assert_eq!(ResourceGroupTuiArgs {}.to_args(), Vec::<String>::new());
}

#[test]
fn assignments_are_grouped_by_matching_scope() {
    let assignments = vec![
        assignment("/subscriptions/1/resourceGroups/alpha", "Reader", "ann"),
        assignment("/subscriptions/1/resourceGroups/beta", "Owner", "bob"),
        assignment("/subscriptions/1/resourceGroups/alpha", "Owner", "cid"),
    ];
    let found = assignments_for_scope(
        &assignments,
        &"/subscriptions/1/resourceGroups/alpha".to_string(),
    );
    assert_eq!(found, vec![0, 2]);
    let none = assignments_for_scope(&assignments, &"/subscriptions/1/resourceGroups/gamma".to_string());
    assert_eq!(none, Vec::<usize>::new());

    let groups = vec![
        group("alpha", "/subscriptions/1/resourceGroups/alpha"),
        group("beta", "/subscriptions/1/resourceGroups/beta"),
        group("gamma", "/subscriptions/1/resourceGroups/gamma"),
    ];
    let grouped = group_by_resource_group(&groups, &assignments);
    assert_eq!(grouped, vec![vec![0, 2], vec![1], vec![]]);
}

#[test]
fn keys_map_to_their_actions() {
    assert_eq!(action_of_key(KeyInput::Escape), UiAction::Quit);
    assert_eq!(action_of_key(KeyInput::CharQ), UiAction::Quit);
    assert_eq!(action_of_key(KeyInput::Down), UiAction::MoveDown { steps: 1 });
    assert_eq!(action_of_key(KeyInput::Up), UiAction::MoveUp { steps: 1 });
    assert_eq!(action_of_key(KeyInput::PageDown), UiAction::MoveDown { steps: 10 });
    assert_eq!(action_of_key(KeyInput::PageUp), UiAction::MoveUp { steps: 10 });
    assert_eq!(action_of_key(KeyInput::Home), UiAction::JumpLast);
    assert_eq!(action_of_key(KeyInput::End), UiAction::JumpFirst);
    assert_eq!(action_of_key(KeyInput::Other), UiAction::NoChange);
}

#[test]
fn the_cursor_moves_and_clamps() {
    let len = 5;
    let mut sel = Selection::new();
    assert_eq!(sel.selected, None);

    assert!(!sel.handle_key(KeyInput::Down, len));
    assert_eq!(sel.selected, Some(0));

    assert!(!sel.handle_key(KeyInput::PageDown, len));
    assert_eq!(sel.selected, Some(4));

    assert!(!sel.handle_key(KeyInput::Down, len));
    assert_eq!(sel.selected, Some(4));

    assert!(!sel.handle_key(KeyInput::Up, len));
    assert_eq!(sel.selected, Some(3));

    assert!(!sel.handle_key(KeyInput::PageUp, len));
    assert_eq!(sel.selected, Some(0));

    assert!(!sel.handle_key(KeyInput::Home, len));
    assert_eq!(sel.selected, Some(4));

    assert!(!sel.handle_key(KeyInput::End, len));
    assert_eq!(sel.selected, Some(0));

    assert!(!sel.handle_key(KeyInput::Other, len));
    assert_eq!(sel.selected, Some(0));

    assert!(sel.handle_key(KeyInput::CharQ, len));
    assert_eq!(sel.selected, Some(0));

    let mut empty = Selection::new();
    assert!(!empty.handle_key(KeyInput::Down, 0));
    assert_eq!(empty.selected, None);

    let mut from_bottom = Selection::new();
    assert!(!from_bottom.handle_key(KeyInput::Up, len));
    assert_eq!(from_bottom.selected, Some(4));
}

#[test]
fn principals_become_tagged_display_entries() {
    let principals = vec![
        PrincipalRecord { id: "id-ann".to_string(), display_name: "Ann".to_string() },
        PrincipalRecord { id: "id-bob".to_string(), display_name: "Bob".to_string() },
    ];
    assert_eq!(
        principal_entries(&principals, PrincipalKind::User),
        vec![
            ("id-ann".to_string(), PrincipalKind::User, "Ann".to_string()),
            ("id-bob".to_string(), PrincipalKind::User, "Bob".to_string()),
        ],
    );
    assert_eq!(
        principal_entries(&principals, PrincipalKind::SecurityGroup),
        vec![
            ("id-ann".to_string(), PrincipalKind::SecurityGroup, "Ann".to_string()),
            ("id-bob".to_string(), PrincipalKind::SecurityGroup, "Bob".to_string()),
        ],
    );
    assert_eq!(
        principal_entries(&Vec::new(), PrincipalKind::ServicePrincipal),
        Vec::<(String, PrincipalKind, String)>::new(),
    );
}

#[test]
fn the_list_pane_follows_the_slot() {
    let not_loaded: Loadable<Vec<ResourceGroupRecord>> = Loadable::new();
    assert_eq!(rg_list_view(&not_loaded), RgListView::NotLoadedMessage);

    let loading: Loadable<Vec<ResourceGroupRecord>> = Loadable::Loading { started_at: 1 };
    assert_eq!(rg_list_view(&loading), RgListView::LoadingMessage);

    let failed: Loadable<Vec<ResourceGroupRecord>> =
        Loadable::Failed { error: "no access".to_string(), failed_at: 2 };
    assert_eq!(rg_list_view(&failed), RgListView::ErrorMessage("no access".to_string()));

    let loaded: Loadable<Vec<ResourceGroupRecord>> = Loadable::Loaded {
        value: vec![group("alpha", "scope-a"), group("beta", "scope-b")],
        loaded_at: 3,
    };
    assert_eq!(
        rg_list_view(&loaded),
        RgListView::Names(vec!["alpha".to_string(), "beta".to_string()]),
    );
}

#[test]
fn the_assignment_pane_follows_both_slots_and_the_cursor() {
    let groups: Loadable<Vec<ResourceGroupRecord>> = Loadable::Loaded {
        value: vec![group("alpha", "scope-a"), group("beta", "scope-b")],
        loaded_at: 1,
    };
    let assignments: Loadable<Vec<RoleAssignmentRecord>> = Loadable::Loaded {
        value: vec![
            assignment("scope-a", "Reader", "ann"),
            assignment("scope-b", "Owner", "bob"),
            assignment("scope-a", "Owner", "cid"),
        ],
        loaded_at: 2,
    };

    assert_eq!(panel_view(&groups, &assignments, None), PanelView::NoSelection);
    assert_eq!(panel_view(&groups, &assignments, Some(7)), PanelView::NoSelection);
    assert_eq!(panel_view(&groups, &assignments, Some(0)), PanelView::Assignments(vec![0, 2]));
    assert_eq!(panel_view(&groups, &assignments, Some(1)), PanelView::Assignments(vec![1]));

    let lonely: Loadable<Vec<ResourceGroupRecord>> =
        Loadable::Loaded { value: vec![group("gamma", "scope-g")], loaded_at: 1 };
    assert_eq!(panel_view(&lonely, &assignments, Some(0)), PanelView::NoAssignments);

    let loading: Loadable<Vec<RoleAssignmentRecord>> = Loadable::Loading { started_at: 1 };
    assert_eq!(panel_view(&groups, &loading, Some(0)), PanelView::LoadingMessage);

    let failed: Loadable<Vec<RoleAssignmentRecord>> =
        Loadable::Failed { error: "denied".to_string(), failed_at: 1 };
    assert_eq!(
        panel_view(&groups, &failed, Some(0)),
        PanelView::ErrorMessage("denied".to_string()),
    );
    // While anything still loads, that wins over a failure elsewhere.
    let groups_loading: Loadable<Vec<ResourceGroupRecord>> = Loadable::Loading { started_at: 1 };
    assert_eq!(panel_view(&groups_loading, &failed, Some(0)), PanelView::LoadingMessage);

    let fresh_groups: Loadable<Vec<ResourceGroupRecord>> = Loadable::new();
    let fresh_assignments: Loadable<Vec<RoleAssignmentRecord>> = Loadable::new();
    assert_eq!(panel_view(&fresh_groups, &fresh_assignments, None), PanelView::NotLoadedMessage);
}
