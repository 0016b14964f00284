use halley::session::pointer::{click_grab_location, Point};
use halley::session::workspace::{
    apply_transaction, snapshot, switching_allowed, sync_ext_workspace, Cluster, ClusterId, Event,
    Grab, Output, OutputClusters, Step, SwitchSync, Switched, Transaction, TransactionPlan,
};

fn output(handle: u64, name: &str) -> Output {
    Output {
        handle,
        name: name.to_owned(),
    }
}

fn clusters() -> Vec<OutputClusters> {
    vec![
        OutputClusters {
            output: output(7, "DP-1"),
            clusters: vec![
                Cluster {
                    slot: 1,
                    id: ClusterId(10),
                    name: "web".to_owned(),
                },
                Cluster {
                    slot: 2,
                    id: ClusterId(11),
                    name: String::new(),
                },
            ],
            active: Some(ClusterId(11)),
        },
        OutputClusters {
            output: output(8, "HDMI-A-1"),
            clusters: vec![Cluster {
                slot: 1,
                id: ClusterId(12),
                name: "mail".to_owned(),
            }],
            active: None,
        },
    ]
}

#[test]
fn snapshots_follow_the_cluster_model() {
    let published = snapshot(&clusters());
    assert_eq!(published.groups.len(), 2);
    let first = &published.groups[0];
    assert_eq!(first.output.handle, 7);
    assert_eq!(first.output.name, "DP-1");
    assert_eq!(first.workspaces.len(), 2);
    assert_eq!(first.workspaces[0].id, ClusterId(10));
    assert_eq!(first.workspaces[0].name, "web");
    assert_eq!(first.workspaces[0].order, 1);
    assert!(!first.workspaces[0].active);
    assert!(first.workspaces[1].active);
}

#[test]
fn field_mode_publishes_no_active_workspace() {
    let published = snapshot(&clusters());
    assert!(published.groups[1].workspaces.iter().all(|w| !w.active));
}

#[test]
fn at_most_one_workspace_of_a_group_is_active() {
    for group in snapshot(&clusters()).groups {
        assert!(group.workspaces.iter().filter(|w| w.active).count() <= 1);
    }
}

#[test]
fn nothing_is_published_while_no_client_listens() {
    assert!(sync_ext_workspace(true, &clusters()).is_none());
    assert_eq!(
        sync_ext_workspace(false, &clusters()).unwrap().groups.len(),
        2
    );
}

#[test]
fn locks_and_grabs_decline_switching() {
    assert!(switching_allowed(false, Grab::Free));
    assert!(!switching_allowed(true, Grab::Free));
    assert!(!switching_allowed(false, Grab::Held));
    assert!(!switching_allowed(true, Grab::Held));
}

fn plan(selections: &[(&str, Option<u64>)], focus: Option<(&str, u64)>) -> TransactionPlan {
    TransactionPlan {
        selections: selections
            .iter()
            .map(|(name, id)| (name.to_string(), id.map(ClusterId)))
            .collect(),
        focus: focus.map(|(name, id)| (name.to_string(), ClusterId(id))),
    }
}

/// Runs a transaction on outputs with the given active clusters. Every cluster
/// in `focused` owns the keyboard. Returns the steps that changed something.
fn run(
    mut transaction: Transaction,
    active: &mut Vec<(String, Option<u64>)>,
    focused: &[u64],
    mapped: &Vec<Output>,
) -> (Vec<String>, Switched) {
    let mut log = Vec::new();
    loop {
        let event = match transaction.step() {
            Step::Active { output } => Event::Active(
                active
                    .iter()
                    .find(|(name, _)| *name == output)
                    .and_then(|(_, id)| id.map(ClusterId)),
            ),
            Step::Focus { cluster } => {
                log.push(format!("focus? {}", cluster.0));
                Event::OwnsFocus(focused.contains(&cluster.0))
            }
            Step::Activate { output, cluster } => {
                log.push(format!("activate {output} {}", cluster.0));
                let entry = active.iter_mut().find(|(name, _)| *name == output).unwrap();
                let changed = entry.1 != Some(cluster.0);
                entry.1 = Some(cluster.0);
                Event::Changed(changed)
            }
            Step::Deactivate { output } => {
                log.push(format!("deactivate {output}"));
                let entry = active.iter_mut().find(|(name, _)| *name == output).unwrap();
                let changed = entry.1.is_some();
                entry.1 = None;
                Event::Changed(changed)
            }
            Step::Done => break,
        };
        transaction.advance(event);
    }
    (log, transaction.finish(mapped))
}

fn outputs() -> Vec<Output> {
    vec![output(7, "DP-1"), output(8, "HDMI-A-1")]
}

fn models() -> Vec<(String, Option<u64>)> {
    vec![("DP-1".to_owned(), Some(10)), ("HDMI-A-1".to_owned(), None)]
}

#[test]
fn empty_and_declined_transactions_are_dropped() {
    assert!(apply_transaction(plan(&[], None), false, Grab::Free).is_none());
    let one = [("DP-1", Some(11))];
    assert!(apply_transaction(plan(&one, None), true, Grab::Free).is_none());
    assert!(apply_transaction(plan(&one, None), false, Grab::Held).is_none());
    assert!(apply_transaction(plan(&one, None), false, Grab::Free).is_some());
}

#[test]
fn one_output_transactions_hand_the_keyboard_over() {
    let transaction =
        apply_transaction(plan(&[("DP-1", Some(11))], None), false, Grab::Free).unwrap();
    let (log, switched) = run(transaction, &mut models(), &[11], &outputs());
    assert_eq!(log, ["focus? 11", "activate DP-1 11"]);
    assert!(switched.changed);
    assert_eq!(switched.syncs.len(), 1);
    assert!(matches!(
        &switched.syncs[0],
        SwitchSync::Focus {
            handle: 7,
            cluster: ClusterId(11),
            owned_focus: true
        }
    ));
}

#[test]
fn the_final_activation_gets_the_keyboard_of_several_outputs() {
    let transaction = apply_transaction(
        plan(
            &[("DP-1", Some(11)), ("HDMI-A-1", Some(12))],
            Some(("HDMI-A-1", 12)),
        ),
        false,
        Grab::Free,
    )
    .unwrap();
    let (_, switched) = run(transaction, &mut models(), &[], &outputs());
    assert!(matches!(&switched.syncs[0], SwitchSync::Camera { output } if output == "DP-1"));
    assert!(matches!(
        &switched.syncs[1],
        SwitchSync::Focus {
            handle: 8,
            cluster: ClusterId(12),
            owned_focus: false
        }
    ));
}

#[test]
fn deactivation_asks_for_the_focus_of_the_active_cluster_first() {
    let transaction =
        apply_transaction(plan(&[("DP-1", None)], None), false, Grab::Free).unwrap();
    let (log, switched) = run(transaction, &mut models(), &[10], &outputs());
    assert_eq!(log, ["focus? 10", "deactivate DP-1"]);
    assert!(matches!(
        &switched.syncs[0],
        SwitchSync::Focus {
            handle: 7,
            cluster: ClusterId(10),
            owned_focus: true
        }
    ));
}

#[test]
fn clearing_an_output_in_field_mode_does_nothing() {
    let transaction =
        apply_transaction(plan(&[("HDMI-A-1", None)], None), false, Grab::Free).unwrap();
    let (log, switched) = run(transaction, &mut models(), &[], &outputs());
    assert!(log.is_empty());
    assert!(!switched.changed);
    assert!(switched.syncs.is_empty());
}

#[test]
fn repeating_an_activation_is_idempotent() {
    let transaction = apply_transaction(
        plan(&[("DP-1", Some(10))], Some(("DP-1", 10))),
        false,
        Grab::Free,
    )
    .unwrap();
    let mut model = models();
    let (_, switched) = run(transaction, &mut model, &[], &outputs());
    assert!(!switched.changed);
    assert_eq!(model, models());
}

#[test]
fn a_second_run_of_a_transaction_changes_nothing() {
    let selections = [("DP-1", None), ("HDMI-A-1", Some(12))];
    let mut model = models();
    let first = apply_transaction(plan(&selections, None), false, Grab::Free).unwrap();
    assert!(run(first, &mut model, &[], &outputs()).1.changed);
    let reached = vec![("DP-1".to_owned(), None), ("HDMI-A-1".to_owned(), Some(12))];
    assert_eq!(model, reached);
    let second = apply_transaction(plan(&selections, None), false, Grab::Free).unwrap();
    let (_, switched) = run(second, &mut model, &[], &outputs());
    assert!(!switched.changed);
    assert!(switched.syncs.is_empty());
    assert_eq!(model, reached);
}

#[test]
fn unmapped_outputs_are_not_followed() {
    let transaction =
        apply_transaction(plan(&[("DP-1", Some(11))], None), false, Grab::Free).unwrap();
    let (_, switched) = run(transaction, &mut models(), &[], &vec![]);
    assert!(switched.changed);
    assert!(switched.syncs.is_empty());
}

#[test]
fn an_unchanged_focus_target_falls_back_to_the_only_switch() {
    let transaction = apply_transaction(
        plan(
            &[("DP-1", Some(10)), ("HDMI-A-1", Some(12))],
            Some(("DP-1", 10)),
        ),
        false,
        Grab::Free,
    )
    .unwrap();
    let (_, switched) = run(transaction, &mut models(), &[], &outputs());
    assert_eq!(switched.syncs.len(), 1);
    assert!(matches!(
        &switched.syncs[0],
        SwitchSync::Focus { handle: 8, .. }
    ));
}

fn point(x: i64, y: i64) -> Point {
    Point { x, y }
}

#[test]
fn layer_and_subsurface_grabs_keep_their_own_origin_after_layout_moves() {
    let grab_origin = point(2560, 40);
    // Layer moved by 20 px and its child moved by 5 px. Screen coordinates
    // remain screen coordinates regardless of the window now underneath.
    let current_origin = point(2585, 40);
    let event = click_grab_location(grab_origin, point(2700, 25), current_origin);
    assert_eq!(
        point(event.x - grab_origin.x, event.y - grab_origin.y),
        point(115, -15)
    );
}

#[test]
fn transformed_drags_keep_owner_coordinates() {
    let grab_origin = point(400, -300);
    let current_origin = point(700, -200);
    let source = point(current_origin.x + 1200, current_origin.y - 40);
    let rebased = click_grab_location(grab_origin, source, current_origin);
    assert_eq!(rebased, point(1600, -340));
}

#[test]
fn unmoved_grabs_keep_locations() {
    assert_eq!(
        click_grab_location(point(5, 6), point(i64::MAX, i64::MIN), point(5, 6)),
        point(i64::MAX, i64::MIN)
    );
}
