use wasm_safe_sync::audio_worklet::{
    audio_worklet_node, is_registered, NodeAction, NodePhase, NodeProgress, DATA_PROPERTY_NAME,
};

fn run(data: u32, has_options: bool, constructed: bool) -> (Vec<NodeAction>, Result<(), u32>) {
    let mut phase = NodePhase::New { data, has_options };
    let mut actions = vec![];
    loop {
        match audio_worklet_node(phase, constructed) {
            NodeProgress::Do(next, action) => {
                actions.push(action);
                phase = next;
            }
            NodeProgress::Done(result) => return (actions, result),
        }
    }
}

#[test]
fn only_a_true_property_means_registered() {
    assert!(is_registered(Some(true)));
    assert!(!is_registered(Some(false)));
    assert!(!is_registered(None));
}

#[test]
fn the_property_has_its_name() {
    assert_eq!(DATA_PROPERTY_NAME, "__web_thread_data");
}

#[test]
fn a_node_keeps_the_data() {
    let (actions, result) = run(77, true, true);
    assert_eq!(
        actions,
        vec![
            NodeAction::StoreData(77),
            NodeAction::Construct,
            NodeAction::DeleteData
        ]
    );
    assert_eq!(result, Ok(()));
}

#[test]
fn without_a_node_the_data_comes_back() {
    let (actions, result) = run(78, false, false);
    assert_eq!(
        actions,
        vec![
            NodeAction::CreateOptions,
            NodeAction::StoreData(78),
            NodeAction::Construct,
            NodeAction::DeleteData
        ]
    );
    assert_eq!(result, Err(78));
}
