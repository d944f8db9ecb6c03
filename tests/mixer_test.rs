use ffmpeg_bus::mixer::{
    checked_slot_name, mixer_graph, poll_step, slot_name, MixerSources, PollAction, PullResult,
};

#[test]
fn mixer_graph_for_two_slots() {
    let g = mixer_graph(2, 48000);
    assert_eq!(g.sources.len(), 2);
    assert_eq!(g.sources[0].0, "in_0");
    assert_eq!(g.sources[1].0, "in_1");
    assert_eq!(
        g.sources[1].1,
        "time_base=1/48000:sample_rate=48000:sample_fmt=s16:channel_layout=stereo"
    );
    assert_eq!(g.amix_args, "inputs=2:duration=longest");
}

#[test]
fn slots_are_checked() {
    assert_eq!(slot_name(12), "in_12");
    assert_eq!(checked_slot_name(1, 2).as_deref(), Some("in_1"));
    assert_eq!(checked_slot_name(2, 2), None);
}

#[test]
fn mixer_sources_and_poller() {
    let mut t = MixerSources::new(2);
    assert_eq!(t.add_source(0), Some(false));
    assert_eq!(t.add_source(0), Some(true));
    assert_eq!(t.add_source(2), None);
    assert!(t.remove_source(0));
    assert!(!t.remove_source(0));
    assert!(!t.remove_source(1));
    assert!(!t.remove_source(7));
    assert_eq!(poll_step(false, PullResult::Frame), PollAction::Publish);
    assert_eq!(poll_step(false, PullResult::Empty), PollAction::SleepAndRetry);
    assert_eq!(poll_step(false, PullResult::Failed), PollAction::Exit);
    assert_eq!(poll_step(true, PullResult::Frame), PollAction::Exit);
}
