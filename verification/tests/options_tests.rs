use pylon_cxx::options::{GrabOptions, GrabStrategy, StartCommand};

#[test]
fn default_options_ask_for_a_continuous_run() {
    assert_eq!(GrabOptions::default().start_command(), StartCommand::Continuous);
}

#[test]
fn count_sets_the_bound() {
    let options = GrabOptions::default().count(10);
    assert_eq!(options.start_command(), StartCommand::WithCount(10));
    assert_eq!(options.count(3).start_command(), StartCommand::WithCount(3));
    assert_eq!(GrabOptions::default().count(0).start_command(), StartCommand::WithCount(0));
    assert_eq!(
        GrabOptions::default().count(u32::MAX).start_command(),
        StartCommand::WithCount(u32::MAX)
    );
}

#[test]
fn strategy_sets_the_strategy() {
    for strategy in [
        GrabStrategy::OneByOne,
        GrabStrategy::LatestImageOnly,
        GrabStrategy::LatestImages,
        GrabStrategy::UpcomingImage,
    ] {
        let options = GrabOptions::default().strategy(strategy);
        assert_eq!(options.start_command(), StartCommand::WithStrategy(strategy));
    }
    let twice = GrabOptions::default()
        .strategy(GrabStrategy::OneByOne)
        .strategy(GrabStrategy::LatestImages);
    assert_eq!(twice.start_command(), StartCommand::WithStrategy(GrabStrategy::LatestImages));
}

#[test]
fn count_and_strategy_keep_each_other() {
    let a = GrabOptions::default().count(7).strategy(GrabStrategy::UpcomingImage);
    let b = GrabOptions::default().strategy(GrabStrategy::UpcomingImage).count(7);
    let expected = StartCommand::WithCountAndStrategy(7, GrabStrategy::UpcomingImage);
    assert_eq!(a.start_command(), expected);
    assert_eq!(b.start_command(), expected);
}
