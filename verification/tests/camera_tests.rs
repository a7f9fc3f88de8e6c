use pylon_cxx::camera::{InstantCamera, Retrieval, StartPlan, StreamPhase};
use pylon_cxx::error::{ErrorKind, Platform, PylonError};
use pylon_cxx::options::{GrabOptions, GrabStrategy, StartCommand, TimeoutHandling};
use pylon_cxx::pylon::{Pylon, PylonVersion, TlFactory};
use pylon_cxx::result::GrabResult;

fn frame(block_id: u64) -> GrabResult {
    let mut f = GrabResult::new();
    f.grab_succeeded = true;
    f.width = 4;
    f.height = 2;
    f.stride = 4;
    f.payload_size = 8;
    f.buffer_size = 8;
    f.image_size = 8;
    f.block_id = block_id;
    f.time_stamp = 1000 + block_id;
    f.buffer = vec![block_id as u8; 8];
    f
}

fn started<'a>(lib: &'a Pylon, platform: Platform, options: GrabOptions) -> InstantCamera<'a> {
    let mut cam = InstantCamera::new(lib, platform);
    cam.open(Ok(())).unwrap();
    let plan = cam.start_plan(&options, true).unwrap();
    cam.grabbing_started(plan, Ok(())).unwrap();
    cam
}

fn device_failure() -> PylonError {
    PylonError::from_native("Pylon::RuntimeException: device removed", Platform::Posix)
}

#[test]
fn a_new_session_is_closed_and_idle() {
    let lib = Pylon::new();
    let cam = InstantCamera::new(&lib, Platform::Posix);
    assert!(!cam.is_open());
    assert!(!cam.is_grabbing());
    assert!(!cam.has_readiness());
    assert_eq!(cam.remaining(), None);
    assert_eq!(cam.grab_strategy(), None);
    assert_eq!(cam.phase(), StreamPhase::NotGrabbing);
    assert_eq!(cam.platform(), Platform::Posix);
}

#[test]
fn the_factory_creates_closed_sessions() {
    let lib = Pylon::default();
    let factory = TlFactory::instance(&lib);
    let cam = factory.create_device(Platform::Windows, Ok(())).unwrap();
    assert!(!cam.is_open());
    assert_eq!(cam.platform(), Platform::Windows);
    let failed = factory.create_device(Platform::Posix, Err(device_failure()));
    let e = failed.err().unwrap();
    assert_eq!(e.msg(), "device removed");
    assert_eq!(e.kind(), Some(ErrorKind::RuntimeException));
}

#[test]
fn the_version_is_four_numbers() {
    let v = PylonVersion { major: 6, minor: 2, subminor: 0, build: 21487 };
    assert_eq!(v, PylonVersion { major: 6, minor: 2, subminor: 0, build: 21487 });
    assert_eq!(format!("{:?}", v), "PylonVersion { major: 6, minor: 2, subminor: 0, build: 21487 }");
}

#[test]
fn open_and_close_follow_the_device() {
    let lib = Pylon::new();
    let mut cam = InstantCamera::new(&lib, Platform::Posix);
    let refused = cam.open(Err(PylonError::from_native(
        "Pylon::AccessException: device is in use",
        Platform::Posix,
    )));
    assert_eq!(refused.unwrap_err().kind(), Some(ErrorKind::AccessException));
    assert!(!cam.is_open());
    cam.open(Ok(())).unwrap();
    assert!(cam.is_open());
    cam.open(Ok(())).unwrap();
    assert!(cam.is_open());
    assert!(cam.close(Err(device_failure())).is_err());
    assert!(cam.is_open());
    cam.close(Ok(())).unwrap();
    assert!(!cam.is_open());
    cam.close(Ok(())).unwrap();
    assert!(!cam.is_open());
}

#[test]
fn close_ends_a_run() {
    let lib = Pylon::new();
    let mut cam = started(&lib, Platform::Posix, GrabOptions::default());
    assert!(cam.is_grabbing());
    cam.close(Ok(())).unwrap();
    assert!(!cam.is_open());
    assert!(!cam.is_grabbing());
    assert!(!cam.has_readiness());
}

#[test]
fn start_plan_follows_options_and_scheduler() {
    let lib = Pylon::new();
    let mut cam = InstantCamera::new(&lib, Platform::Posix);
    cam.open(Ok(())).unwrap();
    let options = GrabOptions::default().count(10).strategy(GrabStrategy::LatestImageOnly);
    assert_eq!(
        cam.start_plan(&options, true).unwrap(),
        StartPlan {
            arm_readiness: true,
            command: StartCommand::WithCountAndStrategy(10, GrabStrategy::LatestImageOnly),
        }
    );
    assert_eq!(
        cam.start_plan(&GrabOptions::default(), false).unwrap(),
        StartPlan { arm_readiness: false, command: StartCommand::Continuous }
    );
    let mut win = InstantCamera::new(&lib, Platform::Windows);
    win.open(Ok(())).unwrap();
    assert_eq!(
        win.start_plan(&GrabOptions::default().count(1), true).unwrap(),
        StartPlan { arm_readiness: false, command: StartCommand::WithCount(1) }
    );
}

#[test]
fn start_fails_on_a_closed_device() {
    let lib = Pylon::new();
    let mut cam = InstantCamera::new(&lib, Platform::Posix);
    let e = cam.start_plan(&GrabOptions::default(), true).unwrap_err();
    assert_eq!(e.msg(), "Cannot start grabbing: the camera is not open");
    assert_eq!(e.kind(), Some(ErrorKind::RuntimeException));
    let plan = StartPlan { arm_readiness: false, command: StartCommand::Continuous };
    let e = cam.grabbing_started(plan, Ok(())).unwrap_err();
    assert_eq!(e.msg(), "Cannot start grabbing: the camera is not open");
    assert!(!cam.is_grabbing());
}

#[test]
fn start_fails_while_grabbing() {
    let lib = Pylon::new();
    let mut cam = started(&lib, Platform::Posix, GrabOptions::default().count(5));
    let e = cam.start_plan(&GrabOptions::default(), true).unwrap_err();
    assert_eq!(e.msg(), "Cannot start grabbing: the camera is already grabbing");
    assert_eq!(e.kind(), Some(ErrorKind::RuntimeException));
    let plan = StartPlan { arm_readiness: false, command: StartCommand::WithCount(9) };
    let e = cam.grabbing_started(plan, Ok(())).unwrap_err();
    assert_eq!(e.msg(), "Cannot start grabbing: the camera is already grabbing");
    assert!(cam.is_grabbing());
    assert_eq!(cam.remaining(), Some(5));
    assert!(cam.has_readiness());
}

#[test]
fn start_grabbing_arms_only_inside_a_scheduler() {
    let lib = Pylon::new();
    let mut cam = InstantCamera::new(&lib, Platform::Posix);
    cam.open(Ok(())).unwrap();
    let options = GrabOptions::default().count(3);
    let outside = cam.start_grabbing(&options).unwrap();
    assert_eq!(outside, StartPlan { arm_readiness: false, command: StartCommand::WithCount(3) });
    let runtime = tokio::runtime::Builder::new_current_thread().build().unwrap();
    let inside = {
        let _guard = runtime.enter();
        cam.start_grabbing(&options).unwrap()
    };
    assert_eq!(inside, StartPlan { arm_readiness: true, command: StartCommand::WithCount(3) });
    let mut win = InstantCamera::new(&lib, Platform::Windows);
    win.open(Ok(())).unwrap();
    let on_windows = {
        let _guard = runtime.enter();
        win.start_grabbing(&options).unwrap()
    };
    assert!(!on_windows.arm_readiness);
    let closed = InstantCamera::new(&lib, Platform::Posix);
    assert!(closed.start_grabbing(&options).is_err());
}

#[test]
fn grabbing_started_follows_the_device() {
    let lib = Pylon::new();
    let mut cam = InstantCamera::new(&lib, Platform::Posix);
    cam.open(Ok(())).unwrap();
    let options = GrabOptions::default().count(2).strategy(GrabStrategy::LatestImages);
    let plan = cam.start_plan(&options, false).unwrap();
    let e = cam.grabbing_started(plan, Err(device_failure())).unwrap_err();
    assert_eq!(e.msg(), "device removed");
    assert!(!cam.is_grabbing());
    cam.grabbing_started(plan, Ok(())).unwrap();
    assert!(cam.is_grabbing());
    assert_eq!(cam.remaining(), Some(2));
    assert_eq!(cam.grab_strategy(), Some(GrabStrategy::LatestImages));
    assert!(!cam.has_readiness());
    assert_eq!(cam.phase(), StreamPhase::Idle);
}

#[test]
fn a_run_of_no_retrievals_is_over_at_once() {
    let lib = Pylon::new();
    let cam = started(&lib, Platform::Posix, GrabOptions::default().count(0));
    assert!(cam.is_open());
    assert!(!cam.is_grabbing());
    assert!(!cam.has_readiness());
    assert_eq!(cam.remaining(), None);
}

#[test]
fn stop_is_idempotent() {
    let lib = Pylon::new();
    let mut cam = InstantCamera::new(&lib, Platform::Posix);
    cam.open(Ok(())).unwrap();
    assert!(cam.stop_grabbing(Ok(())).is_ok());
    assert!(!cam.is_grabbing());
    assert!(cam.is_open());
    assert!(cam.stop_grabbing(Ok(())).is_ok());
    assert!(!cam.is_grabbing());
    assert!(cam.stop_grabbing(Err(device_failure())).is_ok());
    assert!(!cam.is_grabbing());
    assert!(cam.is_open());
    let mut closed = InstantCamera::new(&lib, Platform::Windows);
    assert!(closed.stop_grabbing(Ok(())).is_ok());
    assert!(!closed.is_grabbing());
    assert!(!closed.is_open());
    let mut run = started(&lib, Platform::Posix, GrabOptions::default());
    run.stop_grabbing(Ok(())).unwrap();
    assert!(!run.is_grabbing());
    run.stop_grabbing(Ok(())).unwrap();
    assert!(!run.is_grabbing());
    assert!(run.is_open());
}

#[test]
fn stop_ends_the_run_and_its_readiness() {
    let lib = Pylon::new();
    let mut cam =
        started(&lib, Platform::Posix, GrabOptions::default().count(4).strategy(GrabStrategy::OneByOne));
    assert!(cam.has_readiness());
    let e = cam.stop_grabbing(Err(device_failure())).unwrap_err();
    assert_eq!(e.msg(), "device removed");
    assert!(cam.is_grabbing());
    assert!(cam.has_readiness());
    cam.stop_grabbing(Ok(())).unwrap();
    assert!(!cam.is_grabbing());
    assert!(!cam.has_readiness());
    assert_eq!(cam.remaining(), None);
    assert_eq!(cam.grab_strategy(), None);
    assert_eq!(cam.phase(), StreamPhase::NotGrabbing);
}

#[test]
fn retrieve_on_a_session_that_is_not_grabbing_fails() {
    let lib = Pylon::new();
    let mut cam = InstantCamera::new(&lib, Platform::Posix);
    cam.open(Ok(())).unwrap();
    let mut slot = GrabResult::new();
    let e = cam
        .retrieve_result(&mut slot, TimeoutHandling::ThrowException, Retrieval::NoFrame)
        .unwrap_err();
    assert_eq!(e.kind(), Some(ErrorKind::RuntimeException));
    assert_eq!(e.msg(), "Cannot retrieve a grab result: the camera is not grabbing");
    let e = cam
        .retrieve_result(&mut slot, TimeoutHandling::Return, Retrieval::Frame(frame(1)))
        .unwrap_err();
    assert_eq!(e.kind(), Some(ErrorKind::RuntimeException));
    assert_eq!(slot, GrabResult::new());
}

#[test]
fn retrieve_stores_the_result() {
    let lib = Pylon::new();
    let mut cam = started(&lib, Platform::Posix, GrabOptions::default());
    let mut slot = GrabResult::new();
    let got = cam.retrieve_result(&mut slot, TimeoutHandling::ThrowException, Retrieval::Frame(frame(7)));
    assert_eq!(got.unwrap(), true);
    assert_eq!(slot, frame(7));
    assert!(slot.grab_succeeded());
    assert_eq!(slot.block_id(), 7);
    assert_eq!(slot.buffer(), &[7u8; 8][..]);
    let got = cam.retrieve_result(&mut slot, TimeoutHandling::Return, Retrieval::Frame(frame(8)));
    assert_eq!(got.unwrap(), true);
    assert_eq!(slot, frame(8));
    assert!(cam.is_grabbing());
    assert_eq!(cam.remaining(), None);
}

#[test]
fn retrieve_hands_a_failed_capture_out_as_a_result() {
    let lib = Pylon::new();
    let mut cam = started(&lib, Platform::Posix, GrabOptions::default().count(2));
    let mut failed = GrabResult::new();
    failed.error_code = 0xE1000014;
    failed.error_description = String::from("The buffer was incompletely grabbed.");
    let mut slot = GrabResult::new();
    let got = cam.retrieve_result(&mut slot, TimeoutHandling::Return, Retrieval::Frame(failed.clone()));
    assert_eq!(got.unwrap(), true);
    assert!(!slot.grab_succeeded());
    assert_eq!(slot.error_code(), 0xE1000014);
    assert_eq!(slot.error_description(), "The buffer was incompletely grabbed.");
    assert_eq!(cam.remaining(), Some(1));
}

#[test]
fn retrieve_that_finds_nothing_follows_the_timeout_handling() {
    let lib = Pylon::new();
    let mut cam = started(&lib, Platform::Posix, GrabOptions::default().count(2));
    let mut slot = frame(3);
    let got = cam.retrieve_result(&mut slot, TimeoutHandling::Return, Retrieval::NoFrame);
    assert_eq!(got.unwrap(), false);
    let e = cam
        .retrieve_result(&mut slot, TimeoutHandling::ThrowException, Retrieval::NoFrame)
        .unwrap_err();
    assert_eq!(e.kind(), Some(ErrorKind::TimeoutException));
    assert_eq!(e.msg(), "Grab timed out: no grab result was available");
    assert_eq!(slot, frame(3));
    assert_eq!(cam.remaining(), Some(2));
    assert!(cam.is_grabbing());
}

#[test]
fn retrieve_hands_a_failure_of_the_device_on() {
    let lib = Pylon::new();
    let mut cam = started(&lib, Platform::Posix, GrabOptions::default().count(2));
    let mut slot = frame(3);
    let e = cam
        .retrieve_result(&mut slot, TimeoutHandling::Return, Retrieval::Failed(device_failure()))
        .unwrap_err();
    assert_eq!(e.msg(), "device removed");
    assert_eq!(e.kind(), Some(ErrorKind::RuntimeException));
    assert_eq!(slot, frame(3));
    assert_eq!(cam.remaining(), Some(2));
    assert!(cam.is_grabbing());
}

#[test]
fn the_count_ends_the_run_with_the_last_result() {
    let lib = Pylon::new();
    for n in [1u32, 2, 3, 10] {
        let mut cam = started(&lib, Platform::Posix, GrabOptions::default().count(n));
        let mut slot = GrabResult::new();
        for k in 1..=n {
            assert!(cam.is_grabbing());
            assert_eq!(cam.remaining(), Some(n - k + 1));
            let got =
                cam.retrieve_result(&mut slot, TimeoutHandling::Return, Retrieval::Frame(frame(k as u64)));
            assert_eq!(got.unwrap(), true);
            assert_eq!(cam.is_grabbing(), k < n);
        }
        assert!(!cam.has_readiness());
        assert!(cam
            .retrieve_result(&mut slot, TimeoutHandling::Return, Retrieval::Frame(frame(99)))
            .is_err());
        assert_eq!(slot.block_id(), n as u64);
    }
}

#[test]
fn a_restart_begins_afresh() {
    let lib = Pylon::new();
    let mut cam =
        started(&lib, Platform::Posix, GrabOptions::default().count(5).strategy(GrabStrategy::LatestImages));
    let mut slot = GrabResult::new();
    cam.retrieve_result(&mut slot, TimeoutHandling::Return, Retrieval::Frame(frame(1))).unwrap();
    cam.retrieve_result(&mut slot, TimeoutHandling::Return, Retrieval::Frame(frame(2))).unwrap();
    cam.stop_grabbing(Ok(())).unwrap();
    let plan = cam.start_plan(&GrabOptions::default().count(3), false).unwrap();
    cam.grabbing_started(plan, Ok(())).unwrap();
    assert!(cam.is_grabbing());
    assert_eq!(cam.remaining(), Some(3));
    assert_eq!(cam.grab_strategy(), None);
    assert!(!cam.has_readiness());
    assert_eq!(cam.phase(), StreamPhase::Idle);
}

#[test]
fn the_getters_of_a_result_read_its_fields() {
    let mut f = frame(5);
    f.offset_x = 16;
    f.offset_y = 8;
    f.padding_x = 2;
    f.padding_y = 1;
    assert_eq!(f.width(), 4);
    assert_eq!(f.height(), 2);
    assert_eq!(f.offset_x(), 16);
    assert_eq!(f.offset_y(), 8);
    assert_eq!(f.padding_x(), 2);
    assert_eq!(f.padding_y(), 1);
    assert_eq!(f.stride(), 4);
    assert_eq!(f.payload_size(), 8);
    assert_eq!(f.buffer_size(), 8);
    assert_eq!(f.image_size(), 8);
    assert_eq!(f.block_id(), 5);
    assert_eq!(f.time_stamp(), 1005);
    assert_eq!(f.error_code(), 0);
    assert_eq!(f.error_description(), "");
    let empty = GrabResult::new();
    assert!(!empty.grab_succeeded());
    assert!(empty.buffer().is_empty());
    assert_eq!(empty.block_id(), 0);
}
